//! Timeline rows.

use lead_chat::json::Json;
use lead_chat::proto::ToolCall;
use lead_chat::rows::{
    branch_of, finalize_text, is_anonymous_slot_duplicate, text_row_content, tool_row_content,
    tool_row_status, LeadMessage,
};
use lead_chat::turn::Outgoing;

#[test]
fn branch_of_normalizes_own_thread_to_mainline() {
    // The session's own thread id — main narration — is NOT a branch, even
    // though app-server tags EVERY event (including mainline ones) with a
    // threadId. Only a DIFFERENT thread id is a genuine sub-agent.
    assert_eq!(branch_of(Some("lead-1".into()), "lead-1"), None);
    assert_eq!(
        branch_of(Some("sub-1".into()), "lead-1"),
        Some("sub-1".into())
    );
    // No raw thread at all (the resident dialect/exec/opencode; app-server's anonymous
    // error slot) — always mainline, regardless of the session's own id.
    assert_eq!(branch_of(None, "lead-1"), None);
}

#[test]
fn text_row_content_omits_tag_when_mainline() {
    // Untagged output must be BYTE-IDENTICAL to older rows: this is what
    // lets an old row (persisted before this feature existed) and a fresh
    // mainline row render through the exact same code path either side of
    // the upgrade — no migration, no schema bump.
    assert_eq!(text_row_content("hello", None), r#"{"text":"hello"}"#);
}

#[test]
fn text_row_content_embeds_tag_when_branched() {
    let v = Json::parse(&text_row_content("hi", Some("sub-1"))).unwrap();
    assert_eq!(v.str_at("text"), Some("hi"));
    assert_eq!(v.str_at("agentThread"), Some("sub-1"));
}

#[test]
fn anonymous_slot_dup_catches_the_exact_repeat() {
    // The reported bug: an "error" notification lands the full message
    // first (buf goes empty -> the message), then turn/completed's error
    // text arrives with the SAME message — must be recognized as a repeat.
    assert!(is_anonymous_slot_duplicate(
        "usage limit reached",
        "usage limit reached"
    ));
}

#[test]
fn anonymous_slot_dup_ignores_a_first_delta_into_an_empty_buffer() {
    // The very first delta on a freshly-opened row: nothing to repeat yet.
    assert!(!is_anonymous_slot_duplicate("", "usage limit reached"));
}

#[test]
fn anonymous_slot_dup_does_not_eat_a_different_second_error() {
    // Two DISTINCT errors in the same turn (e.g. a transient reconnect
    // banner ahead of the real failure) must both survive.
    assert!(!is_anonymous_slot_duplicate(
        "Reconnecting to Codex…",
        "usage limit reached"
    ));
}

#[test]
fn anonymous_slot_dup_matches_a_repeat_after_other_buffered_text() {
    // The repeat can follow OTHER already-buffered text, not just be the
    // whole buffer verbatim — `ends_with`, not `==`.
    assert!(is_anonymous_slot_duplicate(
        "Reconnecting to Codex…usage limit reached",
        "usage limit reached"
    ));
}

#[test]
fn anonymous_slot_dup_ignores_whitespace_only_text() {
    assert!(!is_anonymous_slot_duplicate("usage limit reached", "   "));
    assert!(!is_anonymous_slot_duplicate("usage limit reached", ""));
}

fn test_tool_call(name: &str, collab_threads: Vec<String>) -> ToolCall {
    ToolCall {
        id: "call_1".into(),
        name: name.into(),
        input: Json::Obj(vec![]),
        summary: String::new(),
        output: None,
        is_error: false,
        collab_threads,
    }
}

#[test]
fn tool_row_content_omits_tags_for_ordinary_mainline_call() {
    // A mainline (non-branched, non-collab) tool row's content must be
    // exactly what it was for older rows — no agentThread, no collabThreads key
    // at all (not even `null`), so an old persisted row and a fresh one
    // parse identically.
    let call = test_tool_call("read_file", Vec::new());
    let v = tool_row_content(&call, None);
    assert_eq!(v.str_at("name"), Some("read_file"));
    assert!(v.get("agentThread").is_none());
    assert!(v.get("collabThreads").is_none());
}

#[test]
fn tool_row_content_tags_a_sub_agents_own_call() {
    // The exact review counterexample, from the OTHER side: the row itself
    // (e.g. a sub-agent's own read_file) carries agentThread so it can
    // never be confused with the lead's own mainline read_file.
    let call = test_tool_call("read_file", Vec::new());
    let v = tool_row_content(&call, Some("sub-1"));
    assert_eq!(v.str_at("agentThread"), Some("sub-1"));
    assert!(v.get("collabThreads").is_none());
}

#[test]
fn tool_row_content_carries_collab_threads_for_the_anchor_row() {
    // The collabAgentToolCall row ITSELF is mainline (issued by the lead —
    // no agentThread), but carries collabThreads so the frontend can anchor
    // that sub-agent's branch here.
    let call = test_tool_call("collabAgentToolCall", vec!["sub-1".into(), "sub-2".into()]);
    let v = tool_row_content(&call, None);
    assert!(v.get("agentThread").is_none());
    assert_eq!(
        v.get("collabThreads").unwrap(),
        &Json::Arr(vec![Json::Str("sub-1".into()), Json::Str("sub-2".into())])
    );
}

#[test]
fn tool_row_status_id_less_running_does_not_spin() {
    // a finished row is terminal …
    assert_eq!(tool_row_status(true, false, false), "complete");
    assert_eq!(tool_row_status(true, false, true), "error");
    // … a running row streams only when it has an id to correlate its result …
    assert_eq!(tool_row_status(false, true, false), "streaming");
    // … and an id-less running row is stored complete (never a perpetual spinner).
    assert_eq!(tool_row_status(false, false, false), "complete");
}

#[test]
fn finalize_text_only_replaces_plain_rows() {
    let row = |kind: &str, content: &str| LeadMessage {
        id: 1,
        thread_id: 1,
        session_id: None,
        turn_id: 1,
        role: "user".into(),
        kind: kind.into(),
        content: content.into(),
        status: "complete".into(),
        created_at: "0".into(),
        seq: None,
        native_anchor: None,
        consumed_at: None,
    };
    let plain = Outgoing {
        text: "edited".into(),
        queue_id: Some(1),
        ..Default::default()
    };
    // Plain text, no attachments → use the (edited) Outgoing text.
    assert_eq!(
        finalize_text(
            &row("text", r#"{"text":"orig","images":[],"files":[]}"#),
            &plain
        ),
        Some("edited".to_string()),
    );
    // Persisted images but out.images cleared (per-turn spill) → keep cached body.
    let spilled = Outgoing {
        text: "/tmp/x.png".into(),
        images: vec![],
        queue_id: Some(1),
        ..Default::default()
    };
    assert_eq!(
        finalize_text(
            &row("text", r#"{"text":"","images":["data:..."],"files":[]}"#),
            &spilled
        ),
        None,
    );
    // Resident inline image (out.images non-empty) → keep cached body.
    let resident = Outgoing {
        text: "hi".into(),
        images: vec![("image/png".into(), "abc".into())],
        queue_id: Some(1),
        ..Default::default()
    };
    assert_eq!(
        finalize_text(&row("text", r#"{"text":"hi"}"#), &resident),
        None
    );
    // Command row → keep cached body.
    assert_eq!(
        finalize_text(&row("command", r#"{"command":"x","args":""}"#), &plain),
        None
    );
}
