//! Permission cards, rewinding, session facts and digests.

use std::collections::BTreeMap;

use lead_chat::approval::{
    acp_permission_risk, codex_change_approval_summary, structured_codex_exhaustion_snapshot,
    PermissionIntent, QuotaSnapshot, QuotaStatus, RiskLevel, RiskQuestion, RiskSignal,
};
use lead_chat::digest::{build_switch_digest, truncate_chars};
use lead_chat::engine::EngineInner;
use lead_chat::json::Json;
use lead_chat::meta::{
    apply_persisted_meta, usage_events_authoritative, PersistedMeta, SessionMetaSnapshot,
};
use lead_chat::proto::{McpServer, SlashCmd};
use lead_chat::rewind::rewind_ordinal;
use lead_chat::rows::{text_row_content, LeadMessage};
use lead_chat::streaming::{merge_init_slash_commands, ThoughtTail, THOUGHT_TAIL_CHARS};

fn test_inner(tool: &str) -> EngineInner {
    EngineInner::fresh(1, None, tool)
}

fn doc(text: &str) -> Json {
    Json::parse(text).unwrap()
}

/// A small judge: credentials are told by their path, and the worst target counts.
fn judged(question: &RiskQuestion) -> RiskLevel {
    match question {
        RiskQuestion::Settled(level) => *level,
        RiskQuestion::Worst(signals) => {
            let mut worst = RiskLevel::ReadOnly;
            for s in signals {
                if let RiskSignal::File { path, .. } = s {
                    if path.contains("/.ssh/") {
                        worst = RiskLevel::NetworkOrCredential;
                    }
                }
            }
            worst
        }
    }
}

/// The hole this closes, end to end: a read naming an ordinary file FIRST
/// and a credential second was tiered `ReadOnly` off the first path alone,
/// and `auto_decision` releases a `ReadOnly` ask under a read-only session
/// or issue grant — so the SSH key would have been read with
/// no card ever shown. The tier now comes from the worst target.
#[test]
fn a_multi_file_read_is_tiered_by_its_worst_target() {
    let ordinary = PermissionIntent::Read {
        paths: vec!["src/main.rs".into()],
    };
    assert_eq!(
        judged(&acp_permission_risk(&ordinary, "")),
        RiskLevel::ReadOnly,
        "an ordinary read is still releasable by a read-only grant"
    );

    let with_secret = PermissionIntent::Read {
        paths: vec!["src/main.rs".into(), "/home/u/.ssh/id_rsa".into()],
    };
    assert_eq!(
        judged(&acp_permission_risk(&with_secret, "")),
        RiskLevel::NetworkOrCredential,
        "a credential anywhere in the set must lift the whole request"
    );
}

/// The two pathless cases differ, and the difference is the whole point.
/// A write with no named target is still a write. A READ with no named
/// target established nothing — `classify_file("Read", "")` says
/// `ReadOnly`, which a read-only grant releases with no card, so a sparse
/// request hiding its target in `title`/`content` could read a credential
/// unseen.
#[test]
fn a_pathless_read_is_unknown_while_a_pathless_write_stays_write() {
    assert_eq!(
        judged(&acp_permission_risk(&PermissionIntent::Write { paths: Vec::new() }, "")),
        RiskLevel::Write
    );
    assert_eq!(
        judged(&acp_permission_risk(&PermissionIntent::Read { paths: Vec::new() }, "")),
        RiskLevel::Unknown,
        "an unauditable read must not be auto-released as read-only"
    );
}

/// An image-only message is addressable in ACP and not in the resident dialect, and the
/// rewind path has exactly one place that decides which rule applies.
#[test]
fn the_rewind_ordinal_rule_follows_the_dialect() {
    let texts = vec!["hello".to_string(), String::new()];

    assert_eq!(
        rewind_ordinal("omp", &texts, ""),
        1,
        "ACP writes an empty text block, so the image-only prompt is addressable"
    );
    assert_eq!(
        rewind_ordinal("resident", &texts, ""),
        0,
        "resident's transcript has no line to match, so refuse rather than mis-cut"
    );

    // Ordinary text targets are unaffected by the dialect.
    for tool in ["omp", "resident", "opencode", "codex"] {
        assert_eq!(rewind_ordinal(tool, &texts, "hello"), 1, "{tool}");
    }
}

/// The chip shows a tail, so the buffer holds a tail — a turn that reasons
/// for a megabyte must not park a megabyte on the consumer task.
#[test]
fn thought_tail_stays_bounded_across_a_long_reasoning_stream() {
    let mut tail = ThoughtTail::default();
    for _ in 0..1000 {
        tail.push(&"x".repeat(500));
    }

    assert_eq!(
        tail.buf.chars().count(),
        THOUGHT_TAIL_CHARS,
        "buffer must hold the display window, not the whole trace"
    );
    let summary = tail.summary();
    assert!(summary.starts_with('…'), "elided tail keeps its ellipsis");
    assert_eq!(summary.chars().count(), THOUGHT_TAIL_CHARS + 1);
}

/// Trimming happens on char boundaries: a tail cut mid-codepoint would
/// panic on `drain`, and the reasoning stream is routinely non-ASCII.
#[test]
fn thought_tail_trims_on_character_boundaries() {
    let mut tail = ThoughtTail::default();
    tail.push(&"思".repeat(THOUGHT_TAIL_CHARS + 40));

    assert_eq!(tail.buf.chars().count(), THOUGHT_TAIL_CHARS);
    assert!(tail.buf.chars().all(|c| c == '思'));
}

/// Short reasoning is shown whole — no ellipsis implying dropped text that
/// was never dropped — and a cleared tail starts clean again.
#[test]
fn thought_tail_under_the_window_is_verbatim_and_clears() {
    let mut tail = ThoughtTail::default();
    tail.push("planning the edit");
    assert_eq!(tail.summary(), "planning the edit");

    tail.push(&"y".repeat(THOUGHT_TAIL_CHARS));
    assert!(tail.summary().starts_with('…'));

    tail.clear();
    tail.push("second turn");
    assert_eq!(
        tail.summary(),
        "second turn",
        "clear must drop the elision flag with the text"
    );
}

/// A snapshot as stored text.
fn stored_text(m: &PersistedMeta) -> String {
    let servers: Vec<BTreeMap<&str, &str>> = m
        .mcp_servers
        .iter()
        .map(|s| BTreeMap::from([("name", s.name.as_str()), ("status", s.status.as_str())]))
        .collect();
    let mut doc = serde_json::Map::new();
    let mut put = |key: &str, value: serde_json::Value| doc.insert(key.to_string(), value);
    put("context_tokens", serde_json::to_value(m.context_tokens).unwrap());
    put("window", serde_json::to_value(m.window).unwrap());
    put("model", serde_json::to_value(&m.model).unwrap());
    put("reasoning_effort", serde_json::to_value(&m.reasoning_effort).unwrap());
    put("mcp_servers", serde_json::to_value(servers).unwrap());
    put("tools", serde_json::to_value(&m.tools).unwrap());
    serde_json::Value::Object(doc).to_string()
}

/// The snapshot in a stored text, if it holds one; lists that are left out are empty.
fn read_stored(text: &str) -> Option<PersistedMeta> {
    let doc: serde_json::Value = serde_json::from_str(text).ok()?;
    let part = |key: &str| doc.get(key).cloned().unwrap_or_default();
    let list = |key: &str| match doc.get(key) {
        Some(v) => v.clone(),
        None => serde_json::Value::Array(vec![]),
    };
    let servers: Vec<BTreeMap<String, String>> = serde_json::from_value(list("mcp_servers")).ok()?;
    Some(PersistedMeta {
        context_tokens: serde_json::from_value(part("context_tokens")).ok()?,
        window: serde_json::from_value(part("window")).ok()?,
        model: serde_json::from_value(part("model")).ok()?,
        reasoning_effort: serde_json::from_value(part("reasoning_effort")).ok()?,
        mcp_servers: servers
            .into_iter()
            .map(|s| McpServer { name: s["name"].clone(), status: s["status"].clone() })
            .collect(),
        tools: serde_json::from_value(list("tools")).ok()?,
    })
}

/// PersistedMeta roundtrip + tolerance: apply restores every last_* field,
/// while empty/corrupt JSON leaves the fresh engine untouched.
#[test]
fn persisted_meta_roundtrip_and_tolerance() {
    let snap = PersistedMeta {
        context_tokens: Some(57_000),
        window: Some(200_000),
        model: Some("model-s".into()),
        reasoning_effort: None,
        mcp_servers: vec![McpServer {
            name: "context7".into(),
            status: "connected".into(),
        }],
        tools: vec!["mcp__context7__query-docs".into()],
    };
    let json = stored_text(&snap);

    let mut inner = test_inner("resident");
    apply_persisted_meta(&mut inner, read_stored(&json));
    assert_eq!(inner.last_context_tokens, Some(57_000));
    assert_eq!(inner.last_window, Some(200_000));
    assert_eq!(inner.last_model.as_deref(), Some("model-s"));
    assert_eq!(inner.last_mcp_servers.len(), 1);
    assert_eq!(inner.last_tools.len(), 1);

    // Empty and corrupt snapshots are silent no-ops.
    let mut fresh = test_inner("resident");
    apply_persisted_meta(&mut fresh, read_stored(""));
    apply_persisted_meta(&mut fresh, read_stored("{not json"));
    assert_eq!(fresh.last_context_tokens, None);
    assert!(fresh.last_mcp_servers.is_empty());

    // Old snapshots missing optional arrays still deserialize (serde defaults).
    let mut sparse = test_inner("resident");
    apply_persisted_meta(
        &mut sparse,
        read_stored(r#"{"context_tokens":1,"window":2,"model":null}"#),
    );
    assert_eq!(sparse.last_context_tokens, Some(1));
    assert!(sparse.last_tools.is_empty());
}

/// merge_probe semantics: the freshest result may overwrite (usage only on
/// probe-sourced transports); a stale result degrades to fill-a-hole for
/// EVERY field — including MCP, so a late non-empty list can't resurrect
/// servers a newer authoritative empty probe just cleared.
#[test]
fn merge_probe_usage_gate() {
    let mcp = |names: &[&str]| {
        names
            .iter()
            .map(|n| McpServer {
                name: (*n).into(),
                status: "connected".into(),
            })
            .collect::<Vec<_>>()
    };
    let snap = SessionMetaSnapshot {
        context_tokens: Some(999),
        window: Some(200_000),
        model: Some("gpt-5.6-sol".into()),
        mcp_servers: Some(mcp(&["old-server"])),
    };
    // Freshest + usage-from-events (the resident dialect/codex): usage fills a hole only.
    let mut hole = PersistedMeta::default();
    assert!(hole.merge_probe(&snap, true, true));
    assert_eq!(hole.context_tokens, Some(999));
    let mut known = PersistedMeta {
        context_tokens: Some(57_000),
        ..Default::default()
    };
    known.merge_probe(&snap, true, true);
    assert_eq!(
        known.context_tokens,
        Some(57_000),
        "eventful usage must not be overwritten"
    );
    assert_eq!(
        known.model.as_deref(),
        Some("gpt-5.6-sol"),
        "config updates when freshest"
    );
    // Freshest + probe-sourced usage (opencode): overwrites.
    let mut live = PersistedMeta {
        context_tokens: Some(57_000),
        ..Default::default()
    };
    assert!(live.merge_probe(&snap, true, false));
    assert_eq!(live.context_tokens, Some(999));
    // Stale: every field is fill-only — an authoritative empty MCP list
    // (user removed servers) survives a late non-empty result.
    let mut cleared = PersistedMeta {
        context_tokens: Some(57_000),
        window: Some(100_000),
        model: Some("kept".into()),
        reasoning_effort: None,
        mcp_servers: vec![],
        tools: vec![],
    };
    cleared.merge_probe(&snap, false, false);
    assert_eq!(cleared.context_tokens, Some(57_000));
    assert_eq!(cleared.model.as_deref(), Some("kept"));
    assert_eq!(cleared.window, Some(100_000));
    // MCP never moves on a stale result — an empty list may be a newer
    // probe's authoritative "user removed every server", so even a fill
    // would resurrect them.
    assert!(cleared.mcp_servers.is_empty(), "stale must not touch MCP");
    let mut populated = PersistedMeta {
        mcp_servers: mcp(&["new-server"]),
        ..Default::default()
    };
    populated.merge_probe(&snap, false, false);
    assert_eq!(populated.mcp_servers[0].name, "new-server");
    // Transport mapping.
    assert!(usage_events_authoritative("resident"));
    assert!(usage_events_authoritative("codex"));
    assert!(!usage_events_authoritative("opencode"));
}

#[test]
fn structured_codex_exhaustion_snapshot_is_global_but_codex_only() {
    let previous = QuotaSnapshot {
        tool: "codex".to_string(),
        status: QuotaStatus::Warning,
        used_percent: Some(93),
        resets_at: Some(1_700_003_600),
        window_label: Some("primary".to_string()),
        observed_at: 1_700_000_000,
    };
    let snapshot = structured_codex_exhaustion_snapshot("codex", Some(&previous), 1_700_000_000).unwrap();
    assert_eq!(snapshot.tool, "codex");
    assert_eq!(snapshot.status, QuotaStatus::Exceeded);
    assert_eq!(snapshot.used_percent, Some(93));
    assert_eq!(snapshot.resets_at, previous.resets_at);
    assert_eq!(snapshot.window_label.as_deref(), Some("primary"));
    let empty = structured_codex_exhaustion_snapshot("codex", None, 1_700_000_000).unwrap();
    assert_eq!(empty.used_percent, None);
    assert_eq!(empty.resets_at, None);
    assert_eq!(empty.window_label, None);
    assert!(structured_codex_exhaustion_snapshot("resident", None, 1_700_000_000).is_none());
    assert!(structured_codex_exhaustion_snapshot("opencode", None, 1_700_000_000).is_none());
}

fn text_msg(role: &str, text: &str) -> LeadMessage {
    text_msg_kind(
        role,
        "text",
        &text_row_content(text, None),
    )
}

fn text_msg_kind(role: &str, kind: &str, content: &str) -> LeadMessage {
    LeadMessage {
        id: 0,
        thread_id: 1,
        session_id: None,
        turn_id: 0,
        role: role.into(),
        kind: kind.into(),
        content: content.into(),
        status: "complete".into(),
        created_at: "0".into(),
        seq: None,
        native_anchor: None,
        consumed_at: None,
    }
}

#[test]
fn switch_digest_empty_history_is_empty() {
    assert_eq!(build_switch_digest("resident", "codex", &[]), "");
    // Only non-text/system rows → still empty, not a digest with nothing in it.
    let rows = vec![text_msg_kind("system", "meta", "{}")];
    assert_eq!(build_switch_digest("resident", "codex", &rows), "");
}

#[test]
fn switch_digest_carries_prior_turns_and_names_the_switch() {
    let rows = vec![
        text_msg("user", "please add login"),
        text_msg("assistant", "sure, starting now"),
    ];
    let d = build_switch_digest("resident", "codex", &rows);
    assert!(d.contains("resident → codex"), "names old and new tool: {d}");
    assert!(d.contains("User: please add login"));
    assert!(d.contains("Assistant: sure, starting now"));
    // Oldest-first: the user's turn precedes the assistant's in the digest.
    assert!(d.find("User: please add login") < d.find("Assistant: sure, starting now"));
}

#[test]
fn switch_digest_same_tool_reads_as_reload_not_switch() {
    let rows = vec![text_msg("user", "hi")];
    let d = build_switch_digest("resident", "resident", &rows);
    assert!(d.contains("reloaded"), "same tool → reload phrasing: {d}");
    assert!(
        !d.contains("→"),
        "no switch arrow when the tool didn't change: {d}"
    );
}

#[test]
fn switch_digest_skips_non_text_and_empty_rows() {
    let rows = vec![
        text_msg("user", "  "), // blank text after trim → skipped
        text_msg_kind("assistant", "tool", r#"{"name":"Bash","summary":"ls"}"#),
        text_msg("assistant", "here is the plan"),
    ];
    let d = build_switch_digest("resident", "codex", &rows);
    assert!(d.contains("here is the plan"));
    assert!(
        !d.contains("Bash"),
        "tool-kind rows are not part of the conversational digest"
    );
}

#[test]
fn switch_digest_caps_turn_count_and_marks_omission() {
    let rows: Vec<_> = (0..20)
        .map(|i| text_msg("user", &format!("turn {i}")))
        .collect();
    let d = build_switch_digest("resident", "resident", &rows);
    assert!(d.contains("turn 19"), "keeps the most recent turns: {d}");
    assert!(
        !d.contains("turn 0\n"),
        "drops the oldest turns beyond the cap: {d}"
    );
    assert!(
        d.contains("earlier turn(s) omitted"),
        "says something was cut: {d}"
    );
}

#[test]
fn switch_digest_caps_per_message_length() {
    let long = "x".repeat(2000);
    let rows = vec![text_msg("user", &long)];
    let d = build_switch_digest("resident", "codex", &rows);
    assert!(
        d.len() < long.len(),
        "a single huge message must be truncated: {}",
        d.len()
    );
    assert!(d.contains('…'));
}

#[test]
fn truncate_chars_is_utf8_safe_and_idempotent_under_the_limit() {
    assert_eq!(truncate_chars("hello", 10), "hello");
    assert_eq!(truncate_chars("hello", 5), "hello");
    // Multi-byte chars: must count chars, not bytes (would panic/mis-slice on bytes).
    let s = "你好世界你好世界"; // 8 chars
    assert_eq!(truncate_chars(s, 4).chars().count(), 5); // 4 + '…'
    assert!(truncate_chars(s, 4).starts_with("你好世界"));
}

#[test]
fn initialize_metadata_survives_later_bare_init_list() {
    let rich = vec![SlashCmd {
        name: "compact".into(),
        description: Some("Summarize context".into()),
        arg_hint: None,
    }];
    let bare = vec![SlashCmd::bare("compact")];

    let merged = merge_init_slash_commands(&rich, bare);

    assert_eq!(merged, rich);
}

#[test]
fn initialize_merge_adds_new_dynamic_commands() {
    let existing = vec![SlashCmd {
        name: "compact".into(),
        description: Some("Summarize context".into()),
        arg_hint: None,
    }];
    let init = vec![
        SlashCmd::bare("compact"),
        SlashCmd {
            name: "superpowers:requesting-code-review".into(),
            description: Some("Review current work".into()),
            arg_hint: None,
        },
    ];

    let merged = merge_init_slash_commands(&existing, init);

    assert_eq!(merged.len(), 2);
    assert_eq!(merged[0], existing[0]);
    assert_eq!(merged[1].name, "superpowers:requesting-code-review");
}

#[test]
fn codex_change_approval_summary_is_path_specific() {
    // distinct edits get distinct summaries → distinct AskRegistry Always keys.
    let a = codex_change_approval_summary(&doc(r#"{
        "changes": [{"path": "src/a.rs", "kind": {"type": "edit"}}]
    }"#));
    let b = codex_change_approval_summary(&doc(r#"{
        "item": {"changes": [{"path": "src/b.rs"}]}
    }"#));
    assert_eq!(a.0, "apply file changes: src/a.rs");
    assert_eq!(b.0, "apply file changes: src/b.rs");
    assert_ne!(a.0, b.0);
    assert_eq!(a.1, r#"["src/a.rs"]"#);
    // >3 paths are capped with a +N suffix in the DISPLAY summary...
    let many = codex_change_approval_summary(&doc(r#"{
        "changes": [{"path":"1"},{"path":"2"},{"path":"3"},{"path":"4"},{"path":"5"}]
    }"#));
    assert_eq!(many.0, "apply file changes: 1, 2, 3 +2");
    // ...but the FULL path list (used for the action key) keeps every path.
    assert_eq!(many.1, r#"["1","2","3","4","5"]"#);
    // no paths → the generic label (still answerable, just not Always-specific).
    assert_eq!(
        codex_change_approval_summary(&doc(r#"{}"#)),
        ("apply file changes".to_string(), String::new())
    );
}

/// The Codex ">3-path edit" acceptance case: two DIFFERENT >3-path
/// edits can share the SAME capped display summary (first 3 + count), so the
/// action_key must be built from the full path list, not the summary.
#[test]
fn codex_change_approval_full_paths_disambiguate_beyond_the_take3_cap() {
    let a = codex_change_approval_summary(&doc(r#"{
        "changes": [{"path":"1"},{"path":"2"},{"path":"3"},{"path":"4"}]
    }"#));
    let b = codex_change_approval_summary(&doc(r#"{
        "changes": [{"path":"1"},{"path":"2"},{"path":"3"},{"path":"5"}]
    }"#));
    assert_eq!(
        a.0, b.0,
        "both display as \"apply file changes: 1, 2, 3 +1\""
    );
    // ...but the full (untruncated) list disambiguates them.
    assert_ne!(a.1, b.1);
}
