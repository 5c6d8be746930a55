//! Rows of tool calls, directives and closing texts; what is known of a session.

use lead_chat::decimal::{parse_i32, signed_text};
use lead_chat::engine::EngineInner;
use lead_chat::json::Json;
use lead_chat::meta::{
    absorb_probe_meta, apply_persisted_meta, engine_meta, merge_stored_meta, take_probe_ticket,
    SessionMetaSnapshot,
};
use lead_chat::proto::{
    cap_output, context_tokens, McpServer, ToolCall, ToolResultItem, MAX_TOOL_CHARS,
};
use lead_chat::rewind::session_rewound;
use lead_chat::rows::{
    card_row, close_streamed_row, close_text_row, list_repos_reply, merge_tool_results, plan_tool_row,
    remember_tool_row, sentinel_action, text_row_content, RepoRef, Sentinel, SentinelAction,
};

fn test_inner(tool: &str) -> EngineInner {
    EngineInner::fresh(1, None, tool)
}

fn call(id: &str, output: Option<&str>) -> ToolCall {
    ToolCall {
        id: id.into(),
        name: "Bash".into(),
        input: Json::parse(r#"{"command":"ls"}"#).unwrap(),
        summary: "ls".into(),
        output: output.map(String::from),
        is_error: false,
        collab_threads: vec![],
    }
}

#[test]
fn a_tool_row_waits_for_its_result_by_id() {
    let mut inner = test_inner("codex");
    let running = call("t1", None);
    let plan = plan_tool_row(&running, None);
    assert!(plan.trackable);
    assert_eq!(plan.status, "streaming");
    let keys: Vec<&str> = ["name", "summary"].into();
    for k in keys {
        assert!(plan.content.get(k).is_some(), "{k}");
    }
    remember_tool_row(&mut inner, &running, 8, plan);
    let done = call("t2", Some("x"));
    let plan = plan_tool_row(&done, None);
    assert!(!plan.trackable);
    assert_eq!(plan.status, "complete");
    remember_tool_row(&mut inner, &done, 9, plan);
    assert!(inner.tool_rows.contains_key("t1") && !inner.tool_rows.contains_key("t2"));

    let result = |id: &str, is_error| ToolResultItem {
        id: id.into(),
        output: "out".into(),
        is_error,
        collab_threads: vec![],
    };
    let updates = merge_tool_results(&mut inner, &vec![result("nobody", false), result("t1", true)]);
    assert_eq!((updates.len(), updates[0].row, updates[0].status.as_str()), (1, 8, "error"));
    let content = Json::parse(&updates[0].content).unwrap();
    assert_eq!(content.str_at("output"), Some("out"));
    assert_eq!(content.str_at("name"), Some("Bash"), "what the row said stays");
    assert!(!inner.tool_rows.contains_key("t1"));
}

#[test]
fn directives_become_rows_or_nothing() {
    let mut inner = test_inner("codex");
    inner.clock.begin_turn(77);
    assert!(matches!(
        sentinel_action(&inner, &Sentinel::PlanCard(r#"{"a":1}"#.into())),
        SentinelAction::InsertCard { kind: "plan_card", payload } if payload == r#"{"a":1}"#
    ));
    assert!(matches!(
        sentinel_action(&inner, &Sentinel::ActionCard("{}".into())),
        SentinelAction::InsertCard { kind: "action_card", .. }
    ));
    assert!(matches!(card_row("plan_card", "[1]"), SentinelAction::Drop));
    assert!(matches!(card_row("plan_card", "{"), SentinelAction::Drop));
    let cases = Sentinel::TestCases("  body ".into());
    assert!(matches!(
        sentinel_action(&inner, &cases),
        SentinelAction::UpsertTestCases { body, since: 77 } if body == "body"
    ));
    assert!(matches!(
        sentinel_action(&inner, &Sentinel::TestCases("  ".into())),
        SentinelAction::Drop
    ));
    inner.session_id = Some(3);
    assert!(matches!(sentinel_action(&inner, &cases), SentinelAction::Drop), "the lead's alone");
    assert!(matches!(
        sentinel_action(&inner, &Sentinel::ListRepos),
        SentinelAction::AnswerRepos
    ));
    let repo = RepoRef {
        id: 2,
        name: "n".into(),
        slug: "s".into(),
        local_git_path: "/p".into(),
        base_ref: "main".into(),
    };
    assert_eq!(
        list_repos_reply(&vec![repo]),
        r#"<weft:list_repos_result>{"repos":[{"base_ref":"main","id":2,"local_git_path":"/p","name":"n","slug":"s"}]}</weft:list_repos_result>"#
    );
}

#[test]
fn a_text_row_closes() {
    let mut inner = test_inner("codex");
    let closed = close_text_row(&mut inner, "raw <x>", "raw", "error", false, None);
    assert_eq!(closed.content, r#"{"text":"raw <x>"}"#, "only a clean finish is cleaned");
    assert!(closed.shown.is_none() && closed.out.is_none());
    assert!(!inner.turn_saw_text);
    let closed = close_text_row(&mut inner, "raw <x>", " raw ", "complete", false, Some("sub"));
    assert_eq!(closed.content, r#"{"agentThread":"sub","text":" raw "}"#);
    assert_eq!(closed.shown.as_deref(), Some(" raw "));
    assert_eq!(closed.out.as_deref(), Some("raw"));
    assert!(inner.turn_saw_text);
    let closed = close_text_row(&mut inner, "same", "same", "complete", true, None);
    assert_eq!(closed.shown.as_deref(), Some("same"), "the live view has something else");
}

#[test]
fn text_rows_read_back() {
    for text in ["", "plain", "quote \" and \\ and \n", "漢字 🦀"] {
        let doc = Json::parse(&text_row_content(text, Some("sub"))).unwrap();
        assert_eq!(doc.str_at("text"), Some(text));
        assert_eq!(doc.str_at("agentThread"), Some("sub"));
    }
}

fn probe(tokens: Option<u64>, model: Option<&str>) -> SessionMetaSnapshot {
    SessionMetaSnapshot {
        context_tokens: tokens,
        window: None,
        model: model.map(String::from),
        mcp_servers: None,
    }
}

#[test]
fn a_slow_probe_rolls_nothing_back() {
    let mut inner = test_inner("opencode");
    let first = take_probe_ticket(&mut inner);
    let second = take_probe_ticket(&mut inner);
    assert_eq!((first, second), (1, 2));
    assert!(absorb_probe_meta(&mut inner, Some(second), &probe(Some(20), Some("new"))));
    assert!(!absorb_probe_meta(&mut inner, Some(first), &probe(Some(10), Some("old"))));
    assert_eq!(inner.last_model.as_deref(), Some("new"));
    assert_eq!(inner.last_context_tokens, Some(20));
    assert!(!absorb_probe_meta(&mut inner, Some(3), &probe(None, None)), "a failed probe");
    assert_eq!(inner.last_model.as_deref(), Some("new"));
}

#[test]
fn what_is_known_reads_back() {
    let mut inner = test_inner("codex");
    inner.last_context_tokens = Some(5);
    inner.last_model = Some("m \"x\"".into());
    inner.last_mcp_servers = vec![McpServer { name: "bus".into(), status: "connected".into() }];
    inner.last_tools = vec!["Bash".into()];
    let mut other = test_inner("codex");
    other.turn_id = 7;
    apply_persisted_meta(&mut other, Some(engine_meta(&inner)));
    assert_eq!(other.last_context_tokens, Some(5));
    assert_eq!(other.last_model.as_deref(), Some("m \"x\""));
    assert_eq!(other.last_mcp_servers[0].name, "bus");
    assert_eq!(other.last_tools, vec!["Bash".to_string()]);
    assert_eq!(other.turn_id, 7);
    apply_persisted_meta(&mut other, None);
    assert_eq!(other.last_context_tokens, Some(5));
    let known = || Some(engine_meta(&inner));
    assert!(merge_stored_meta(known(), "codex", &probe(None, None)).is_none());
    let newer = merge_stored_meta(known(), "codex", &probe(Some(9), Some("m2"))).unwrap();
    assert_eq!(newer.model.as_deref(), Some("m2"));
    assert_eq!(newer.context_tokens, Some(5), "its events report the usage");
    assert_eq!(newer.tools, vec!["Bash".to_string()]);
    let first = merge_stored_meta(None, "codex", &probe(None, Some("m2"))).unwrap();
    assert_eq!(first.model.as_deref(), Some("m2"));
    assert_eq!(first.context_tokens, None);
    assert!(merge_stored_meta(None, "codex", &probe(None, None)).is_none());
    session_rewound(&mut other, Some("fork".into()));
    assert_eq!(other.native_id.as_deref(), Some("fork"));
}

#[test]
fn numbers_and_caps() {
    for n in [0i64, -1, 7, i32::MAX as i64, i32::MIN as i64] {
        assert_eq!(parse_i32(&signed_text(n)), Some(n as i32));
    }
    for s in ["", "-", "x", "2147483648", "1 "] {
        assert_eq!(parse_i32(s), None, "{s}");
    }
    let usage = Json::parse(
        r#"{"input_tokens":1,"cache_read_input_tokens":2,"cache_creation_input_tokens":4,"output_tokens":100}"#,
    )
    .unwrap();
    assert_eq!(context_tokens(Some(&usage)), Some(7));
    assert_eq!(context_tokens(None), None);
    let exact = "é".repeat(MAX_TOOL_CHARS);
    assert_eq!(cap_output(exact.clone()), exact);
    let long = "é".repeat(2 * MAX_TOOL_CHARS);
    assert!(cap_output(long.clone()).len() < long.len());
    assert!(cap_output(long.clone()).starts_with(&exact));
    assert_eq!(cap_output("short".into()), "short");
}

#[test]
fn a_streamed_row_closes_as_it_stands() {
    let done = close_streamed_row("  all done \n", "complete");
    assert_eq!(Json::parse(&done.content), Json::parse(r#"{"text":"  all done \n"}"#));
    assert_eq!(done.shown, None);
    assert_eq!(done.out.as_deref(), Some("all done"));
    assert_eq!(close_streamed_row("cut", "interrupted").out, None);
    assert_eq!(close_streamed_row(" \n", "complete").out, None);
}

#[test]
fn numbers_that_are_no_integers_are_carried_along() {
    let doc = Json::parse(r#"{"a":[1.5,-2,18446744073709551615,true,null]}"#).unwrap();
    let text = r#"{"a":[1.5,-2,18446744073709551615,true,null]}"#;
    assert_eq!(doc.print(), text);
    assert_eq!(doc.clone().print(), text);
    assert_eq!(doc.copy(), doc);
    let items = doc.arr_at("a").unwrap();
    assert_eq!((items[0].as_u64(), items[0].as_i64()), (None, None));
    assert_eq!(items[1].as_i64(), Some(-2));
    assert_eq!(items[2].as_u64(), Some(u64::MAX));
    let twice = call("t1", None).clone();
    assert_eq!(twice.input.str_at("command"), Some("ls"));
}
