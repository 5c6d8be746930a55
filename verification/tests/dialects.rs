//! The wire dialects, line by line.

use lead_chat::json::Json;
use lead_chat::proto::{
    error_text_from_item, extract_native, humanize_error_text, parse_line, parse_line_for,
    try_parse_line, try_parse_line_for, ChatEvent, McpServer, SlashCmd,
};

/// codex passes the provider's raw API error JSON through as the item
/// message — sometimes several objects concatenated after retries. The
/// human message is dug out; plain text and unrecognizable JSON pass
/// through unchanged.
#[test]
fn humanize_error_digs_message_out_of_raw_provider_json() {
    // The real payload observed in the smoke session (doubled by a retry).
    let raw = r#"{"type":"error","status":400,"error":{"type":"invalid_request_error","message":"The 'gpt-5.6-sol' model requires a newer version of Codex. Please upgrade to the latest app or CLI and try again."}}{"type":"error","status":400,"error":{"type":"invalid_request_error","message":"The 'gpt-5.6-sol' model requires a newer version of Codex. Please upgrade to the latest app or CLI and try again."}}"#;
    assert_eq!(
        humanize_error_text(raw),
        "The 'gpt-5.6-sol' model requires a newer version of Codex. Please upgrade to the latest app or CLI and try again."
    );
    // Flat {"message": …} shape.
    assert_eq!(humanize_error_text(r#"{"message":"rate limited"}"#), "rate limited");
    // String-typed error field.
    assert_eq!(humanize_error_text(r#"{"error":"boom"}"#), "boom");
    // Plain text passes through.
    assert_eq!(humanize_error_text("  context window exceeded  "), "context window exceeded");
    // JSON without a recognizable message stays raw (better raw than blank).
    assert_eq!(humanize_error_text(r#"{"code":500}"#), r#"{"code":500}"#);
    // Malformed JSON stays raw.
    assert_eq!(humanize_error_text("{oops"), "{oops");
    // error_text_from_item routes through the same digger.
    let item = Json::parse(r#"{"type":"error","message":"{\"error\":{\"message\":\"nested\"}}"}"#)
        .unwrap();
    assert_eq!(error_text_from_item(&item), "nested");
}

#[test]
fn parses_init() {
    let l = r#"{"type":"system","subtype":"init","session_id":"abc-123","slash_commands":["compact","commit"]}"#;
    match parse_line(l) {
        ChatEvent::Init {
            session_id,
            slash_commands,
            ..
        } => {
            assert_eq!(session_id, "abc-123");
            assert_eq!(
                slash_commands,
                vec![SlashCmd::bare("compact"), SlashCmd::bare("commit")]
            );
        }
        e => panic!("{e:?}"),
    }
}

#[test]
fn parses_init_mcp_tools_model() {
    // The shape of a real init line.
    let l = r#"{"type":"system","subtype":"init","session_id":"s1","model":"model-o[1m]","slash_commands":["compact"],"tools":["Bash","mcp__codegraph__codegraph_search"],"mcp_servers":[{"name":"codegraph","status":"connected"},{"name":"tauri","status":"pending"}]}"#;
    match parse_line(l) {
        ChatEvent::Init {
            mcp_servers,
            tools,
            model,
            ..
        } => {
            assert_eq!(model.as_deref(), Some("model-o[1m]"));
            assert_eq!(tools, vec!["Bash", "mcp__codegraph__codegraph_search"]);
            assert_eq!(
                mcp_servers,
                vec![
                    McpServer { name: "codegraph".into(), status: "connected".into() },
                    McpServer { name: "tauri".into(), status: "pending".into() },
                ]
            );
        }
        e => panic!("{e:?}"),
    }
}

#[test]
fn parses_result_usage_context_tokens() {
    let l = r#"{"type":"result","subtype":"success","is_error":false,"usage":{"input_tokens":8684,"cache_creation_input_tokens":22127,"cache_read_input_tokens":0,"output_tokens":4}}"#;
    match parse_line(l) {
        ChatEvent::TurnEnd { is_error, context_tokens } => {
            assert!(!is_error);
            assert_eq!(context_tokens, Some(8684 + 22127));
        }
        e => panic!("{e:?}"),
    }
}

#[test]
fn result_without_usage_has_none_tokens() {
    let l = r#"{"type":"result","subtype":"success","is_error":false}"#;
    assert!(matches!(
        parse_line(l),
        ChatEvent::TurnEnd { context_tokens: None, .. }
    ));
}

#[test]
fn parses_text_delta() {
    let l = r#"{"type":"stream_event","event":{"type":"content_block_delta","index":1,"delta":{"type":"text_delta","text":"He"}}}"#;
    assert!(matches!(parse_line(l), ChatEvent::TextDelta { text, .. } if text == "He"));
}

#[test]
fn ignores_signature_and_thinking_deltas() {
    let l = r#"{"type":"stream_event","event":{"type":"content_block_delta","delta":{"type":"signature_delta","signature":"xx"}}}"#;
    assert!(matches!(parse_line(l), ChatEvent::Other));
    let l2 = r#"{"type":"stream_event","event":{"type":"content_block_start","content_block":{"type":"thinking"}}}"#;
    assert!(matches!(parse_line(l2), ChatEvent::Other));
}

#[test]
fn empty_tool_input_yields_blank_summary() {
    let l = r#"{"type":"assistant","message":{"content":[{"type":"tool_use","name":"mcp__weft_planner__get_task","input":{}}]}}"#;
    match parse_line(l) {
        ChatEvent::Assistant { tools, .. } => {
            assert_eq!(tools[0].name, "mcp__weft_planner__get_task");
            assert_eq!(tools[0].summary, "");
        }
        e => panic!("{e:?}"),
    }
}

#[test]
fn parses_assistant_blocks() {
    let l = r#"{"type":"assistant","uuid":"u-1","message":{"content":[{"type":"text","text":"done"},{"type":"tool_use","id":"toolu_1","name":"Read","input":{"file_path":"/a/b.rs"}}]}}"#;
    match parse_line(l) {
        ChatEvent::Assistant { texts, tools, uuid, .. } => {
            assert_eq!(texts, vec!["done"]);
            assert_eq!(tools[0].id, "toolu_1");
            assert_eq!(tools[0].name, "Read");
            assert!(tools[0].summary.contains("b.rs"));
            // full input is kept for the expandable row, not just the summary
            assert_eq!(tools[0].input.str_at("file_path"), Some("/a/b.rs"));
            assert!(tools[0].output.is_none());
            // transcript uuid rides along as the rewind anchor
            assert_eq!(uuid.as_deref(), Some("u-1"));
        }
        e => panic!("{e:?}"),
    }
}

#[test]
fn parses_resident_tool_result() {
    // string content
    let l = r#"{"type":"user","message":{"content":[{"type":"tool_result","tool_use_id":"toolu_1","content":"hello\nworld","is_error":false}]}}"#;
    match parse_line(l) {
        ChatEvent::ToolResults { items } => {
            assert_eq!(items[0].id, "toolu_1");
            assert_eq!(items[0].output, "hello\nworld");
            assert!(!items[0].is_error);
        }
        e => panic!("{e:?}"),
    }
    // array-of-blocks content + error flag
    let l2 = r#"{"type":"user","message":{"content":[{"type":"tool_result","tool_use_id":"toolu_2","content":[{"type":"text","text":"boom"}],"is_error":true}]}}"#;
    match parse_line(l2) {
        ChatEvent::ToolResults { items } => {
            assert_eq!(items[0].id, "toolu_2");
            assert_eq!(items[0].output, "boom");
            assert!(items[0].is_error);
        }
        e => panic!("{e:?}"),
    }
    // a plain user text turn (no tool_result) is not a ToolResults event
    let l3 = r#"{"type":"user","message":{"content":[{"type":"text","text":"hi"}]}}"#;
    assert!(matches!(parse_line(l3), ChatEvent::Other));
}

#[test]
fn caps_huge_tool_output() {
    let big = "x".repeat(20_000);
    let line = format!(
        r#"{{"type":"user","message":{{"content":[{{"type":"tool_result","tool_use_id":"t","content":"{big}"}}]}}}}"#
    );
    match parse_line(&line) {
        ChatEvent::ToolResults { items } => {
            assert!(items[0].output.chars().count() < 20_000);
            assert!(items[0].output.ends_with("(truncated)"));
        }
        e => panic!("{e:?}"),
    }
}

#[test]
fn caps_huge_tool_input() {
    let big = "x".repeat(20_000);
    let line = format!(
        r#"{{"type":"assistant","message":{{"content":[{{"type":"tool_use","id":"t","name":"Write","input":{{"content":"{big}"}}}}]}}}}"#
    );
    match parse_line(&line) {
        ChatEvent::Assistant { tools, .. } => {
            // a huge object input collapses to a single truncated string
            let s = tools[0].input.as_str().expect("capped input is a string");
            assert!(s.chars().count() < 20_000);
            assert!(s.ends_with("(truncated)"));
        }
        e => panic!("{e:?}"),
    }
}

#[test]
fn thinking_only_assistant_is_empty() {
    let l = r#"{"type":"assistant","message":{"content":[{"type":"thinking","thinking":"...","signature":"s"}]}}"#;
    match parse_line(l) {
        ChatEvent::Assistant { texts, tools, .. } => {
            assert!(texts.is_empty());
            assert!(tools.is_empty());
        }
        e => panic!("{e:?}"),
    }
}

#[test]
fn parses_codex_dialect() {
    assert_eq!(
        extract_native("codex", r#"{"type":"thread.started","thread_id":"abc-1"}"#).as_deref(),
        Some("abc-1")
    );
    match parse_line_for(
        "codex",
        r#"{"type":"item.completed","item":{"id":"i0","type":"agent_message","text":"ok"}}"#,
    ) {
        ChatEvent::Assistant { texts, .. } => assert_eq!(texts, vec!["ok"]),
        e => panic!("{e:?}"),
    }
    // item.started for a tool item → a running row with id + input (shape
    // verified live, codex-cli 0.139.0).
    match parse_line_for(
        "codex",
        r#"{"type":"item.started","item":{"id":"item_1","type":"command_execution","command":"/bin/zsh -lc 'echo hi'","aggregated_output":"","exit_code":null,"status":"in_progress"}}"#,
    ) {
        ChatEvent::Assistant { tools, .. } => {
            assert_eq!(tools[0].name, "command_execution");
            assert_eq!(tools[0].id, "item_1"); // stable id correlates started→completed
            assert_eq!(tools[0].summary, "/bin/zsh -lc 'echo hi'");
            assert_eq!(tools[0].input.str_at("command"), Some("/bin/zsh -lc 'echo hi'"));
            assert!(tools[0].output.is_none()); // running: filled by item.completed
        }
        e => panic!("{e:?}"),
    }
    match parse_line_for(
        "codex",
        r#"{"type":"item.started","item":{"type":"error","message":"unknown slash command"}}"#,
    ) {
        ChatEvent::TextDelta { text, .. } => assert_eq!(text, "unknown slash command"),
        e => panic!("{e:?}"),
    }
    assert!(matches!(
        parse_line_for("codex", r#"{"type":"turn.completed","usage":{}}"#),
        ChatEvent::TurnEnd { is_error: false, context_tokens: None, .. }
    ));
}

#[test]
fn codex_tool_item_completes_into_tool_result() {
    // command_execution completed → ToolResults (stdout + exit_code), keyed by
    // item id (shape verified live, codex-cli 0.139.0).
    match parse_line_for(
        "codex",
        r#"{"type":"item.completed","item":{"id":"item_1","type":"command_execution","command":"/bin/zsh -lc 'echo hi'","aggregated_output":"hi\n","exit_code":0,"status":"completed"}}"#,
    ) {
        ChatEvent::ToolResults { items } => {
            assert_eq!(items[0].id, "item_1");
            assert_eq!(items[0].output, "hi\n");
            assert!(!items[0].is_error);
        }
        e => panic!("{e:?}"),
    }
    // A non-zero exit code marks the result as an error.
    match parse_line_for(
        "codex",
        r#"{"type":"item.completed","item":{"id":"item_2","type":"command_execution","command":"false","aggregated_output":"","exit_code":1,"status":"completed"}}"#,
    ) {
        ChatEvent::ToolResults { items } => {
            assert_eq!(items[0].id, "item_2");
            assert!(items[0].is_error);
        }
        e => panic!("{e:?}"),
    }
    // agent_message still completes as assistant text, not a tool result.
    assert!(matches!(
        parse_line_for(
            "codex",
            r#"{"type":"item.completed","item":{"id":"item_3","type":"agent_message","text":"done"}}"#,
        ),
        ChatEvent::Assistant { .. }
    ));
}

#[test]
fn codex_file_change_item_captures_paths() {
    // file_change has no diff, only `changes:[{path,kind}]`; output lists
    // `kind  path` (shape verified live, codex-cli 0.139.0).
    match parse_line_for(
        "codex",
        r#"{"type":"item.started","item":{"id":"item_3","type":"file_change","changes":[{"path":"/repo/hello.txt","kind":"add"}],"status":"in_progress"}}"#,
    ) {
        ChatEvent::Assistant { tools, .. } => {
            assert_eq!(tools[0].name, "file_change");
            assert_eq!(tools[0].id, "item_3");
            assert_eq!(tools[0].summary, "/repo/hello.txt");
            assert!(tools[0].output.is_none());
        }
        e => panic!("{e:?}"),
    }
    match parse_line_for(
        "codex",
        r#"{"type":"item.completed","item":{"id":"item_3","type":"file_change","changes":[{"path":"/repo/hello.txt","kind":"add"}],"status":"completed"}}"#,
    ) {
        ChatEvent::ToolResults { items } => {
            assert_eq!(items[0].id, "item_3");
            assert_eq!(items[0].output, "add  /repo/hello.txt");
            assert!(!items[0].is_error);
        }
        e => panic!("{e:?}"),
    }
    // A failed file_change (status) is flagged as an error.
    match parse_line_for(
        "codex",
        r#"{"type":"item.completed","item":{"id":"item_4","type":"file_change","changes":[{"path":"/repo/x","kind":"add"}],"status":"failed"}}"#,
    ) {
        ChatEvent::ToolResults { items } => assert!(items[0].is_error),
        e => panic!("{e:?}"),
    }
}

#[test]
fn codex_declined_command_completes_as_error() {
    // A declined/canceled approval completes the item with exit_code:null but
    // never ran — must surface as an error, not a (default) success.
    for status in ["declined", "canceled", "cancelled"] {
        let l = format!(
            r#"{{"type":"item.completed","item":{{"id":"i","type":"command_execution","command":"rm -rf /","aggregated_output":"","exit_code":null,"status":"{status}"}}}}"#
        );
        match parse_line_for("codex", &l) {
            ChatEvent::ToolResults { items } => assert!(items[0].is_error, "{status}"),
            e => panic!("{status}: {e:?}"),
        }
    }
}

#[test]
fn codex_mcp_object_result_is_serialized() {
    // Weft's MCP tools return result objects ({content:[{text}]}); the exec row
    // must render that text (or serialize), not complete with empty output.
    match parse_line_for(
        "codex",
        r#"{"type":"item.completed","item":{"id":"m","type":"mcp_tool_call","tool":"weft_planner__get_task","result":{"content":[{"type":"text","text":"task #3"}]},"status":"completed"}}"#,
    ) {
        ChatEvent::ToolResults { items } => assert_eq!(items[0].output, "task #3"),
        e => panic!("{e:?}"),
    }
    // a non-content object result is serialized rather than dropped.
    match parse_line_for(
        "codex",
        r#"{"type":"item.completed","item":{"id":"m2","type":"mcp_tool_call","tool":"x","result":{"ok":true},"status":"completed"}}"#,
    ) {
        ChatEvent::ToolResults { items } => assert_eq!(items[0].output, r#"{"ok":true}"#),
        e => panic!("{e:?}"),
    }
}

#[test]
fn codex_plan_item_surfaces_its_text() {
    // /plan and /review content items carry text only on completion (no deltas);
    // surface it as assistant text rather than dropping it.
    match parse_line_for(
        "codex",
        r#"{"type":"item.completed","item":{"id":"p","type":"plan","text":"1. do x\n2. do y","status":"completed"}}"#,
    ) {
        ChatEvent::Assistant { texts, tools, .. } => {
            assert_eq!(texts, vec!["1. do x\n2. do y".to_string()]);
            assert!(tools.is_empty());
        }
        e => panic!("{e:?}"),
    }
    // the running half (started) opens no row.
    assert!(matches!(
        parse_line_for(
            "codex",
            r#"{"type":"item.started","item":{"id":"p","type":"plan","status":"in_progress"}}"#,
        ),
        ChatEvent::Other
    ));
}

#[test]
fn codex_ignores_non_tool_items() {
    // plan/review/other content items aren't tool calls — they must not open
    // an empty tool row (started) or a stray result (completed).
    for ty in ["plan", "review", "todo_list", "web_search"] {
        let started = format!(
            r#"{{"type":"item.started","item":{{"id":"x","type":"{ty}","status":"in_progress"}}}}"#
        );
        assert!(
            matches!(parse_line_for("codex", &started), ChatEvent::Other),
            "started {ty}"
        );
        let completed = format!(
            r#"{{"type":"item.completed","item":{{"id":"x","type":"{ty}","status":"completed"}}}}"#
        );
        assert!(
            matches!(parse_line_for("codex", &completed), ChatEvent::Other),
            "completed {ty}"
        );
    }
}

#[test]
fn codex_turn_completed_does_not_report_cumulative_usage_as_context() {
    // exec's input_tokens is cumulative session throughput, not current context
    // (verified live), so we report None rather than a value that climbs to 100%.
    let l = r#"{"type":"turn.completed","usage":{"input_tokens":47163,"cached_input_tokens":27392,"output_tokens":284}}"#;
    match parse_line_for("codex", l) {
        ChatEvent::TurnEnd { context_tokens, is_error } => {
            assert!(!is_error);
            assert_eq!(context_tokens, None);
        }
        e => panic!("{e:?}"),
    }
}

#[test]
fn parses_opencode_dialect() {
    let txt = r#"{"type":"text","sessionID":"ses_1","part":{"type":"text","text":"done"}}"#;
    assert_eq!(extract_native("opencode", txt).as_deref(), Some("ses_1"));
    match parse_line_for("opencode", txt) {
        ChatEvent::Assistant { texts, .. } => assert_eq!(texts, vec!["done"]),
        e => panic!("{e:?}"),
    }
    match parse_line_for(
        "opencode",
        r#"{"type":"tool_use","sessionID":"ses_1","part":{"type":"tool","tool":"bash","state":{"status":"completed","input":{"command":"echo hi"},"output":"hi\n"}}}"#,
    ) {
        ChatEvent::Assistant { tools, .. } => {
            assert_eq!(tools[0].name, "bash");
            assert_eq!(tools[0].summary, "echo hi");
            assert_eq!(tools[0].input.str_at("command"), Some("echo hi"));
            assert_eq!(tools[0].output.as_deref(), Some("hi\n"));
        }
        e => panic!("{e:?}"),
    }
    // running frames carry no result yet and have no stable id to dedupe, so
    // they are skipped — only the completed row lands.
    assert!(matches!(
        parse_line_for(
            "opencode",
            r#"{"type":"tool_use","part":{"type":"tool","tool":"bash","state":{"status":"running","input":{"command":"echo hi"}}}}"#,
        ),
        ChatEvent::Other
    ));
    assert!(matches!(
        parse_line_for("opencode", r#"{"type":"step_start","part":{}}"#),
        ChatEvent::Other
    ));
}

#[test]
fn parses_initialize_commands() {
    let l = r#"{"type":"control_response","response":{"subtype":"success","request_id":"weft-init","response":{"commands":[{"name":"compact","description":"x"},{"name":"superpowers:requesting-code-review"}]}}}"#;
    match parse_line(l) {
        ChatEvent::Commands { commands } => {
            assert_eq!(
                commands.iter().map(|c| c.name.as_str()).collect::<Vec<_>>(),
                vec!["compact", "superpowers:requesting-code-review"]
            );
            assert_eq!(commands[0].description.as_deref(), Some("x"));
        }
        e => panic!("{e:?}"),
    }
    // interrupt acks (no commands payload) stay Other
    let ack = r#"{"type":"control_response","response":{"subtype":"success","request_id":"weft-int-1"}}"#;
    assert!(matches!(parse_line(ack), ChatEvent::Other));
}

#[test]
fn parses_result_and_garbage() {
    assert!(matches!(
        parse_line(r#"{"type":"result","subtype":"success","is_error":false}"#),
        ChatEvent::TurnEnd { is_error: false, .. }
    ));
    assert!(matches!(
        parse_line(r#"{"type":"result","subtype":"error_during_execution","is_error":true}"#),
        ChatEvent::TurnEnd { is_error: true, .. }
    ));
    assert!(matches!(parse_line("not json"), ChatEvent::Other));
    assert!(matches!(
        parse_line(r#"{"type":"system","subtype":"hook_started"}"#),
        ChatEvent::Other
    ));
    assert!(matches!(
        parse_line(r#"{"type":"rate_limit_event"}"#),
        ChatEvent::Other
    ));
}

/// Token counts are added up in results alone; other lines may carry any.
#[test]
fn only_a_result_adds_its_counts_up() {
    let usage = r#""usage":{"input_tokens":18446744073709551615,"cache_read_input_tokens":1}"#;
    let said = format!(
        r#"{{"type":"assistant",{usage},"uuid":"u1","message":{{"content":[{{"type":"text","text":"hi"}}]}}}}"#
    );
    match parse_line(&said) {
        ChatEvent::Assistant { texts, uuid, .. } => {
            assert_eq!(texts, vec!["hi".to_string()]);
            assert_eq!(uuid.as_deref(), Some("u1"));
        }
        other => panic!("{other:?}"),
    }
    assert!(matches!(try_parse_line(&said), Some(ChatEvent::Assistant { .. })));
    let unknown = format!(r#"{{"type":"mystery",{usage}}}"#);
    assert!(matches!(parse_line(&unknown), ChatEvent::Other));
    let bare = format!("{{{usage}}}");
    assert!(matches!(try_parse_line_for("resident", &bare), Some(ChatEvent::Other)));
    let result = format!(r#"{{"type":"result","subtype":"success",{usage}}}"#);
    assert!(try_parse_line(&result).is_none());
    assert!(try_parse_line_for("resident", &result).is_none());
}
