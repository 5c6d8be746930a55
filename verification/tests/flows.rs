//! Whole flows: approvals, receipts, pushes, hidden input, launches, streams and
//! the ends of turns.

use lead_chat::approval::{
    asks_permissions, cancel_open_acp_asks, codex_approval_fields, event_is_late, final_verdict,
    forget_ask, permission_refused, register_ask, requested_permissions, take_first_line,
    RiskSignal,
};
use lead_chat::consumers::{
    appserver_event, body_landed, chip_is_activity, connection_event, connection_meta,
    connection_usage, ends_thinking, may_be_activity, read_line, reader_event, text_delta, text_row_inserted, ChatStep, LineStep,
};
use lead_chat::delivery::{
    admit_durable_row, batch_delivery_failed, begin_durable_batch, hidden_delivery_is_duplicate,
    hidden_delivery_tag, note_turn_activity, pending_hidden_rows_at_admission,
    receipt_authority, recover_hidden_receipt, register_hidden_receipt, row_counts,
    settle_consume_mark,
    settle_hidden_receipt, surface_key, Activity, BatchError, ConsumeMark, ConsumeOutcome, DurableResumeAuthorization,
    HiddenReceiptAuthoritativeState, HiddenRow, HiddenRowError, RecoverStep, RowStep, StoredDelivery,
};
use lead_chat::engine::{
    mark_hidden_turn_started_with_delivery, EngineInner, OpenTextRow, TextRow, ToolRow,
    STREAM_THROTTLE_MS,
};
use lead_chat::hidden::{
    begin_hidden, card_checked, deliver_hidden, wake_text, DeliveryRow, HiddenError,
    HiddenRequest, HiddenStart, HiddenStep,
};
use lead_chat::json::Json;
use lead_chat::meta::build_args;
use lead_chat::proto::{ChatEvent, SlashCmd, ToolCall, ToolResultItem};
use lead_chat::push::{delivered_push, delivered_row, DeliveredRow, Push};
use lead_chat::registry::{LeadChatState, PendingAsks, ReceiptRegistry};
use lead_chat::rows::LeadMessage;
use lead_chat::sending::{
    agent_not_found_content, clear_delivered_digest, codex_appserver_enabled, commit_send,
    compose_outgoing, dispatched_content, drain_failure_status, image_uris, images_spill,
    invalidate_resident, refresh_due, refreshed, refuse_without_program, reserve_send,
    resume_for_send, rollback_canceled_send, send_blocked, spawn_failure_status, spill_plan,
    transport, turn_opened, undo_promotion, user_line, user_row_content, user_row_kind,
    with_digest, with_files, with_images, Commit, SendError, Transport,
};
use lead_chat::spawning::{
    acp_session_opened, acp_spawn_admissible, arm_prompt, ensure_worker_parent_chain,
    fall_back_to_process, follow_up_returned, forget_unprompted_session, initialize_line,
    process_owner, prompt_returned, publish_acp_session, publish_app_server, read_identity, release_stale_slot,
    resident_need, resident_spawned, server_choice, session_replaced, spawn_admissible,
    thread_started, turn_process_spawned, validate_direction, validate_session, IdentityError,
    ProcessOwner, PromptReturn, ResidentNeed,
};
use lead_chat::streaming::{advance_dequeued_turn, note_quota_exceeded, TextLanding};
use lead_chat::turn::{Outgoing, BUS_WAKE_PROMPT, MAX_QUEUED};
use lead_chat::turn_end::{
    activity_after, begin_turn_end, cleanup_disconnected_turn, dispatch_overtaken,
    finish_turn_end, prompt_end_stands, reader_eof, take_open_rows, turn_end_status, EofPlan, Wire,
};

fn test_inner(tool: &str) -> EngineInner {
    let mut inner = EngineInner::fresh(1, None, tool);
    inner.ask_dir = "lead".into();
    inner
}

fn doc(text: &str) -> Json {
    Json::parse(text).unwrap()
}

fn strings(v: &[&str]) -> Vec<String> {
    v.iter().map(|s| s.to_string()).collect()
}

fn durable_row(id: i32, kind: &str, pending: bool) -> HiddenRow {
    HiddenRow {
        id,
        thread_id: 1,
        source_kind: kind.into(),
        source_id: 8,
        dedupe_key: format!("{kind}:8"),
        payload: r#"{"message_id":8}"#.into(),
        pending,
    }
}

// --- Approvals ---

/// The action's key is always exact, even where the summary shortens for display.
#[test]
fn codex_approval_fields_action_key_is_exact_and_summary_may_truncate() {
    let first = codex_approval_fields(
        "codex/commandExecution",
        &doc(r#"{"command": "npm test\nrm -rf /", "cwd": "/repo"}"#),
    );
    assert_eq!(first.tool, "Bash");
    assert_eq!(first.summary, "Run: npm test");
    assert_eq!(first.detail, "npm test\nrm -rf /");
    assert!(first.key.iter().any(|p| p.contains("rm -rf /")));
    assert_eq!(first.signal, RiskSignal::Command("npm test\nrm -rf /".into()));
    let second =
        codex_approval_fields("codex/commandExecution", &doc(r#"{"command": "npm test\necho safe"}"#));
    assert_eq!(second.summary, first.summary);
    assert_ne!(second.key, first.key);

    // The network comes first, before the method.
    let network = codex_approval_fields(
        "codex/commandExecution",
        &doc(r#"{"networkApprovalContext": {"host": "example.com"}}"#),
    );
    assert_eq!(network.tool, "Network");
    assert_eq!(network.summary, "network access: example.com");
    assert_eq!(network.key, strings(&["Network", "example.com"]));
    assert_eq!(network.signal, RiskSignal::Network);

    // The key carries every path, beyond those that the summary names.
    let edit = codex_approval_fields(
        "applyPatchApproval",
        &doc(r#"{"changes": [{"path":"a"},{"path":"b"},{"path":"c"},{"path":"d"}]}"#),
    );
    assert_eq!(edit.tool, "Edit");
    assert_eq!(edit.summary, "apply file changes: a, b, c +1");
    assert!(edit.key.iter().any(|p| p.contains('d')));

    // A permission's scope is cut in the summary, never in the detail or the key.
    let long_scope = "x".repeat(200);
    let permission = codex_approval_fields(
        "elicitation/permissions",
        &doc(&format!(r#"{{"permissions": {{"note": "{long_scope}"}}}}"#)),
    );
    assert_eq!(permission.tool, "Permission");
    assert!(permission.summary.len() < permission.detail.len());
    assert_eq!(permission.key, vec!["Permission".to_string(), permission.detail.clone()]);
}

/// What an edit and a permission are judged by is as exact as their keys.
#[test]
fn approvals_are_judged_by_their_whole_content() {
    let edit = codex_approval_fields(
        "applyPatchApproval",
        &doc(r#"{"changes": [{"path":"a"},{"path":"b"},{"path":"c"},{"path":"d"}]}"#),
    );
    assert_eq!(
        edit.signal,
        RiskSignal::File { tool_name: "Edit".into(), path: r#"["a","b","c","d"]"#.into() }
    );
    let long_scope = "x".repeat(200);
    let permission = codex_approval_fields(
        "elicitation/permissions",
        &doc(&format!(r#"{{"permissions": {{"note": "{long_scope}"}}}}"#)),
    );
    assert_eq!(
        permission.signal,
        RiskSignal::Other {
            tool_name: "Permission".into(),
            args_text: format!(r#"{{"note":"{long_scope}"}}"#),
        }
    );
}

#[test]
fn codex_approval_fields_action_key_uses_the_shared_collision_resistant_encoding() {
    let bash = codex_approval_fields("codex/commandExecution", &doc(r#"{"command": "echo hi"}"#));
    assert_eq!(bash.key, strings(&["Bash", "echo hi"]));
}

/// A scope that spells out a recognizable signal reaches the judge whole.
#[test]
fn codex_approval_fields_permission_scope_with_network_marker_is_classified() {
    let fields = codex_approval_fields(
        "elicitation/permissions",
        &doc(r#"{"permissions": {"network": "enabled"}}"#),
    );
    match fields.signal {
        RiskSignal::Other { args_text, .. } => {
            assert_eq!(args_text, r#"{"network":"enabled"}"#);
        }
        other => panic!("{other:?}"),
    }
}

#[test]
fn permission_requests_are_recognized() {
    assert!(asks_permissions("elicitation/permissions"));
    assert!(!asks_permissions("codex/commandExecution"));
    assert!(requested_permissions(&doc(r#"{"permissions":{"a":1}}"#)).is_some());
    assert!(requested_permissions(&doc(r#"{"other":1}"#)).is_none());
    assert_eq!(take_first_line("one\ntwo"), "one");
}

#[test]
fn a_card_of_an_earlier_epoch_is_late() {
    let mut inner = test_inner("omp");
    assert!(!event_is_late(&inner, 0));
    assert!(register_ask(&mut inner, 7, 0));
    assert!(register_ask(&mut inner, 9, 0));
    assert_eq!(inner.acp_pending_asks, vec![7, 9]);
    forget_ask(&mut inner, 7);
    assert_eq!(inner.acp_pending_asks, vec![9]);
    assert!(final_verdict(&inner, true, 0));
    assert!(!final_verdict(&inner, false, 0));

    inner.interrupting = true;
    assert!(permission_refused(&inner));
    assert!(!final_verdict(&inner, true, 0), "an interrupt overrides an allow");
    inner.interrupting = false;

    inner.reset_epoch = 1;
    assert!(event_is_late(&inner, 0));
    assert!(!register_ask(&mut inner, 11, 0));
    assert!(!final_verdict(&inner, true, 0));
    assert_eq!(cancel_open_acp_asks(&mut inner), vec![9]);
    assert!(inner.acp_pending_asks.is_empty());
}

// --- Receipts ---

#[test]
fn inflight_hidden_receipt_survives_turn_end_and_blocks_replay() {
    let mut inner = test_inner("codex");
    let mut receipts = ReceiptRegistry::new();
    let delivery_id = 12;
    mark_hidden_turn_started_with_delivery(&mut inner, Some(delivery_id), 1);
    assert!(register_hidden_receipt(&mut receipts, delivery_id));
    let next = inner.turn.on_turn_end();
    assert!(next.is_none(), "fixture has no queued follow-up");
    advance_dequeued_turn(&mut inner, &next);
    assert_eq!(inner.turn_user_row, None, "TurnEnd clears the marker");
    assert!(
        hidden_delivery_is_duplicate(&inner, &receipts, delivery_id),
        "the in-flight token is the durable admission reservation"
    );

    let pending =
        pending_hidden_rows_at_admission(vec![Some(durable_row(delivery_id, "plan_decision", true))]);
    assert_eq!(pending.len(), 1, "the durable row remains pending while DB is blocked");

    let consumed =
        pending_hidden_rows_at_admission(vec![Some(durable_row(delivery_id, "plan_decision", false))]);
    assert!(hidden_delivery_is_duplicate(&inner, &receipts, delivery_id));
    assert!(consumed.is_empty(), "DB consumption may commit before cleanup gate admission");

    assert!(settle_hidden_receipt(&mut inner, &mut receipts, delivery_id, ConsumeOutcome::Done));
    assert!(!receipts.contains(delivery_id));
    assert!(!hidden_delivery_is_duplicate(&inner, &receipts, delivery_id));
}

#[test]
fn hidden_turn_end_without_activity_allows_pending_retry() {
    let mut inner = test_inner("omp");
    let receipts = ReceiptRegistry::new();
    mark_hidden_turn_started_with_delivery(&mut inner, Some(5), 1);
    let next = inner.turn.on_turn_end();
    assert!(next.is_none());
    advance_dequeued_turn(&mut inner, &next);
    assert_eq!(inner.turn_user_row, None);
    assert!(!hidden_delivery_is_duplicate(&inner, &receipts, 5));
    assert_eq!(
        pending_hidden_rows_at_admission(vec![Some(durable_row(5, "plan_decision", true))]).len(),
        1,
        "the pending durable row is eligible for retry"
    );
}

#[test]
fn hidden_receipt_error_releases_token_for_retry() {
    let mut inner = test_inner("codex");
    let mut receipts = ReceiptRegistry::new();
    assert!(register_hidden_receipt(&mut receipts, 19));
    assert!(settle_hidden_receipt(&mut inner, &mut receipts, 19, ConsumeOutcome::Failed));
    assert!(!receipts.contains(19));
    assert!(!hidden_delivery_is_duplicate(&inner, &receipts, 19));
}

#[test]
fn hidden_receipt_panic_before_commit_releases_pending_row_for_retry() {
    let mut inner = test_inner("codex");
    let mut receipts = ReceiptRegistry::new();
    assert!(register_hidden_receipt(&mut receipts, 7));
    assert!(!settle_hidden_receipt(&mut inner, &mut receipts, 7, ConsumeOutcome::Lost));
    assert!(receipts.contains(7), "an unknown outcome keeps the reservation");
    let step = recover_hidden_receipt(
        &mut inner,
        &mut receipts,
        7,
        HiddenReceiptAuthoritativeState::Pending,
        50,
    );
    assert_eq!(step, RecoverStep::Settled);
    assert!(!receipts.contains(7));
    assert!(!hidden_delivery_is_duplicate(&inner, &receipts, 7));
}

#[test]
fn hidden_receipt_panic_after_commit_clears_token_without_retry() {
    let mut inner = test_inner("codex");
    let mut receipts = ReceiptRegistry::new();
    mark_hidden_turn_started_with_delivery(&mut inner, Some(7), 1);
    assert!(register_hidden_receipt(&mut receipts, 7));
    assert!(!settle_hidden_receipt(&mut inner, &mut receipts, 7, ConsumeOutcome::Lost));
    let step = recover_hidden_receipt(
        &mut inner,
        &mut receipts,
        7,
        HiddenReceiptAuthoritativeState::ConsumedOrMissing,
        50,
    );
    assert_eq!(step, RecoverStep::Settled);
    assert!(!receipts.contains(7));
    assert!(pending_hidden_rows_at_admission(vec![Some(durable_row(7, "plan_decision", false))])
        .is_empty());
}

#[test]
fn an_unreadable_receipt_is_asked_for_again_and_again() {
    let mut inner = test_inner("codex");
    let mut receipts = ReceiptRegistry::new();
    assert!(receipts.insert(7));
    assert!(!receipts.insert(7));
    let unknown = HiddenReceiptAuthoritativeState::Unknown;
    assert_eq!(
        recover_hidden_receipt(&mut inner, &mut receipts, 7, unknown, 50),
        RecoverStep::Retry { wait: 50, next: 100 }
    );
    assert_eq!(
        recover_hidden_receipt(&mut inner, &mut receipts, 7, unknown, 3_200),
        RecoverStep::Retry { wait: 3_200, next: 5_000 }
    );
    assert!(receipts.contains(7));
    assert!(receipts.remove(7));
    assert!(!receipts.remove(7));
}

#[test]
fn activity_is_marked_once_per_turn() {
    let mut inner = test_inner("codex");
    let mut receipts = ReceiptRegistry::new();
    assert_eq!(note_turn_activity(&mut inner, &mut receipts), Activity::Nothing);
    inner.turn_user_row = Some(4);
    inner.clock.begin_turn(9);
    assert!(matches!(
        note_turn_activity(&mut inner, &mut receipts),
        Activity::MarkConsumed { message_id: 4, .. }
    ));
    assert_eq!(note_turn_activity(&mut inner, &mut receipts), Activity::Nothing);
    settle_consume_mark(&mut inner, 5, ConsumeMark::NotEligible);
    assert_eq!(note_turn_activity(&mut inner, &mut receipts), Activity::Nothing, "another row");
    settle_consume_mark(&mut inner, 4, ConsumeMark::Marked);
    assert_eq!(note_turn_activity(&mut inner, &mut receipts), Activity::Nothing);
    settle_consume_mark(&mut inner, 4, ConsumeMark::NotEligible);
    assert!(matches!(
        note_turn_activity(&mut inner, &mut receipts),
        Activity::MarkConsumed { message_id: 4, .. }
    ));
    inner.turn_user_row = Some(-6);
    inner.clock.begin_turn(9);
    assert_eq!(
        note_turn_activity(&mut inner, &mut receipts),
        Activity::ConsumeDelivery { delivery_id: 6, key: -1 }
    );
    assert!(receipts.contains(6));
    assert_eq!(surface_key(3, None), -3);
    assert_eq!(surface_key(3, Some(8)), 8);
}

#[test]
fn a_batch_is_let_in_as_a_whole() {
    let visible = DurableResumeAuthorization::Visible;
    let background = DurableResumeAuthorization::Background;
    let mut inner = test_inner("codex");
    let good = vec![durable_row(3, "repo_action", true)];
    assert_eq!(begin_durable_batch(&mut inner, &vec![], visible), Ok(None));
    inner.tearing_down = true;
    assert_eq!(begin_durable_batch(&mut inner, &good, visible), Err(BatchError::TearingDown));
    inner.tearing_down = false;
    inner.rewinding = true;
    assert_eq!(begin_durable_batch(&mut inner, &good, visible), Err(BatchError::Rewinding));
    inner.rewinding = false;
    let odd = vec![durable_row(3, "repo_action", true), durable_row(4, "mystery", true)];
    assert_eq!(
        begin_durable_batch(&mut inner, &odd, visible),
        Err(BatchError::BadRow(HiddenRowError::UnsupportedKind))
    );
    let mut broken = durable_row(3, "repo_action", true);
    broken.payload = "{".into();
    assert_eq!(
        begin_durable_batch(&mut inner, &vec![broken], visible),
        Err(BatchError::BadRow(HiddenRowError::InvalidPayload))
    );
    inner.stopped = true;
    assert_eq!(begin_durable_batch(&mut inner, &good, background), Ok(None));
    assert!(inner.stopped);
    let batch = begin_durable_batch(&mut inner, &good, visible).unwrap().unwrap();
    assert!(batch.was_stopped && !inner.stopped);

    let receipts = ReceiptRegistry::new();
    assert!(matches!(
        admit_durable_row(&mut inner, &receipts, None, false, batch, 5),
        Ok(RowStep::Skip)
    ));
    let turn = match admit_durable_row(&mut inner, &receipts, Some(&good[0]), false, batch, 5) {
        Ok(RowStep::Spawn { turn_id, epoch, out }) => {
            assert_eq!(epoch, 0);
            assert_eq!(out.text, r#"<weft:repo_action>{"message_id":8}</weft:repo_action>"#);
            assert_eq!(out.origin_tag, Some(hidden_delivery_tag(3)));
            turn_id
        }
        _ => panic!("a turn of its own"),
    };
    assert_eq!(inner.turn_user_row, Some(-3));
    assert!(matches!(
        admit_durable_row(&mut inner, &receipts, Some(&good[0]), false, batch, 5),
        Ok(RowStep::Represented)
    ));
    let second = durable_row(4, "repo_action", true);
    assert!(matches!(
        admit_durable_row(&mut inner, &receipts, Some(&second), false, batch, 5),
        Ok(RowStep::Queued)
    ));
    assert!(batch_delivery_failed(&mut inner, turn, batch).is_some());
    assert!(inner.stopped, "an engine that was found stopped is stopped again");
    assert!(!inner.turn.busy && inner.turn.queue.is_empty());
    assert!(matches!(
        admit_durable_row(&mut inner, &receipts, Some(&second), false, batch, 5),
        Err(BatchError::NotAdmissible)
    ));
}

#[test]
fn a_resident_is_ensured_before_a_row_is_taken() {
    let mut inner = test_inner("resident");
    let receipts = ReceiptRegistry::new();
    let rows = vec![durable_row(3, "plan_decision", true)];
    let batch =
        begin_durable_batch(&mut inner, &rows, DurableResumeAuthorization::Background)
            .unwrap()
            .unwrap();
    assert!(matches!(
        admit_durable_row(&mut inner, &receipts, Some(&rows[0]), false, batch, 5),
        Ok(RowStep::EnsureResident)
    ));
    inner.stdin = true;
    assert!(matches!(
        admit_durable_row(&mut inner, &receipts, Some(&rows[0]), true, batch, 5),
        Ok(RowStep::Write { .. })
    ));
}

// --- Registries ---

#[test]
fn registries_hold_what_was_put_in() {
    let mut state = LeadChatState::new();
    assert_eq!(state.get(-7), None);
    assert_eq!(state.get_or_insert(-7, 11), 11);
    assert_eq!(state.get_or_insert(-7, 12), 11, "the first engine stays");
    assert_eq!(state.remove_if_same(-7, 12), None);
    assert_eq!(state.get(-7), Some(11));
    assert_eq!(state.remove_if_same(-7, 11), Some(11));
    assert_eq!(state.remove(-7), None);
    state.get_or_insert(-7, 13);
    assert_eq!(state.remove(-7), Some(13));

    let mut asks = PendingAsks::new();
    asks.insert("r1".into(), 5);
    asks.insert("r1".into(), 6);
    assert_eq!(asks.remove("r2"), None);
    assert_eq!(asks.remove("r1"), Some(6));
    assert_eq!(asks.remove("r1"), None);
}

// --- Launching ---

#[test]
fn build_args_fresh_vs_resume() {
    let mut inner = test_inner("resident");
    inner.cwd = "/tmp".into();
    inner.extra_args = strings(&["--mcp-config", "x"]);
    inner.system_prompt = "be lead".into();
    let fresh = build_args(&inner);
    assert!(fresh.contains(&"--append-system-prompt".to_string()));
    assert!(!fresh.contains(&"--resume".to_string()));
    assert_eq!(fresh.last().map(String::as_str), Some("x"));
    inner.native_id = Some("abc".into());
    let resumed = build_args(&inner);
    let at = resumed.iter().position(|a| a == "--resume").unwrap();
    assert_eq!(resumed[at + 1], "abc");
}

#[test]
fn launches_yield_to_stops() {
    let mut inner = test_inner("omp");
    assert!(spawn_admissible(&inner, None) && spawn_admissible(&inner, Some(0)));
    assert!(!spawn_admissible(&inner, Some(1)));
    inner.tearing_down = true;
    assert!(spawn_admissible(&inner, None));
    assert!(!acp_spawn_admissible(&inner, None));
    inner.tearing_down = false;
    assert_eq!(arm_prompt(&inner, Some(0)), Some(0));
    inner.interrupting = true;
    assert_eq!(arm_prompt(&inner, Some(0)), None);
    assert!(publish_acp_session(&mut inner, "s", None));
    assert!(!inner.acp_client);
    assert!(!fall_back_to_process(&mut inner));
    inner.interrupting = false;
    assert!(!publish_acp_session(&mut inner, "s", Some(0)));
    assert!(inner.acp_client);
    assert_eq!(inner.native_id.as_deref(), Some("s"));
    assert!(session_replaced(Some("t"), "s"));
    assert!(!session_replaced(Some("s"), "s"));
    forget_unprompted_session(&mut inner);
    assert!(!inner.acp_client && inner.native_id.is_none());

    assert!(!publish_app_server(&mut inner, None, true));
    assert!(inner.codex_client);
    assert!(fall_back_to_process(&mut inner));
    assert!(!inner.codex_client);
    inner.stopped = true;
    assert!(publish_app_server(&mut inner, None, true));
    assert!(!inner.codex_client);
    assert!(matches!(prompt_returned(&inner, 0, None), PromptReturn::Owned));
    inner.stopped = false;
    assert!(matches!(
        prompt_returned(&inner, 0, None),
        PromptReturn::Ends { is_error: true, cancelled: false }
    ));
    assert!(matches!(
        prompt_returned(&inner, 0, Some((false, true))),
        PromptReturn::Ends { is_error: false, cancelled: true }
    ));
    assert!(thread_started(&mut inner, "th", true));
    assert_eq!(inner.native_id.as_deref(), Some("th"));
    assert!(!thread_started(&mut inner, "other", false));
    assert_eq!(inner.native_id.as_deref(), Some("th"));
}

#[test]
fn processes_and_their_slots() {
    let mut inner = test_inner("resident");
    assert_eq!(resident_need(&inner, "resident", false), ResidentNeed::Spawn);
    assert_eq!(resident_need(&inner, "another", false), ResidentNeed::UnknownTool);
    inner.child_permit = true;
    release_stale_slot(&mut inner);
    assert!(!inner.child_permit);
    inner.turn.busy = true;
    assert_eq!(resident_spawned(&mut inner, true), 1);
    assert!(inner.child && inner.child_permit && inner.stdin && !inner.turn.busy);
    assert_eq!(resident_need(&inner, "resident", true), ResidentNeed::Nothing);
    assert_eq!(resident_need(&inner, "resident", false), ResidentNeed::Spawn);
    inner.stopped = true;
    assert_eq!(resident_need(&inner, "resident", false), ResidentNeed::Nothing);
    let mut codex = test_inner("codex");
    assert_eq!(resident_need(&codex, "resident", false), ResidentNeed::Nothing);
    assert_eq!(turn_process_spawned(&mut codex, false), 1);
    assert!(codex.child && !codex.child_permit && !codex.stdin);
    assert!(matches!(process_owner(&codex), ProcessOwner::LeadThread(t) if t == "1"));
    codex.session_id = Some(42);
    assert!(matches!(process_owner(&codex), ProcessOwner::Session(s) if s == "42"));
    assert_eq!(
        initialize_line(),
        "{\"request\":{\"subtype\":\"initialize\"},\"request_id\":\"weft-initialize\",\"type\":\"control_request\"}\n"
    );
}

#[test]
fn sessions_on_the_connection_backend() {
    let mut inner = test_inner("omp");
    inner.last_model = Some("m0".into());
    acp_session_opened(&mut inner, None, Some("high".into()), &strings(&["bus", "planner"]));
    assert_eq!(inner.last_model.as_deref(), Some("m0"));
    assert_eq!(inner.last_reasoning.as_deref(), Some("high"));
    assert_eq!(inner.last_mcp_servers.len(), 2);
    assert_eq!(inner.last_mcp_servers[1].status, "connected");
    acp_session_opened(&mut inner, Some("m1".into()), None, &vec![]);
    assert_eq!(inner.last_model.as_deref(), Some("m1"));
    assert_eq!(inner.last_mcp_servers.len(), 2, "nothing injected says nothing");
    let worker = server_choice(true, "concierge");
    assert!(worker.bus && !worker.planner && !worker.global && !worker.curator);
    let concierge = server_choice(false, "concierge");
    assert!(!concierge.bus && concierge.global);
    let curator = server_choice(false, "curator");
    assert!(curator.bus && curator.curator && !curator.planner);
    let lead = server_choice(false, "feature");
    assert!(lead.bus && lead.planner);
}

#[test]
fn identities_are_checked_link_by_link() {
    assert_eq!(read_identity(Some(false), None, "lead"), Err(IdentityError::NotRegistered));
    assert_eq!(read_identity(None, None, "lead"), Ok(None));
    assert_eq!(read_identity(Some(true), None, "12"), Err(IdentityError::InvalidLead));
    assert_eq!(read_identity(Some(true), Some(4), "12"), Ok(Some(12)));
    assert_eq!(read_identity(Some(true), Some(4), "lead"), Err(IdentityError::InvalidDirection));
    assert_eq!(validate_session(None, 12), Err(IdentityError::SessionGone));
    assert_eq!(validate_session(Some(13), 12), Err(IdentityError::SessionMoved));
    assert_eq!(validate_session(Some(12), 12), Ok(()));
    assert_eq!(ensure_worker_parent_chain(1, 2, 1), Err(IdentityError::DirectionRepoForeign));
    assert_eq!(ensure_worker_parent_chain(1, 1, 2), Err(IdentityError::SessionRepoForeign));
    assert_eq!(ensure_worker_parent_chain(1, 1, 1), Ok(()));
    assert_eq!(validate_direction(3, 4), Err(IdentityError::DirectionMoved));
    assert_eq!(validate_direction(4, 4), Ok(()));
}

// --- Sending ---

#[test]
fn a_message_finds_its_way_by_the_state_it_meets() {
    let mut inner = test_inner("codex");
    let ctx = reserve_send(&mut inner, " /plan x", Some("tag".into()), false, 7).ok().unwrap();
    assert!(ctx.direct && ctx.is_command);
    assert_eq!((ctx.turn, inner.turn_id, inner.clock.started_millis), (1, 1, 7));
    assert_eq!(user_row_kind(&ctx), ("command", "complete"));
    assert!(matches!(
        commit_send(&mut inner, &ctx, Outgoing::default(), 8),
        Commit::Dispatch { turn: 1, promoted: false, .. }
    ));
    turn_opened(&mut inner, 30);
    assert_eq!(inner.turn_user_row, Some(30));

    let queued = reserve_send(&mut inner, "next", None, false, 9).ok().unwrap();
    assert!(!queued.direct && !queued.is_command);
    assert_eq!(user_row_kind(&queued), ("text", "queued"));
    let visible = |id| Outgoing { is_tracked: true, queue_id: Some(id), ..Default::default() };
    assert!(matches!(commit_send(&mut inner, &queued, visible(31), 9), Commit::Queued));

    // The turn ended before a queued message was committed.
    let mut idle = test_inner("codex");
    let mut late = queued.clone();
    late.turn = 0;
    assert!(matches!(
        commit_send(&mut idle, &late, visible(31), 10),
        Commit::Dispatch { turn: 1, promoted: true, .. }
    ));
    undo_promotion(&mut idle);
    assert!(!idle.turn.busy && idle.turn_id == 0);
    idle.interrupting = true;
    assert!(matches!(commit_send(&mut idle, &late, visible(31), 10), Commit::Interrupted));
    idle.reset_epoch = 1;
    assert!(matches!(commit_send(&mut idle, &late, visible(31), 10), Commit::Invalid));
    assert_eq!(spawn_failure_status(&idle, &late), "interrupted");
    assert_eq!(drain_failure_status(&inner, 0), "error");
    assert_eq!(drain_failure_status(&inner, 1), "interrupted");

    let back = rollback_canceled_send(&mut inner, &ctx, false).unwrap();
    assert_eq!((back.activity, back.drained), ("idle", vec![31]));
    assert_eq!(inner.turn_id, 0);
    assert!(rollback_canceled_send(&mut inner, &ctx, false).is_none());
}

#[test]
fn messages_that_are_refused() {
    let mut inner = test_inner("codex");
    inner.rewinding = true;
    inner.quota_failover_committing = true;
    assert_eq!(send_blocked(&inner), Some(SendError::Rewinding));
    inner.rewinding = false;
    assert_eq!(send_blocked(&inner), Some(SendError::SwitchInProgress));
    assert_eq!(
        reserve_send(&mut inner, "x", None, false, 0).err(),
        Some(SendError::SwitchInProgress)
    );
    inner.quota_failover_committing = false;
    inner.worktree_id = Some(2);
    assert_eq!(
        reserve_send(&mut inner, "x", None, true, 0).err(),
        Some(SendError::WorktreeReserved)
    );
    inner.turn.busy = true;
    for id in 0..MAX_QUEUED as i32 {
        inner.turn.queue.push_back(Outgoing {
            is_tracked: true,
            queue_id: Some(id),
            ..Default::default()
        });
    }
    assert_eq!(reserve_send(&mut inner, "x", None, false, 0).err(), Some(SendError::QueueFull));
}

#[test]
fn refreshes_wait_for_their_moment() {
    let mut inner = test_inner("resident");
    assert_eq!(refresh_due(&inner), (false, false));
    inner.pending_command_refresh = true;
    inner.turn.busy = true;
    assert_eq!(refresh_due(&inner), (false, false));
    inner.turn.busy = false;
    assert_eq!(refresh_due(&inner), (true, true));
    refreshed(&mut inner, true);
    assert!(!inner.pending_command_refresh);
}

#[test]
fn what_goes_out_with_a_message() {
    let images = vec![("image/png".to_string(), "aGVsbG8=".to_string()), ("image/gif".to_string(), "*".to_string())];
    assert_eq!(image_uris(&images)[0], "data:image/png;base64,aGVsbG8=");
    let spills = spill_plan(9, &images);
    assert_eq!(spills.len(), 1, "data that does not decode is left out");
    assert_eq!(spills[0].name, "msg9-0.png");
    assert_eq!(spills[0].bytes, b"hello".to_vec());
    let files = strings(&["/a", "/b"]);
    assert_eq!(
        with_files("see", &files),
        "see\n\nAttached files (read them as needed):\n- /a\n- /b\n"
    );
    assert_eq!(with_files("see", &vec![]), "see");
    assert_eq!(
        with_images("see", &strings(&["/i"])),
        "see\n\nAttached images (read them as needed):\n- /i\n"
    );
    assert_eq!(with_digest(Some("past"), "now"), "past\n\nnow");
    assert_eq!(with_digest(Some(""), "now"), "now");
    assert_eq!(with_digest(None, "now"), "now");
    assert_eq!(
        user_row_content(true, " /plan a b", &vec![], &vec![]),
        r#"{"args":"a b","command":"/plan"}"#
    );
    assert_eq!(
        user_row_content(false, "hi", &vec![], &strings(&["/a"])),
        r#"{"files":["/a"],"images":[],"text":"hi"}"#
    );
    assert_eq!(
        dispatched_content("hi", &vec![], &vec![], "hi there"),
        r#"{"dispatched":"hi there","files":[],"images":[],"text":"hi"}"#
    );
    assert_eq!(agent_not_found_content("omp"), r#"{"terminal":"agent_not_found","tool":"omp"}"#);
    let out = Outgoing {
        text: "hi".into(),
        images: vec![("image/png".to_string(), "QQ==".to_string())],
        ..Default::default()
    };
    assert_eq!(
        user_line(&out),
        "{\"message\":{\"content\":[{\"text\":\"hi\",\"type\":\"text\"},{\"source\":{\"data\":\"QQ==\",\"media_type\":\"image/png\",\"type\":\"base64\"},\"type\":\"image\"}],\"role\":\"user\"},\"type\":\"user\"}\n"
    );
}

#[test]
fn transports_and_digests() {
    assert_eq!(transport("codex", true), Transport::AppServer);
    assert_eq!(transport("codex", false), Transport::PerTurn);
    assert_eq!(transport("omp", true), Transport::Connection);
    assert_eq!(transport("opencode", true), Transport::PerTurn);
    assert_eq!(transport("resident", true), Transport::Resident);
    assert!(codex_appserver_enabled(None) && codex_appserver_enabled(Some("1")));
    assert!(!codex_appserver_enabled(Some("0")));
    let mut inner = test_inner("codex");
    inner.pending_context_digest = Some("newer".into());
    clear_delivered_digest(&mut inner, Some("older"));
    assert!(inner.pending_context_digest.is_some());
    clear_delivered_digest(&mut inner, Some("newer"));
    assert!(inner.pending_context_digest.is_none());
}

// --- Hidden input ---

#[test]
fn hidden_input_is_admitted_or_refused() {
    let mut inner = test_inner("codex");
    let receipts = ReceiptRegistry::new();
    let pending = DeliveryRow::Pending;
    let mut begin = |inner: &mut EngineInner, req, quota, row| {
        begin_hidden(inner, &receipts, req, quota, row)
    };
    let wake = HiddenRequest::wake();
    let durable = HiddenRequest::durable(3, true);
    let quiet = HiddenRequest::durable(3, false);
    assert_eq!(begin(&mut inner, wake, false, pending), HiddenStart::Done(false));
    assert_eq!(
        begin(&mut inner, durable, false, pending),
        HiddenStart::Refused(HiddenError::Quota)
    );
    assert_eq!(begin(&mut inner, durable, true, DeliveryRow::Missing), HiddenStart::Done(false));
    assert_eq!(begin(&mut inner, durable, true, DeliveryRow::Consumed), HiddenStart::Done(true));
    inner.stopped = true;
    assert_eq!(begin(&mut inner, wake, true, pending), HiddenStart::Done(false));
    assert_eq!(begin(&mut inner, quiet, true, pending), HiddenStart::Done(false));
    assert_eq!(
        begin(&mut inner, HiddenRequest::existing(), true, pending),
        HiddenStart::Refused(HiddenError::TearingDown)
    );
    assert!(inner.stopped, "none of these revives the engine");
    let approval = HiddenRequest::plan_approval(1);
    assert_eq!(begin(&mut inner, approval, true, pending), HiddenStart::CheckCard);
    assert!(inner.stopped);
    assert_eq!(card_checked(&mut inner, false), HiddenStart::Done(false));
    assert!(inner.stopped);
    assert_eq!(card_checked(&mut inner, true), HiddenStart::Admitted);
    assert!(!inner.stopped);
    assert_eq!(
        begin(&mut inner, HiddenRequest::plan_approval(2), true, pending),
        HiddenStart::Done(false)
    );
    inner.stopped = true;
    assert_eq!(begin(&mut inner, durable, true, pending), HiddenStart::Admitted);
    assert!(!inner.stopped);
}

#[test]
fn hidden_input_is_routed() {
    let mut inner = test_inner("codex");
    let durable = HiddenRequest::durable(3, true);
    match deliver_hidden(&mut inner, durable, "text".into(), true, 4) {
        HiddenStep::Launch { turn_id, out, epoch, over } => {
            assert_eq!((turn_id, epoch, over), (1, 0, Transport::AppServer));
            assert_eq!(out.text, "text");
            assert!(!out.is_tracked);
        }
        _ => panic!("a turn of its own"),
    }
    assert_eq!(inner.turn_user_row, Some(-3));
    assert!(matches!(
        deliver_hidden(&mut inner, HiddenRequest::existing(), "more".into(), true, 4),
        HiddenStep::Waits
    ));
    assert_eq!(inner.turn.queue.len(), 1);
    assert!(matches!(
        deliver_hidden(&mut inner, HiddenRequest::wake(), wake_text(), true, 4),
        HiddenStep::Waits
    ));
    assert_eq!(inner.turn.bus_read_pos, Some(1), "the wake runs behind what waits");
    assert_eq!(wake_text(), BUS_WAKE_PROMPT);

    let mut resident = test_inner("resident");
    assert!(matches!(
        deliver_hidden(&mut resident, HiddenRequest::wake(), wake_text(), true, 4),
        HiddenStep::Dropped
    ));
    assert!(matches!(
        deliver_hidden(&mut resident, durable, "x".into(), true, 4),
        HiddenStep::Refused(HiddenError::NotAccepting)
    ));
    resident.stdin = true;
    assert!(matches!(
        deliver_hidden(&mut resident, durable, "x".into(), true, 4),
        HiddenStep::Write { turn_id: 1, .. }
    ));
}

// --- Pushes ---

#[test]
fn finalize_serializes_delivery_seq_when_present() {
    let delivered = Push::Finalize {
        thread_id: 1,
        message_id: 2,
        status: "complete".into(),
        content: None,
        seq: Some(9),
    }
    .to_json();
    assert_eq!(delivered.get("seq").and_then(Json::as_i64), Some(9));

    let ordinary = Push::Finalize {
        thread_id: 1,
        message_id: 3,
        status: "complete".into(),
        content: None,
        seq: None,
    }
    .to_json();
    assert!(ordinary.get("seq").is_none());
}

#[test]
fn engine_switched_push_carries_authoritative_route_identity() {
    let push = Push::EngineSwitched {
        thread_id: 7,
        session_id: Some(9),
        direction_id: Some(11),
        tool: "resident".to_string(),
        model: None,
        command: Some("cc-resident".to_string()),
    }
    .to_json();
    assert_eq!(push.str_at("type"), Some("engine_switched"));
    assert_eq!(push.get("thread_id").and_then(Json::as_i64), Some(7));
    assert_eq!(push.get("session_id").and_then(Json::as_i64), Some(9));
    assert_eq!(push.get("direction_id").and_then(Json::as_i64), Some(11));
    assert_eq!(push.str_at("tool"), Some("resident"));
    assert_eq!(push.str_at("command"), Some("cc-resident"));
}

#[test]
fn pushes_print_as_tagged_documents() {
    let mut inner = test_inner("codex");
    inner.last_window = Some(1000);
    inner.turn.queue.push_back(Outgoing {
        text: "hi".into(),
        is_tracked: true,
        queue_id: Some(4),
        ..Default::default()
    });
    assert_eq!(
        Push::finalize(1, 2, "error").to_json().print(),
        r#"{"message_id":2,"status":"error","thread_id":1,"type":"finalize"}"#
    );
    assert_eq!(
        Push::usage(&inner, 50).to_json().print(),
        r#"{"context_tokens":50,"model":null,"session_id":null,"thread_id":1,"type":"usage","window":1000}"#
    );
    let turn = Push::turn(&inner, "busy").to_json();
    assert_eq!(turn.str_at("state"), Some("busy"));
    assert_eq!(turn.arr_at("queue").unwrap()[0].str_at("text"), Some("hi"));
    let init = Push::init(&inner, "n1".into(), true).to_json();
    assert_eq!(init.str_at("native_id"), Some("n1"));
    assert_eq!(init.get("mcp_known").and_then(Json::as_bool), Some(true));
    assert_eq!(
        Push::Delta { thread_id: 1, message_id: 2, text: "t".into() }.to_json().print(),
        r#"{"message_id":2,"text":"t","thread_id":1,"type":"delta"}"#
    );
    assert_eq!(
        Push::Consumed { thread_id: 1, message_id: 2, consumed_at: 3 }.to_json().print(),
        r#"{"consumed_at":3,"message_id":2,"thread_id":1,"type":"consumed"}"#
    );
}

#[test]
fn a_delivered_row_says_what_was_sent() {
    let out = Outgoing {
        text: "edited".into(),
        is_tracked: true,
        queue_id: Some(4),
        ..Default::default()
    };
    assert_eq!(delivered_row(&out), DeliveredRow::Row(4));
    assert_eq!(
        delivered_row(&Outgoing { is_tracked: true, ..Default::default() }),
        DeliveredRow::Oldest
    );
    assert_eq!(delivered_row(&Outgoing::default()), DeliveredRow::Nothing);
    let row = LeadMessage {
        id: 4,
        thread_id: 1,
        session_id: None,
        turn_id: 1,
        role: "user".into(),
        kind: "text".into(),
        content: r#"{"text":"first"}"#.into(),
        status: "queued".into(),
        created_at: "0".into(),
        seq: None,
        native_anchor: None,
        consumed_at: None,
    };
    let push = delivered_push(1, &row, &out, Some(8)).to_json();
    assert_eq!(push.str_at("status"), Some("complete"));
    assert_eq!(push.get("seq").and_then(Json::as_i64), Some(8));
}

// --- Streams ---

#[test]
fn lines_of_a_child_are_read_in_its_dialect() {
    let mut inner = test_inner("codex");
    assert!(matches!(read_line(&mut inner, 1, "{}"), LineStep::Stale));
    match read_line(&mut inner, 0, r#"{"type":"thread.started","thread_id":"th-1"}"#) {
        LineStep::Event { native, .. } => assert_eq!(native.as_deref(), Some("th-1")),
        _ => panic!("an event"),
    }
    assert_eq!(inner.native_id.as_deref(), Some("th-1"));
    match read_line(&mut inner, 0, "garbage") {
        LineStep::Event { native, event } => {
            assert!(native.is_none());
            assert!(matches!(event, ChatEvent::Other));
            assert!(matches!(reader_event(&mut inner, event, None, 1), ChatStep::Nothing));
        }
        _ => panic!("garbage is no event"),
    }
}

fn delta(text: &str, item: Option<&str>, thread: Option<&str>) -> ChatEvent {
    ChatEvent::TextDelta {
        text: text.into(),
        item: item.map(String::from),
        agent_thread: thread.map(String::from),
    }
}

#[test]
fn a_reader_streams_into_one_row() {
    let mut inner = test_inner("resident");
    let (item, branch, text) = match reader_event(&mut inner, delta("he", None, None), None, 10) {
        ChatStep::OpenRow { item, content, branch, text } => {
            assert_eq!(content, r#"{"text":""}"#);
            (item, branch, text)
        }
        _ => panic!("the first piece opens the row"),
    };
    match text_row_inserted(&mut inner, item, 5, branch, text, 10) {
        ChatStep::Delta { step, text } => {
            assert_eq!((step.row, text.as_str()), (5, "he"));
            assert!(step.snapshot.is_none());
        }
        _ => panic!("the piece is shown"),
    }
    match reader_event(&mut inner, delta("llo", None, None), None, 11) {
        ChatStep::Delta { step, .. } => assert!(step.snapshot.is_none(), "too soon"),
        _ => panic!(),
    }
    match reader_event(&mut inner, delta("!", None, None), None, 10 + STREAM_THROTTLE_MS) {
        ChatStep::Delta { step, .. } => assert!(step.snapshot.is_some()),
        _ => panic!(),
    }
    let landed = body_landed(&mut inner, "hello! <x>", "hello!");
    assert_eq!(landed.row, Some(5));
    assert_eq!(landed.content, r#"{"text":"hello!"}"#);
    assert_eq!(landed.shown.as_deref(), Some("hello!"));
    assert_eq!(landed.out.as_deref(), Some("hello!"));
    assert!(inner.current.is_none());
    let command = body_landed(&mut inner, "  ", "  ");
    assert!(command.row.is_none() && command.shown.is_none() && command.out.is_none());
}

#[test]
fn an_assistant_message_hands_on_its_body_and_tools() {
    let mut inner = test_inner("resident");
    let event = ChatEvent::Assistant {
        texts: strings(&["a", "b"]),
        tools: vec![],
        uuid: Some("u-1".into()),
        agent_thread: None,
    };
    match reader_event(&mut inner, event, None, 1) {
        ChatStep::Body { full, tools } => {
            assert_eq!(full.as_deref(), Some("a\n\nb"));
            assert!(tools.is_empty());
        }
        _ => panic!(),
    }
    assert_eq!(inner.last_assistant_uuid.as_deref(), Some("u-1"));
    let commands = ChatEvent::Commands { commands: vec![SlashCmd::bare("plan")] };
    assert!(matches!(reader_event(&mut inner, commands, None, 1), ChatStep::Commands));
    assert_eq!(inner.slash_commands.len(), 1);
    let init = ChatEvent::Init {
        session_id: "s".into(),
        slash_commands: vec![],
        mcp_servers: vec![],
        tools: strings(&["Bash"]),
        model: Some("m".into()),
    };
    match reader_event(&mut inner, init, Some(2000), 1) {
        ChatStep::Init { session_id, model, window, .. } => {
            assert_eq!((session_id.as_str(), model.as_deref(), window), ("s", Some("m"), Some(2000)));
        }
        _ => panic!(),
    }
    assert_eq!(inner.native_id.as_deref(), Some("s"));
    assert_eq!(inner.last_window, Some(2000));
}

#[test]
fn the_app_server_keys_its_texts_by_item() {
    let mut inner = test_inner("codex");
    for (item, row) in [("a", 5), ("b", 6)] {
        match appserver_event(&mut inner, delta("x", Some(item), Some("sub")), "own", None, 1) {
            ChatStep::OpenRow { item, content, branch, text } => {
                assert_eq!(content, r#"{"agentThread":"sub","text":""}"#);
                text_row_inserted(&mut inner, item, row, branch, text, 1);
            }
            _ => panic!(),
        }
    }
    assert!(matches!(
        appserver_event(&mut inner, delta("y", Some("b"), Some("sub")), "own", None, 2),
        ChatStep::Delta { .. }
    ));
    assert_eq!(inner.open_texts.get("a").unwrap().buf, "x");
    assert_eq!(inner.open_texts.get("b").unwrap().buf, "xy");
    let done = |item: &str, text: Option<&str>| ChatEvent::TextDone {
        item: Some(item.into()),
        text: text.map(String::from),
        agent_thread: Some("own".into()),
    };
    match appserver_event(&mut inner, done("b", Some("final")), "own", None, 3) {
        ChatStep::Landed(TextLanding::Close { row, body, replaced, agent_thread }) => {
            assert_eq!((row, body.as_str(), replaced), (6, "final", true));
            assert_eq!(agent_thread.as_deref(), Some("sub"));
        }
        _ => panic!(),
    }
    match appserver_event(&mut inner, done("c", Some("alone")), "own", None, 3) {
        ChatStep::Landed(TextLanding::Standalone { body, agent_thread }) => {
            assert_eq!(body, "alone");
            assert!(agent_thread.is_none(), "the own thread is no branch");
        }
        _ => panic!(),
    }
    assert!(matches!(
        appserver_event(&mut inner, done("c", Some("  ")), "own", None, 3),
        ChatStep::Landed(TextLanding::Nothing)
    ));
}

#[test]
fn the_app_server_repeats_its_errors() {
    let mut inner = test_inner("codex");
    inner.current = Some(TextRow { row: 3, buf: "usage limit".into(), last_flush: 0 });
    assert!(matches!(
        appserver_event(&mut inner, delta("usage limit", None, None), "own", None, 1),
        ChatStep::Nothing
    ));
    assert!(matches!(
        text_delta(&mut inner, None, "usage limit".into(), None, false, 1),
        ChatStep::Delta { .. }
    ));
    assert_eq!(inner.current.as_ref().unwrap().buf, "usage limitusage limit");
    let usage = |n| ChatEvent::Usage { context_tokens: n, window: Some(100) };
    assert!(matches!(
        appserver_event(&mut inner, usage(40), "own", None, 1),
        ChatStep::Usage(40)
    ));
    inner.tool_rows.insert(
        "c".into(),
        ToolRow { row: 9, content: doc(r#"{"name":"collabAgentToolCall"}"#) },
    );
    assert!(matches!(appserver_event(&mut inner, usage(7), "own", None, 1), ChatStep::Nothing));
    assert_eq!(inner.last_context_tokens, Some(40), "another agent's reading is none of ours");
    assert!(!note_quota_exceeded(&mut inner), "no turn runs that it could belong to");
    inner.turn.busy = true;
    assert!(note_quota_exceeded(&mut inner));
    assert!(inner.turn.quota_exceeded);
}

#[test]
fn the_connection_backend_closes_text_at_a_tool_call() {
    let mut inner = test_inner("omp");
    inner.current = Some(TextRow { row: 3, buf: "thinking".into(), last_flush: 0 });
    let call = ToolCall {
        id: "t1".into(),
        name: "Bash".into(),
        input: Json::Null,
        summary: String::new(),
        output: None,
        is_error: false,
        collab_threads: vec![],
    };
    let event = ChatEvent::Assistant {
        texts: vec![],
        tools: vec![call],
        uuid: None,
        agent_thread: None,
    };
    match connection_event(&mut inner, event, 1) {
        ChatStep::Tools { close, tools, branch } => {
            assert_eq!(close.unwrap().row, 3);
            assert_eq!(tools.len(), 1);
            assert!(branch.is_none());
        }
        _ => panic!(),
    }
    inner.tool_rows.insert("t1".into(), ToolRow { row: 8, content: doc(r#"{"tool":"Bash"}"#) });
    let results = ChatEvent::ToolResults {
        items: vec![ToolResultItem {
            id: "t1".into(),
            output: "ok".into(),
            is_error: false,
            collab_threads: vec![],
        }],
    };
    match connection_event(&mut inner, results, 1) {
        ChatStep::Results(updates) => {
            assert_eq!((updates.len(), updates[0].row, updates[0].status.as_str()), (1, 8, "complete"));
        }
        _ => panic!(),
    }
    inner.slash_commands = vec![SlashCmd::bare("old")];
    assert!(matches!(
        connection_event(&mut inner, ChatEvent::Commands { commands: vec![] }, 1),
        ChatStep::Commands
    ));
    assert!(inner.slash_commands.is_empty(), "its palette is authoritative");
    connection_usage(&mut inner, 12, None);
    assert_eq!(inner.last_context_tokens, Some(12));
    connection_meta(&mut inner, None, Some("low".into()));
    assert_eq!(inner.last_reasoning.as_deref(), Some("low"));
    assert!(chip_is_activity(" x ") && !chip_is_activity("  "));
}

// --- The ends of turns ---

#[test]
fn a_finished_turn_leaves_its_anchor() {
    let mut inner = test_inner("resident");
    inner.turn.busy = true;
    inner.turn_id = 3;
    inner.turn_user_row = Some(20);
    inner.last_assistant_uuid = Some("u-9".into());
    inner.current = Some(TextRow { row: 4, buf: "x".into(), last_flush: 0 });
    inner.turn.queue.push_back(Outgoing {
        is_tracked: true,
        queue_id: Some(21),
        origin_tag: Some("im".into()),
        ..Default::default()
    });
    let end = begin_turn_end(&mut inner, Wire::Reader, false, false, Some(70), None);
    assert_eq!((end.status, end.usage), ("complete", Some(70)));
    let anchor = end.anchor.unwrap();
    assert_eq!((anchor.row, anchor.anchor.as_str()), (20, "u-9"));
    assert_eq!(end.current.unwrap().row, 4);
    assert!(end.terminal.is_none());
    assert_eq!(inner.last_context_tokens, Some(70));
    let next = finish_turn_end(&mut inner, Wire::Reader, 99);
    assert!(next.still_busy);
    assert_eq!((next.turn_id, inner.turn_user_row), (4, Some(21)));
    assert_eq!(inner.current_origin_tag.as_deref(), Some("im"));
    assert_eq!(inner.clock.started_millis, 99);
    let end = begin_turn_end(&mut inner, Wire::Reader, true, false, None, None);
    assert_eq!(end.status, "error");
    assert!(end.anchor.is_none());
    assert!(end.terminal.is_some(), "it never said anything");
    let next = finish_turn_end(&mut inner, Wire::Reader, 100);
    assert!(next.next.is_none() && !next.still_busy);
    assert_eq!((inner.turn_user_row, inner.turn_id), (None, 4));
    assert_eq!(activity_after(true), ("running", "busy"));
    assert_eq!(activity_after(false), ("idle", "idle"));
    assert_eq!(turn_end_status(true, true), "interrupted");
}

#[test]
fn a_hidden_turn_leaves_no_anchor() {
    let mut inner = test_inner("codex");
    inner.turn_user_row = Some(-4);
    let end = begin_turn_end(
        &mut inner,
        Wire::AppServer,
        false,
        false,
        None,
        Some("turn-1".into()),
    );
    assert!(end.anchor.is_none());
    inner.turn_user_row = Some(4);
    let end = begin_turn_end(
        &mut inner,
        Wire::AppServer,
        false,
        false,
        None,
        Some("turn-1".into()),
    );
    assert_eq!(end.anchor.unwrap().anchor, "turn-1");
    let end = begin_turn_end(&mut inner, Wire::Connection, false, true, Some(9), None);
    assert_eq!((end.status, end.usage), ("interrupted", None));
    assert!(end.anchor.is_none());
}

#[test]
fn rows_left_open_are_handed_out_once() {
    let mut inner = test_inner("codex");
    inner.open_texts.insert(
        "a".into(),
        OpenTextRow { row: 5, buf: "x".into(), last_flush: 0, agent_thread: None },
    );
    inner.tool_rows.insert("t".into(), ToolRow { row: 6, content: doc("{}") });
    let open = take_open_rows(&mut inner, "interrupted");
    assert_eq!((open.texts.len(), open.tools.len()), (1, 1));
    assert_eq!(open.tools[0].status, "interrupted");
    let again = take_open_rows(&mut inner, "interrupted");
    assert_eq!((again.texts.len(), again.tools.len()), (0, 0));
}

#[test]
fn a_child_that_ends() {
    let mut codex = test_inner("codex");
    codex.child = true;
    codex.child_permit = true;
    codex.turn.busy = true;
    assert!(matches!(reader_eof(&mut codex, 4, true), EofPlan::Stale));
    match reader_eof(&mut codex, 0, false) {
        EofPlan::TurnOver { status, notice, .. } => {
            assert_eq!(status, "complete");
            assert!(notice.unwrap().contains("exited without producing any output"));
        }
        _ => panic!(),
    }
    assert!(!codex.child && !codex.child_permit && codex.turn.busy);

    let mut resident = test_inner("resident");
    resident.stdin = true;
    resident.turn.busy = true;
    match reader_eof(&mut resident, 0, false) {
        EofPlan::ResidentGone { status, current, .. } => {
            assert_eq!(status, "error");
            assert!(current.is_none());
        }
        _ => panic!(),
    }
    assert!(!resident.stdin && !resident.turn.busy);
}

#[test]
fn a_lost_connection_stops_a_busy_engine() {
    let mut inner = test_inner("codex");
    assert!(cleanup_disconnected_turn(&mut inner, "error").is_none());
    assert!(!inner.stopped);
    inner.turn.busy = true;
    inner.turn_id = 2;
    inner.turn.queue.push_back(Outgoing {
        is_tracked: true,
        queue_id: Some(8),
        ..Default::default()
    });
    let lost = cleanup_disconnected_turn(&mut inner, "error").unwrap();
    assert_eq!((lost.status.as_str(), lost.turn_id, lost.drained), ("error", 2, vec![8]));
    assert!(lost.row.is_some());
    assert!(inner.stopped && inner.reset_epoch == 1 && !inner.turn.busy);
    assert!(dispatch_overtaken(&inner, 0));
    assert!(!prompt_end_stands(&inner, 0));
}

#[test]
fn a_re_read_of_a_delivery_decides_what_is_known() {
    assert_eq!(receipt_authority(None), HiddenReceiptAuthoritativeState::Unknown);
    assert_eq!(
        receipt_authority(Some(None)),
        HiddenReceiptAuthoritativeState::ConsumedOrMissing
    );
    assert_eq!(
        receipt_authority(Some(Some(StoredDelivery::Consumed))),
        HiddenReceiptAuthoritativeState::ConsumedOrMissing
    );
    assert_eq!(
        receipt_authority(Some(Some(StoredDelivery::Pending))),
        HiddenReceiptAuthoritativeState::Pending
    );
    assert_eq!(
        receipt_authority(Some(Some(StoredDelivery::Other))),
        HiddenReceiptAuthoritativeState::Unknown
    );
}

#[test]
fn a_human_message_brings_a_stopped_engine_back() {
    let mut inner = test_inner("codex");
    inner.stopped = true;
    inner.turn_id = 4;
    resume_for_send(&mut inner);
    assert!(!inner.stopped);
    assert_eq!(inner.turn_id, 4);
}

#[test]
fn a_missing_program_is_answered_only_while_idle() {
    let mut inner = test_inner("codex");
    inner.turn_id = 4;
    assert_eq!(refuse_without_program(&mut inner, true), None);
    assert_eq!(inner.turn_id, 4);
    assert_eq!(refuse_without_program(&mut inner, false), Some(5));
    assert_eq!(inner.turn_id, 5);
    inner.turn.busy = true;
    assert_eq!(refuse_without_program(&mut inner, false), None);
    assert_eq!(inner.turn_id, 5);
}

#[test]
fn a_slot_goes_with_its_process() {
    let mut inner = test_inner("codex");
    assert!(!inner.child && !inner.child_permit);
    assert_eq!(turn_process_spawned(&mut inner, true), 1);
    assert!(inner.child && inner.child_permit);
    invalidate_resident(&mut inner);
    assert!(!inner.child && !inner.child_permit);
    assert_eq!(inner.generation, 2);
}

#[test]
fn an_interrupt_holds_every_launch() {
    let mut inner = test_inner("codex");
    assert!(spawn_admissible(&inner, None));
    inner.interrupting = true;
    assert!(!spawn_admissible(&inner, None));
}

#[test]
fn a_message_is_put_together_and_its_digest_is_not_stored() {
    let image = || vec![("image/png".to_string(), "QQ==".to_string())];
    let files = strings(&["/f"]);
    let mut inner = test_inner("codex");
    let ctx = reserve_send(&mut inner, "see", Some("tag".into()), false, 1).ok().unwrap();
    assert!(images_spill(&ctx.tool, &image()));
    assert!(!images_spill(&ctx.tool, &vec![]));
    let written = strings(&["/tmp/i.png"]);
    let body = "see\n\nAttached files (read them as needed):\n- /f\n\n\nAttached images (read them as needed):\n- /tmp/i.png\n";
    let (out, kept) =
        compose_outgoing(&ctx, 7, "see", image(), &files, &written, Some("past secrets"));
    assert_eq!(out.text, format!("past secrets\n\n{body}"));
    assert!(out.images.is_empty());
    assert!(out.is_tracked && out.has_attachments);
    assert_eq!(out.origin_tag.as_deref(), Some("tag"));
    assert_eq!(out.queue_id, None, "it goes out now");
    let kept = kept.unwrap();
    assert_eq!(doc(&kept).str_at("dispatched"), Some(body));
    assert!(!kept.contains("past secrets"));
    let (plain, again) = compose_outgoing(&ctx, 7, "see", image(), &files, &written, Some(""));
    assert_eq!(plain.text, body);
    assert_eq!(again, Some(kept));

    let queued = reserve_send(&mut inner, "more", None, false, 2).ok().unwrap();
    let (out, kept) = compose_outgoing(&queued, 8, "more", vec![], &vec![], &vec![], None);
    assert_eq!((out.text.as_str(), out.queue_id, kept), ("more", Some(8), None));
    assert!(!out.has_attachments);

    let mut resident = test_inner("resident");
    let ctx = reserve_send(&mut resident, "see", None, false, 1).ok().unwrap();
    assert!(!images_spill(&ctx.tool, &image()));
    let (out, kept) = compose_outgoing(&ctx, 9, "see", image(), &vec![], &vec![], Some("past"));
    assert_eq!((out.text.as_str(), kept), ("past\n\nsee", None));
    assert_eq!(out.images, image());
    assert!(out.has_attachments);
}

#[test]
fn what_counts_as_a_sign_of_work() {
    let delta = ChatEvent::TextDelta { text: "x".into(), item: None, agent_thread: None };
    let done = ChatEvent::TextDone { item: None, text: None, agent_thread: None };
    let results = ChatEvent::ToolResults { items: vec![] };
    for wire in [Wire::Reader, Wire::AppServer, Wire::Connection] {
        assert!(may_be_activity(wire, &delta));
        assert!(may_be_activity(wire, &results));
    }
    assert!(may_be_activity(Wire::AppServer, &done));
    assert!(!may_be_activity(Wire::Connection, &done));
    assert!(may_be_activity(Wire::Reader, &ChatEvent::Other));
    assert!(!may_be_activity(Wire::AppServer, &ChatEvent::Other));
    assert!(ends_thinking(&delta));
    assert!(!ends_thinking(&results));
    let mut inner = test_inner("omp");
    assert_eq!(follow_up_returned(&inner, true, false), (true, false));
    assert_eq!(follow_up_returned(&inner, false, true), (false, true));
    inner.interrupting = true;
    assert_eq!(follow_up_returned(&inner, false, false), (false, true));
}

#[test]
fn which_rows_of_a_batch_count() {
    assert!(!row_counts(&RowStep::Skip));
    assert!(!row_counts(&RowStep::EnsureResident));
    assert!(row_counts(&RowStep::Represented));
    assert!(row_counts(&RowStep::Queued));
    assert!(row_counts(&RowStep::Write { turn_id: 1, out: Outgoing::default() }));
    assert!(row_counts(&RowStep::Spawn { turn_id: 1, epoch: 0, out: Outgoing::default() }));
}
