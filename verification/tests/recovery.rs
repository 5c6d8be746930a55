//! Recovery after a restart, rewinding, stopping and interrupting.

use std::collections::HashSet;

use lead_chat::control::{
    begin_stop, edited_content, finish_stop, force_acp_turn_reset,
    forced_reset_row, interrupt, kill_is_due, mark_stopped, queue_edit, queue_remove,
    queue_reorder, reset_done, reset_ignored_cancel_turn, switch_interrupted, InterruptPlan,
    QueueError,
};
use lead_chat::delivery::{
    durable_batch_may_resume, pending_hidden_rows_at_admission, reset_failed_hidden_turn,
    DurableResumeAuthorization, HiddenRow,
};
use lead_chat::engine::{
    mark_hidden_turn_started, mark_hidden_turn_started_with_delivery, EngineInner, OpenTextRow,
    TextRow, ToolRow,
};
use lead_chat::json::Json;
use lead_chat::registry::LeadChatState;
use lead_chat::revive::{
    collect_pending_lead_targets, collect_targets, has_blocking_permission, nudge_engine_if_idle,
    pending_lead_can_start, OpenAsk, PendingLeadTarget, PendingRow, StoredDirection,
    StoredSession, StoredThread, WorkerTarget,
};
use lead_chat::rewind::{
    begin_rewind, checkpoint_due, checkpoint_source_stands, code_target, end_rewind, plan_fork,
    plan_rewind, resolve_code_target, rewind_marker, rewind_ordinal, rewind_outcome,
    sibling_turn_busy, ForkPlan, Peer, RewindError, RewindMode, Sibling, TimelineRow,
};
use lead_chat::rows::LeadMessage;
use lead_chat::sending::{invalidate_resident, send_blocked, send_reservation_valid, SendContext};
use lead_chat::turn::Outgoing;
use lead_chat::turn_end::{persist_disconnected_turn_row, terminal_content, DisconnectedTurnRow};

fn test_inner(tool: &str) -> EngineInner {
    let mut inner = EngineInner::fresh(1, None, tool);
    inner.ask_dir = "lead".into();
    inner
}

fn stored(lead: Option<&str>, worker: &str) -> Vec<StoredThread> {
    vec![StoredThread {
        id: 3,
        lead_has_native: true,
        lead_status: lead.map(String::from),
        directions: vec![StoredDirection {
            id: 5,
            status: "working".into(),
            session: Some(StoredSession {
                id: 8,
                repo_id: 2,
                has_native: true,
                status: worker.into(),
            }),
        }],
    }]
}

#[test]
fn only_persisted_running_targets_are_revived() {
    let (leads, workers) = collect_targets(&stored(Some("running"), "running"), &HashSet::new());
    assert_eq!(leads, vec![3]);
    assert_eq!(workers.len(), 1);
    assert_eq!(
        workers[0],
        WorkerTarget { direction_id: 5, repo_id: 2, thread_id: 3, session_id: 8 }
    );
}

#[test]
fn idle_incomplete_work_is_not_redriven() {
    let (leads, workers) = collect_targets(&stored(Some("idle"), "idle"), &HashSet::new());
    assert!(leads.is_empty());
    assert!(workers.is_empty());
}

#[test]
fn legacy_stalled_status_is_ignored_without_error() {
    let (leads, workers) = collect_targets(&stored(Some("stalled"), "stalled"), &HashSet::new());
    assert!(leads.is_empty());
    assert!(workers.is_empty());
}

#[test]
fn live_engine_keys_are_not_revived_twice() {
    let live = HashSet::from([-3i64, 8i64]);
    let (leads, workers) = collect_targets(&stored(Some("running"), "running"), &live);
    assert!(leads.is_empty());
    assert!(workers.is_empty());
}

#[test]
fn done_directions_and_fresh_sessions_are_not_revived() {
    let mut threads = stored(None, "running");
    threads[0].directions[0].status = "done".into();
    assert!(collect_targets(&threads, &HashSet::new()).1.is_empty());
    let mut threads = stored(Some("running"), "running");
    threads[0].lead_has_native = false;
    threads[0].directions[0].session.as_mut().unwrap().has_native = false;
    let (leads, workers) = collect_targets(&threads, &HashSet::new());
    assert!(leads.is_empty() && workers.is_empty());
    threads[0].directions[0].session = None;
    assert!(collect_targets(&threads, &HashSet::new()).1.is_empty());
}

fn pending(thread_id: i32, kind: &str) -> PendingRow {
    PendingRow { thread_id, source_kind: kind.into() }
}

#[test]
fn disk_restart_recovers_one_plan_batch_in_row_id_order() {
    let rows = vec![pending(7, "repo_action"), pending(7, "plan_decision")];
    let targets = collect_pending_lead_targets(&rows, &HashSet::new(), &HashSet::new());
    assert_eq!(
        targets,
        vec![PendingLeadTarget { thread_id: 7, has_plan_decision: true }]
    );
    assert!(pending_lead_can_start(Some("stopped"), true));
    assert!(collect_pending_lead_targets(&vec![], &HashSet::new(), &HashSet::new()).is_empty());
}

#[test]
fn disk_restart_defers_repo_only_batch_for_stopped_lead() {
    let rows = vec![pending(7, "repo_action")];
    let targets = collect_pending_lead_targets(&rows, &HashSet::new(), &HashSet::new());
    assert_eq!(targets.len(), 1);
    assert!(!targets[0].has_plan_decision);
    assert!(!pending_lead_can_start(Some("stopped"), targets[0].has_plan_decision));
    assert!(pending_lead_can_start(Some("idle"), false));
    assert!(pending_lead_can_start(None, false));
}

#[test]
fn attended_leads_get_no_second_task() {
    let rows = vec![pending(7, "repo_action"), pending(9, "repo_action"), pending(4, "x")];
    let targets =
        collect_pending_lead_targets(&rows, &HashSet::from([-7i64]), &HashSet::from([9]));
    assert_eq!(
        targets,
        vec![PendingLeadTarget { thread_id: 4, has_plan_decision: false }]
    );
}

#[test]
fn a_permission_request_blocks_only_its_own_direction() {
    let asks = vec![OpenAsk { thread: 3, dir: String::new() }, OpenAsk { thread: 4, dir: "12".into() }];
    assert!(has_blocking_permission(&asks, "lead", 3), "unlabelled asks are the lead's");
    assert!(!has_blocking_permission(&asks, "12", 3));
    assert!(has_blocking_permission(&asks, "12", 4));
    assert!(!has_blocking_permission(&asks, "lead", 4));
}

#[test]
fn a_busy_engine_is_not_told_to_go_on() {
    let mut inner = test_inner("codex");
    assert!(nudge_engine_if_idle(&inner));
    inner.turn.busy = true;
    assert!(!nudge_engine_if_idle(&inner));
}

#[test]
fn worker_liveness_requires_an_active_turn() {
    let mut state = LeadChatState::new();
    let mut engine = test_inner("resident");
    state.get_or_insert(42, 1);
    assert!(!state.worker_is_running(42, Some(&engine)));
    engine.turn.busy = true;
    assert!(state.worker_is_running(42, Some(&engine)));
    engine.turn.busy = false;
    assert!(!state.worker_is_running(42, Some(&engine)));
    assert!(state.worker_is_running(42, None), "an engine under change counts as live");
    assert!(!state.worker_is_running(43, None), "no engine, no worker");
}

#[test]
fn terminal_error_without_current_row_is_persisted() {
    let content = terminal_content("error").expect("error turn should create an assistant row");
    assert_eq!(content, r#"{"terminal":"error_before_output"}"#);
    let content = Json::parse(&content).unwrap();
    assert_eq!(content.str_at("terminal"), Some("error_before_output"));
    assert_eq!(
        terminal_content("interrupted").unwrap(),
        r#"{"terminal":"interrupted_before_output"}"#
    );
    assert!(terminal_content("complete").is_none());
}

#[test]
fn disconnected_busy_turn_without_current_row_persists_terminal_error() {
    match persist_disconnected_turn_row("error", true, None) {
        Some(DisconnectedTurnRow::Inserted { content }) => {
            let v = Json::parse(&content).unwrap();
            assert_eq!(v.str_at("terminal"), Some("error_before_output"));
        }
        _ => panic!("busy disconnected turn without current should insert terminal row"),
    }
    assert!(persist_disconnected_turn_row("error", false, None).is_none());
    let current = Some(TextRow { row: 4, buf: "half".into(), last_flush: 0 });
    match persist_disconnected_turn_row("error", true, current) {
        Some(DisconnectedTurnRow::Finalized { message_id, content }) => {
            assert_eq!((message_id, content.as_str()), (4, r#"{"text":"half"}"#));
        }
        _ => panic!("the open row is frozen as it stands"),
    }
}

fn hidden(id: i32, kind: &str) -> HiddenRow {
    HiddenRow {
        id,
        thread_id: 1,
        source_kind: kind.into(),
        source_id: 1,
        dedupe_key: String::new(),
        payload: "{}".into(),
        pending: true,
    }
}

#[test]
fn durable_batch_fifo_keeps_older_repo_before_plan_resume() {
    let rows = pending_hidden_rows_at_admission(vec![
        Some(hidden(6, "repo_action")),
        Some(hidden(7, "plan_decision")),
    ]);
    assert_eq!(
        rows.iter().map(|r| r.source_kind.as_str()).collect::<Vec<_>>(),
        vec!["repo_action", "plan_decision"]
    );
    assert_eq!(rows.iter().map(|r| r.id).collect::<Vec<_>>(), vec![6, 7]);
    assert!(durable_batch_may_resume(&rows, DurableResumeAuthorization::Background));
}

#[test]
fn stopped_repo_only_batch_defers_without_resume_authorization() {
    let rows = pending_hidden_rows_at_admission(vec![Some(hidden(8, "repo_action"))]);
    assert!(!durable_batch_may_resume(&rows, DurableResumeAuthorization::Background));
    assert!(durable_batch_may_resume(&rows, DurableResumeAuthorization::Visible));
}

#[test]
fn pending_hidden_admission_skips_consumed_row_with_stale_marker() {
    let mut inner = test_inner("codex");
    mark_hidden_turn_started_with_delivery(&mut inner, Some(9), 1);
    assert_eq!(inner.turn_user_row, Some(-9));
    let mut consumed = hidden(9, "repo_action");
    consumed.pending = false;
    let rows = pending_hidden_rows_at_admission(vec![Some(consumed)]);
    assert!(rows.is_empty(), "consumed DB state is authoritative");
    assert_eq!(inner.turn_user_row, Some(-9), "marker clear is deferred");
}

#[test]
fn pending_hidden_admission_skips_deleted_row_with_stale_marker() {
    let mut inner = test_inner("opencode");
    mark_hidden_turn_started_with_delivery(&mut inner, Some(9), 1);
    let rows = pending_hidden_rows_at_admission(vec![None]);
    assert!(rows.is_empty(), "deleted DB state is authoritative");
}

#[test]
fn stop_quiet_releases_the_session_gate_slot() {
    let mut inner = test_inner("resident");
    inner.child = true;
    inner.child_permit = true;
    inner.stdin = true;
    inner.acp_pending_asks = vec![4];
    inner.turn.busy = true;
    inner.turn.queue.push_back(Outgoing { queue_id: Some(3), ..Default::default() });
    inner.current = Some(TextRow { row: 10, buf: "partial".into(), last_flush: 0 });
    inner.open_texts.insert(
        "item".into(),
        OpenTextRow { row: 11, buf: "other".into(), last_flush: 0, agent_thread: Some("sub".into()) },
    );
    inner.tool_rows.insert("call".into(), ToolRow { row: 12, content: Json::Obj(vec![]) });

    let start = begin_stop(&mut inner);
    assert!(inner.tearing_down, "nothing is admitted while the stop is in progress");
    assert_eq!(inner.reset_epoch, 1);
    assert_eq!(inner.generation, 1);
    assert!(start.child);
    assert!(start.outcome.was_busy);
    assert_eq!(start.outcome.acp_asks, vec![4]);
    assert_eq!(
        start
            .outcome
            .texts
            .iter()
            .map(|t| (t.row, t.text.as_str(), t.agent_thread.as_deref()))
            .collect::<Vec<_>>(),
        vec![(10, "partial", None), (11, "other", Some("sub"))]
    );
    assert_eq!(start.outcome.orphans.len(), 1);
    assert!(switch_interrupted(&start.outcome, 0));

    finish_stop(&mut inner);
    assert!(!inner.child_permit && !inner.child && !inner.stdin && !inner.tearing_down);
    assert!(!inner.turn.busy && inner.turn.queue.is_empty());
    assert!(!inner.stopped, "a quiet stop leaves the engine usable");
    mark_stopped(&mut inner);
    assert!(inner.stopped);
}

#[test]
fn an_idle_teardown_interrupts_nothing() {
    let mut inner = test_inner("resident");
    let start = begin_stop(&mut inner);
    assert!(!switch_interrupted(&start.outcome, 0));
    assert!(switch_interrupted(&start.outcome, 1), "a queued message was cut short");
}

#[test]
fn invalidate_resident_releases_the_session_gate_slot() {
    let mut inner = test_inner("resident");
    inner.child = true;
    inner.child_permit = true;
    inner.stdin = true;
    invalidate_resident(&mut inner);
    assert!(!inner.child_permit);
    assert!(!inner.stdin);
}

#[test]
fn reset_failed_hidden_turn_releases_the_session_gate_slot() {
    let mut inner = test_inner("resident");
    inner.child_permit = true;
    let turn_id = mark_hidden_turn_started(&mut inner, 1);
    assert!(reset_failed_hidden_turn(&mut inner, turn_id).is_some());
    assert!(!inner.child_permit);
}

#[test]
fn reset_ignored_cancel_turn_releases_the_slot_only_for_the_turn_it_owns() {
    let mut owned = test_inner("codex");
    owned.turn.busy = true;
    owned.turn_id = 5;
    owned.child_permit = true;
    assert!(reset_ignored_cancel_turn(&mut owned, 5).is_some());
    assert!(!owned.child_permit);

    let mut newer = test_inner("codex");
    newer.turn.busy = true;
    newer.turn_id = 6;
    newer.child_permit = true;
    assert!(reset_ignored_cancel_turn(&mut newer, 5).is_none());
    assert!(newer.child_permit, "a newer turn keeps the slot its child is still using");
}

#[test]
fn a_forced_reset_abandons_the_session() {
    let mut inner = test_inner("omp");
    inner.turn.busy = true;
    inner.turn_id = 5;
    inner.native_id = Some("sess".into());
    inner.acp_client = true;
    assert!(force_acp_turn_reset(&mut inner, 4, 0).is_none(), "another turn");
    assert!(force_acp_turn_reset(&mut inner, 5, 1).is_none(), "another epoch");
    let reset = force_acp_turn_reset(&mut inner, 5, 0).unwrap();
    assert_eq!(reset.session.as_deref(), Some("sess"));
    assert!(reset.connected);
    assert_eq!(inner.native_id, None);
    assert_eq!(inner.reset_epoch, 1);
    assert!(inner.tearing_down);
    reset_done(&mut inner);
    assert!(!inner.tearing_down);

    let mut process = test_inner("codex");
    process.turn.busy = true;
    process.turn_id = 5;
    assert!(force_acp_turn_reset(&mut process, 5, 0).is_none(), "only the connection backend");

    assert!(matches!(
        forced_reset_row(None, 0, false),
        Some(DisconnectedTurnRow::Inserted { .. })
    ));
    assert!(forced_reset_row(None, 0, true).is_none());
    assert!(forced_reset_row(None, 1, false).is_none());
}

#[test]
fn a_stop_outdates_what_was_reserved_before_it() {
    let mut inner = test_inner("resident");
    inner.turn.busy = true;
    inner.turn_id = 5;
    let ctx = SendContext {
        thread_id: 1,
        session_id: None,
        turn: 5,
        direct: false,
        is_command: false,
        tool: "resident".into(),
        origin_tag: None,
        reset_epoch: inner.reset_epoch,
    };
    assert!(send_reservation_valid(&inner, &ctx));
    begin_stop(&mut inner);
    assert!(!send_reservation_valid(&inner, &ctx));
    finish_stop(&mut inner);
    assert!(!send_reservation_valid(&inner, &ctx), "also after the engine is usable again");
}

#[test]
fn interrupting_goes_by_the_transport() {
    let mut idle = test_inner("codex");
    assert!(matches!(interrupt(&mut idle, true, false), InterruptPlan::Idle));
    assert!(!idle.interrupting);

    let mut inner = test_inner("codex");
    inner.turn.busy = true;
    inner.native_id = Some("t1".into());
    inner.codex_client = true;
    match interrupt(&mut inner, true, false) {
        InterruptPlan::AppServer { thread, connected } => {
            assert_eq!(thread.as_deref(), Some("t1"));
            assert!(connected);
        }
        _ => panic!("over the app-server"),
    }
    assert!(inner.interrupting);
    assert!(matches!(interrupt(&mut inner, false, false), InterruptPlan::KillChild));

    let mut omp = test_inner("omp");
    omp.turn.busy = true;
    omp.turn_id = 4;
    omp.acp_pending_asks = vec![7, 9];
    match interrupt(&mut omp, true, false) {
        InterruptPlan::Connection { asks, turn_id, epoch, .. } => {
            assert_eq!((asks, turn_id, epoch), (vec![7, 9], 4, 0));
        }
        _ => panic!("over the connection"),
    }
    assert!(omp.acp_pending_asks.is_empty());

    let mut resident = test_inner("resident");
    resident.turn.busy = true;
    resident.generation = 3;
    match interrupt(&mut resident, true, true) {
        InterruptPlan::Ask { generation } => assert_eq!(generation, 3),
        _ => panic!("ask first"),
    }
    assert!(kill_is_due(&resident, 3));
    assert!(!kill_is_due(&resident, 2));
    resident.turn.busy = false;
    assert!(!kill_is_due(&resident, 3));
}

#[test]
fn queue_edit_preserves_images_and_files_in_persisted_row() {
    let original = r#"{"text":"original text","images":[{"data":"abc","media_type":"image/png"}],"files":["/tmp/attach.txt"]}"#;
    let content = Json::parse(&edited_content(Some(original), "edited text").unwrap()).unwrap();
    assert_eq!(content.str_at("text"), Some("edited text"));
    assert_eq!(content.arr_at("images").unwrap().len(), 1, "images must be preserved");
    assert_eq!(content.arr_at("files").unwrap()[0].as_str(), Some("/tmp/attach.txt"));
}

#[test]
fn edited_content_of_odd_rows() {
    assert_eq!(
        edited_content(None, "x").unwrap(),
        r#"{"files":[],"images":[],"text":"x"}"#
    );
    assert_eq!(edited_content(Some("not json"), "x").unwrap(), r#"{"text":"x"}"#);
    assert_eq!(edited_content(Some("null"), "x").unwrap(), r#"{"text":"x"}"#);
    assert!(edited_content(Some("[1]"), "x").is_none());
}

#[test]
fn queue_changes_and_their_refusals() {
    let mut inner = test_inner("resident");
    for id in [1, 2] {
        inner.turn.queue.push_back(Outgoing {
            text: format!("m{id}"),
            queue_id: Some(id),
            has_attachments: id == 2,
            ..Default::default()
        });
    }
    assert_eq!(queue_edit(&mut inner, 1, "  "), Err(QueueError::Empty));
    assert_eq!(queue_edit(&mut inner, 2, "x"), Err(QueueError::NotEditable));
    assert_eq!(queue_edit(&mut inner, 3, "x"), Ok(false));
    assert_eq!(queue_edit(&mut inner, 1, "new"), Ok(true));
    assert_eq!(inner.turn.queue[0].text, "new");
    assert_eq!(queue_reorder(&mut inner, &[2]), Err(QueueError::BadOrder));
    assert_eq!(queue_reorder(&mut inner, &[2, 1]), Ok(()));
    assert!(queue_remove(&mut inner, 2));
    assert!(!queue_remove(&mut inner, 2), "removing again is no error");
    assert_eq!(QueueError::Empty.code(), "empty");
    assert_eq!(QueueError::NotEditable.code(), "not_editable");
    assert_eq!(QueueError::BadOrder.code(), "bad_order");
}

#[test]
fn rewind_modes() {
    assert_eq!(RewindMode::parse("conversation"), Ok(RewindMode::Conversation));
    assert_eq!(RewindMode::parse("code"), Ok(RewindMode::Code));
    assert_eq!(RewindMode::parse("both"), Ok(RewindMode::Both));
    assert_eq!(RewindMode::parse("Both"), Err("invalid rewind mode: Both".to_string()));
}

#[test]
fn a_rewind_reserves_an_idle_engine() {
    let mut inner = test_inner("resident");
    inner.turn.busy = true;
    assert_eq!(begin_rewind(&mut inner), Err(RewindError::Busy));
    inner.turn.busy = false;
    assert_eq!(begin_rewind(&mut inner), Ok(()));
    assert!(send_blocked(&inner).is_some(), "no message enters meanwhile");
    assert_eq!(begin_rewind(&mut inner), Err(RewindError::Rewinding));
    end_rewind(&mut inner);
    assert!(send_blocked(&inner).is_none());
}

fn timeline_row(id: i32, role: &str, status: &str, text: &str, anchor: Option<&str>) -> TimelineRow {
    TimelineRow {
        message: LeadMessage {
            id,
            thread_id: 1,
            session_id: Some(4),
            turn_id: id * 10,
            role: role.into(),
            kind: "text".into(),
            content: format!(r#"{{"text":"{text}"}}"#),
            status: status.into(),
            created_at: "0".into(),
            seq: None,
            native_anchor: anchor.map(String::from),
            consumed_at: None,
        },
        delivered: role == "user" && status == "complete",
        dispatched: text.into(),
    }
}

fn timeline() -> Vec<TimelineRow> {
    let mut foreign = timeline_row(2, "user", "complete", "elsewhere", Some("zz"));
    foreign.message.session_id = None;
    vec![
        timeline_row(1, "user", "complete", "hello", Some("u-1")),
        foreign,
        timeline_row(3, "assistant", "complete", "hi", None),
        timeline_row(4, "user", "error", "hello", Some("never")),
        timeline_row(5, "user", "complete", "hello", None),
        timeline_row(6, "user", "queued", "later", None),
    ]
}

#[test]
fn a_rewind_is_planned_on_its_own_timeline() {
    let rows = timeline();
    let plan = plan_rewind(&rows, Some(4), 5, RewindMode::Conversation).ok().unwrap();
    assert_eq!(plan.target_turn, 50);
    assert_eq!(plan.rewound_text, "hello");
    assert_eq!(plan.deleted_ids, vec![5, 6]);
    assert!(plan.has_previous);
    assert_eq!(plan.anchor.as_deref(), Some("u-1"), "undelivered rows do not count");
    assert_eq!(plan.user_texts, vec!["hello", "hello"]);
    assert_eq!(rewind_ordinal("opencode", &plan.user_texts, &plan.match_text), 2);

    let first = plan_rewind(&rows, Some(4), 1, RewindMode::Both).ok().unwrap();
    assert!(!first.has_previous);
    assert_eq!(first.anchor, None);
    assert_eq!(first.deleted_ids, vec![1, 3, 4, 5, 6]);
    let code = plan_rewind(&rows, Some(4), 5, RewindMode::Code).ok().unwrap();
    assert!(code.deleted_ids.is_empty());
}

#[test]
fn rewinds_that_are_refused() {
    let rows = timeline();
    let refused = |session, id, mode| plan_rewind(&rows, session, id, mode).err().unwrap();
    assert_eq!(refused(None, 2, RewindMode::Code), RewindError::LeadHasNoWorktree);
    assert_eq!(refused(Some(4), 2, RewindMode::Both), RewindError::NoSuchMessage);
    assert_eq!(refused(Some(4), 3, RewindMode::Both), RewindError::NotUserMessage);
    assert_eq!(refused(Some(4), 4, RewindMode::Both), RewindError::NotComplete);
    assert_eq!(RewindError::NoSuchMessage.message(), "消息不存在");
}

#[test]
fn forks_go_by_the_dialect() {
    let rows = timeline();
    let plan = plan_rewind(&rows, Some(4), 5, RewindMode::Conversation).ok().unwrap();
    let first = plan_rewind(&rows, Some(4), 1, RewindMode::Conversation).ok().unwrap();
    let fork = |tool: &str, native, plan, ordinal, appserver| {
        plan_fork(tool, "resident", RewindMode::Conversation, native, plan, ordinal, appserver)
    };
    assert!(matches!(
        fork("resident", Some("n"), &plan, 2, true),
        Ok(ForkPlan::TranscriptAfter { native, uuid }) if native == "n" && uuid == "u-1"
    ));
    assert!(matches!(
        fork("resident", Some("n"), &first, 1, true),
        Ok(ForkPlan::TranscriptBefore { ordinal: 1, .. })
    ));
    assert_eq!(fork("resident", Some("n"), &first, 0, true).unwrap_err(), RewindError::NoAnchor);
    assert!(matches!(fork("resident", None, &plan, 0, true), Ok(ForkPlan::Nothing)));
    assert_eq!(fork("codex", Some("n"), &plan, 1, false).unwrap_err(), RewindError::ExecUnsupported);
    assert!(matches!(
        fork("codex", Some("n"), &plan, 0, true),
        Ok(ForkPlan::Thread { turn, .. }) if turn == "u-1"
    ));
    assert!(matches!(fork("codex", Some("n"), &first, 0, true), Ok(ForkPlan::Nothing)));
    assert!(matches!(
        fork("opencode", Some("n"), &plan, 2, true),
        Ok(ForkPlan::Served { ordinal: 2, .. })
    ));
    assert!(matches!(
        fork("omp", Some("n"), &plan, 2, true),
        Ok(ForkPlan::SessionFile { ordinal: 2, .. })
    ));
    assert_eq!(fork("omp", Some("n"), &plan, 0, true).unwrap_err(), RewindError::NoAnchor);
    assert_eq!(fork("mystery", Some("n"), &plan, 1, true).unwrap_err(), RewindError::ToolUnsupported);
    assert!(matches!(
        plan_fork("mystery", "resident", RewindMode::Code, Some("n"), &plan, 0, false),
        Ok(ForkPlan::Nothing)
    ));
}

#[test]
fn ordinals_even_out_white_space() {
    let texts = vec!["hello  world".to_string(), " hello\nworld ".to_string(), "hello".to_string()];
    assert_eq!(rewind_ordinal("codex", &texts, "hello world"), 2);
    assert_eq!(rewind_ordinal("codex", &texts, "helloworld"), 0);
}

#[test]
fn code_restores_that_are_refused() {
    assert_eq!(
        resolve_code_target(false, false, Some("[]"), Some(4)),
        Err(RewindError::ReusedCheckout)
    );
    assert_eq!(
        resolve_code_target(true, true, Some("[]"), Some(4)),
        Err(RewindError::HasSubmodules)
    );
    assert_eq!(resolve_code_target(true, false, None, Some(4)), Err(RewindError::NoCheckpoint));
    assert_eq!(
        resolve_code_target(true, false, Some(r#"["a/b"]"#), Some(4)),
        Err(RewindError::NestedRepos)
    );
    assert_eq!(
        resolve_code_target(true, false, Some("[]"), None),
        Err(RewindError::LeadHasNoWorktree)
    );
    assert_eq!(resolve_code_target(true, false, Some("[]"), Some(4)), Ok(4));
    assert_eq!(resolve_code_target(true, false, Some("broken"), Some(4)), Ok(4));
    assert_eq!(resolve_code_target(true, false, Some("[1]"), Some(4)), Ok(4));
    let (none, some) = (vec![], vec!["a/b".to_string()]);
    assert_eq!(code_target(true, false, Some(&none), Some(4)), Ok(4));
    assert_eq!(code_target(true, false, Some(&some), Some(4)), Err(RewindError::NestedRepos));
    assert_eq!(code_target(true, false, None, Some(4)), Err(RewindError::NoCheckpoint));
    assert_eq!(code_target(true, false, Some(&none), None), Err(RewindError::LeadHasNoWorktree));
}

#[test]
fn what_a_rewind_hands_back() {
    let rows = vec![timeline_row(5, "user", "complete", "again", None)];
    let planned = |mode| plan_rewind(&rows, Some(4), 5, mode).ok().unwrap();
    let text = planned(RewindMode::Both).rewound_text;
    assert_eq!(text, "again");
    let forked = || Some("fork".to_string());
    let both = rewind_outcome(RewindMode::Both, planned(RewindMode::Both), 3, forked(), true);
    assert_eq!((both.rewound_text, both.deleted, both.native_id), (text, 3, forked()));
    assert!(both.code_restored);
    let talk =
        rewind_outcome(RewindMode::Conversation, planned(RewindMode::Conversation), 1, None, false);
    assert_eq!((talk.deleted, talk.native_id, talk.code_restored), (1, None, false));
    let code = rewind_outcome(RewindMode::Code, planned(RewindMode::Code), 3, forked(), true);
    assert_eq!((code.rewound_text.as_str(), code.deleted, code.native_id), ("", 0, None));
    assert!(code.code_restored);
}

#[test]
fn checkpoints_and_siblings() {
    let sib = |session_id, peer| Sibling { session_id, peer };
    assert!(!sibling_turn_busy(&vec![sib(4, Peer::Busy), sib(5, Peer::Idle), sib(6, Peer::Absent)], 4));
    assert!(sibling_turn_busy(&vec![sib(5, Peer::Locked)], 4));
    assert!(sibling_turn_busy(&vec![sib(5, Peer::Busy)], 4));
    assert!(checkpoint_due(true, false, true, false));
    assert!(!checkpoint_due(true, true, true, false));
    let row = timeline_row(1, "user", "complete", "x", None);
    assert!(checkpoint_source_stands(&row.message, 1, 4, 10));
    assert!(!checkpoint_source_stands(&row.message, 1, 5, 10));
    assert_eq!(rewind_marker(5, 2), r#"{"deleted":2,"from_message_id":5}"#);
}
