//! The engine's state: reservations, hidden turns, receipts and resets.

use lead_chat::control::{reset_ignored_cancel_turn, take_acp_teardown_and_invalidate};
use lead_chat::delivery::{
    durable_hidden_delivery_text, finish_hidden_receipt, hidden_delivery_is_duplicate,
    hidden_delivery_tag, hidden_turn_admissible, plan_approval_admissible,
    register_hidden_receipt, reset_failed_hidden_turn, should_ensure_active_resident, HiddenRow,
};
use lead_chat::engine::{
    hidden_delivery, mark_hidden_turn_started, mark_hidden_turn_started_with_delivery, per_turn,
    EngineInner, HiddenDelivery, OpenTextRow, TextRow, ToolRow, TurnClock,
};
use lead_chat::json::Json;
use lead_chat::registry::ReceiptRegistry;
use lead_chat::sending::{
    codex_first_turn_text, promote_queued_reservation, send_reservation_valid, SendContext,
};
use lead_chat::streaming::advance_dequeued_turn;
use lead_chat::turn::Outgoing;
use lead_chat::turn_end::queued_dispatch_admissible;

fn test_inner(tool: &str) -> EngineInner {
    let mut inner = EngineInner::fresh(1, None, tool);
    inner.cwd = "/tmp".into();
    inner.ask_dir = "lead".into();
    inner
}

fn bash() -> Json {
    Json::parse(r#"{"tool": "bash"}"#).unwrap()
}

/// Stop must actually stop. `interrupt()` sets `interrupting` without
/// bumping the epoch, so a Stop landing between `on_turn_end` promoting a
/// queued item and its dispatch cancels nothing and leaves the epoch
/// matching — and the queued prompt ran anyway, executing tools, after the
/// user had pressed Stop.
#[test]
fn a_queued_prompt_is_not_dispatched_after_stop() {
    let mut inner = test_inner("omp");
    let epoch = inner.reset_epoch;
    assert!(
        queued_dispatch_admissible(&inner, epoch),
        "baseline: an idle engine dispatches its queue"
    );

    inner.interrupting = true;
    assert!(
        !queued_dispatch_admissible(&inner, epoch),
        "Stop must block the dispatch even though it leaves the epoch alone"
    );

    inner.interrupting = false;
    inner.stopped = true;
    assert!(!queued_dispatch_admissible(&inner, epoch));

    inner.stopped = false;
    inner.tearing_down = true;
    assert!(!queued_dispatch_admissible(&inner, epoch));

    inner.tearing_down = false;
    assert!(
        !queued_dispatch_admissible(&inner, epoch + 1),
        "a reset still invalidates"
    );
    assert!(
        queued_dispatch_admissible(&inner, epoch),
        "and recovers otherwise"
    );
}

/// Hidden delivery bypasses `send_reservation_valid` entirely, so the
/// teardown reservation has to be enforced on its own path — otherwise a
/// bus wake starts a native session during cleanup and the older reset
/// clears its id and emits idle over it.
#[test]
fn a_hidden_turn_is_refused_while_a_teardown_is_reserved() {
    let mut inner = test_inner("omp");
    assert!(
        hidden_turn_admissible(&inner),
        "baseline: idle engine accepts"
    );

    inner.tearing_down = true;
    assert!(
        !hidden_turn_admissible(&inner),
        "a reserved teardown refuses"
    );

    inner.tearing_down = false;
    inner.stopped = true;
    assert!(!hidden_turn_admissible(&inner), "a stopped engine refuses");

    inner.stopped = false;
    assert!(
        hidden_turn_admissible(&inner),
        "and accepts again afterwards"
    );
}

#[test]
fn durable_hidden_ensure_policy_covers_active_and_stopped_matrix() {
    let mut active = test_inner("resident");
    active.stopped = false;
    assert!(
        should_ensure_active_resident(&active, false, Some(7)),
        "active cold resident hydration must ensure/start before delivery"
    );
    assert!(
        should_ensure_active_resident(&active, true, None),
        "explicit nudge/plan paths still ensure an active resident"
    );

    let mut stopped = test_inner("resident");
    stopped.stopped = true;
    assert!(
        !should_ensure_active_resident(&stopped, false, Some(7)),
        "background repo hydration must not clear or start a stopped lead"
    );
    assert!(
        !should_ensure_active_resident(&stopped, true, None),
        "a stopped generic nudge is refused before ensure"
    );

    // An authorized durable plan clears `stopped` in send_hidden_inner
    // before this policy runs, so it lands in the same active branch.
    stopped.stopped = false;
    assert!(
        should_ensure_active_resident(&stopped, true, Some(8)),
        "explicit plan hydration may revive then ensure the resident"
    );
}

#[test]
fn plan_approval_requires_a_completely_idle_turn_boundary() {
    let mut inner = test_inner("omp");
    assert!(plan_approval_admissible(&inner));

    inner.turn.busy = true;
    assert!(
        !plan_approval_admissible(&inner),
        "an active turn refuses approval"
    );

    inner.turn.busy = false;
    inner.turn.queue.push_back(Outgoing {
        text: "revise the plan first".to_string(),
        ..Default::default()
    });
    assert!(
        !plan_approval_admissible(&inner),
        "queued user intent must run before approval"
    );

    inner.turn.queue.clear();
    inner.turn.bus_read_pos = Some(0);
    assert!(
        !plan_approval_admissible(&inner),
        "a reserved bus wake is already the next turn"
    );

    inner.turn.bus_read_pos = None;
    inner.rewinding = true;
    assert!(
        !plan_approval_admissible(&inner),
        "a native/timeline rewind reservation refuses approval"
    );

    inner.rewinding = false;
    inner.quota_failover_committing = true;
    assert!(
        !plan_approval_admissible(&inner),
        "an engine failover commit refuses approval"
    );
}

/// The teardown window's gate. Bumping the epoch stops work reserved
/// BEFORE a teardown; this stops work admitted DURING one — a send arriving
/// mid-teardown captures the already-bumped epoch, so the epoch check
/// cannot see it, and its queued work would be dropped when the reset
/// replaces `turn` with the default.
#[test]
fn a_send_is_refused_while_a_teardown_holds_the_engine_open() {
    let mut inner = test_inner("omp");
    inner.turn_id = 5;
    inner.turn.busy = true;
    let ctx = SendContext {
        thread_id: 1,
        session_id: None,
        turn: 5,
        direct: true,
        is_command: false,
        tool: "omp".into(),
        origin_tag: None,
        reset_epoch: inner.reset_epoch,
    };
    assert!(
        send_reservation_valid(&inner, &ctx),
        "baseline: this send is otherwise admissible"
    );

    inner.tearing_down = true;
    assert!(
        !send_reservation_valid(&inner, &ctx),
        "a teardown that released the lock for ACP I/O must not admit work"
    );

    inner.tearing_down = false;
    assert!(
        send_reservation_valid(&inner, &ctx),
        "and the engine is usable again once the window closes"
    );
}

/// The whole point of the helper: a teardown that hands out the ACP client
/// has ALREADY invalidated the turn. Splitting these leaves a window in
/// which the engine lock is free, `stopped` is not yet set and the epoch
/// still matches, so an in-flight prompt task passes its ownership check
/// and dispatches the next queued prompt into an engine being torn down.
#[test]
fn acp_teardown_invalidates_the_turn_in_the_step_that_takes_the_client() {
    let mut inner = test_inner("omp");
    inner.native_id = Some("sess-1".into());
    inner.acp_pending_asks = vec![7, 9];
    let before = inner.reset_epoch;

    let taken = take_acp_teardown_and_invalidate(&mut inner);

    assert_eq!(
        inner.reset_epoch,
        before + 1,
        "the epoch must already be advanced when the lock is released for the ACP awaits"
    );
    assert_eq!(taken.session_id.as_deref(), Some("sess-1"));
    assert_eq!(taken.asks, vec![7, 9]);
    assert!(
        inner.acp_pending_asks.is_empty(),
        "asks move to the caller so they are cancelled exactly once"
    );
}

#[test]
fn per_turn_only_accepts_known_per_turn_tools() {
    assert!(!per_turn("resident"));
    assert!(per_turn("codex"));
    assert!(per_turn("opencode"));
    assert!(!per_turn("mystery"));
}

#[test]
fn mark_hidden_turn_started_sets_busy_and_clears_origin_tag() {
    let mut inner = test_inner("resident");
    inner.current_origin_tag = Some("im-reply-target".into());

    let turn_id = mark_hidden_turn_started_with_delivery(&mut inner, Some(9), 1);
    assert_eq!(inner.turn_user_row, Some(-9));

    assert!(inner.turn.busy);
    assert_eq!(turn_id, 1);
    assert_eq!(inner.turn_id, 1);
    assert!(inner.clock.started_millis > 0);
    assert!(inner.current_origin_tag.is_none());
}

#[test]
fn durable_hidden_delivery_text_uses_the_stable_source_tag() {
    let row = HiddenRow {
        id: 41,
        thread_id: 1,
        source_kind: "repo_action".into(),
        source_id: 9,
        dedupe_key: "repo_action:9".into(),
        payload: r#"{"tool":"repo_action","status":"ok"}"#.into(),
        pending: true,
    };

    assert_eq!(
        durable_hidden_delivery_text(&row).unwrap(),
        "<weft:repo_action>{\"status\":\"ok\",\"tool\":\"repo_action\"}</weft:repo_action>"
    );
}

#[test]
fn durable_hidden_delivery_text_rejects_invalid_rows_before_resume() {
    let malformed = HiddenRow {
        id: 42,
        thread_id: 1,
        source_kind: "repo_action".into(),
        source_id: 9,
        dedupe_key: "repo_action:9".into(),
        payload: "not-json".into(),
        pending: true,
    };
    assert!(durable_hidden_delivery_text(&malformed).is_err());

    let unsupported = HiddenRow {
        source_kind: "ephemeral".into(),
        ..malformed
    };
    assert!(durable_hidden_delivery_text(&unsupported).is_err());
}

#[test]
fn durable_hidden_rows_stay_ahead_of_visible_queue_for_both_transports() {
    let receipts = ReceiptRegistry::new();
    for tool in ["resident", "opencode"] {
        let mut inner = test_inner(tool);
        inner.turn.busy = true;
        inner.turn_user_row = Some(-10);
        inner.turn.queue.push_back(Outgoing {
            text: "second repo feedback".into(),
            origin_tag: Some(hidden_delivery_tag(11)),
            ..Default::default()
        });
        inner.turn.queue.push_back(Outgoing {
            text: "visible user message".into(),
            is_tracked: true,
            queue_id: Some(99),
            ..Default::default()
        });

        assert_eq!(inner.turn_user_row, Some(-10), "{tool}: first hidden turn");
        assert!(hidden_delivery_is_duplicate(&inner, &receipts, 10), "{tool}: current idempotence");
        assert!(hidden_delivery_is_duplicate(&inner, &receipts, 11), "{tool}: queued idempotence");
        assert!(!hidden_delivery_is_duplicate(&inner, &receipts, 12), "{tool}: new id admitted");
        assert_eq!(
            inner.turn.queue[0].origin_tag.as_deref(),
            Some(hidden_delivery_tag(11).as_str()),
            "{tool}: durable row order"
        );
        assert_eq!(inner.turn.queue[1].queue_id, Some(99), "{tool}: visible follows");
    }
}

/// A failed durable consume releases the admission reservation and rearms
/// only the current hidden turn's activity gate. The pending row can then
/// be retried instead of being permanently hidden behind a stale token.
#[test]
fn failed_hidden_receipt_releases_retry_token() {
    let mut receipts = ReceiptRegistry::new();
    let mut inner = test_inner("resident");
    mark_hidden_turn_started_with_delivery(&mut inner, Some(17), 1);
    assert!(register_hidden_receipt(&mut receipts, 17));
    assert!(inner.clock.mark_consumed_once());
    finish_hidden_receipt(&mut inner, &mut receipts, 17, false);
    assert!(!receipts.contains(17));
    assert_eq!(inner.turn_user_row, Some(-17));
    assert!(inner.clock.mark_consumed_once(), "failure rearms this turn");
    assert!(
        hidden_delivery_is_duplicate(&inner, &receipts, 17),
        "the active hidden turn still represents this row"
    );
    let next = inner.turn.on_turn_end();
    advance_dequeued_turn(&mut inner, &next);
    assert!(!hidden_delivery_is_duplicate(&inner, &receipts, 17));
}

/// The token is independent of transport shape: resident the resident dialect, per-turn
/// Codex/OpenCode, and ACP connection sessions all use the same production
/// duplicate predicate after TurnEnd retargets the marker.
#[test]
fn inflight_hidden_receipt_blocks_replay_for_all_transports() {
    for tool in ["resident", "codex", "opencode", "omp"] {
        let mut receipts = ReceiptRegistry::new();
        let mut inner = test_inner(tool);
        mark_hidden_turn_started_with_delivery(&mut inner, Some(31), 1);
        assert!(register_hidden_receipt(&mut receipts, 31));
        let next = inner.turn.on_turn_end();
        advance_dequeued_turn(&mut inner, &next);
        assert_eq!(inner.turn_user_row, None, "{tool}: marker retargeted");
        assert!(
            hidden_delivery_is_duplicate(&inner, &receipts, 31),
            "{tool}: receipt token survives marker clear"
        );
        finish_hidden_receipt(&mut inner, &mut receipts, 31, true);
        assert!(!hidden_delivery_is_duplicate(&inner, &receipts, 31), "{tool}: token released");
    }
}

#[test]
fn background_hidden_admission_keeps_stopped_resident_and_per_turn_engines_stopped() {
    for tool in ["resident", "opencode"] {
        let mut inner = test_inner(tool);
        inner.stopped = true;
        assert_eq!(
            hidden_delivery(tool, false, false, true),
            HiddenDelivery::Noop,
            "{tool}: background replay must not revive a stopped engine"
        );
        assert!(!hidden_turn_admissible(&inner), "{tool}: stopped guard");
    }
}

#[test]
fn reset_failed_hidden_turn_clears_busy_state_for_same_turn() {
    let mut inner = test_inner("resident");
    inner.current_origin_tag = Some("stale".into());
    inner.turn.queue.push_back(Outgoing {
        text: "queued user".into(),
        images: vec![],
        is_tracked: true,
        origin_tag: None,
        queue_id: None,
        has_attachments: false,
    });
    let turn_id = mark_hidden_turn_started_with_delivery(&mut inner, Some(9), 1);
    assert_eq!(inner.turn_user_row, Some(-9));

    assert!(reset_failed_hidden_turn(&mut inner, turn_id).is_some());

    assert!(!inner.turn.busy);
    assert!(inner.turn.queue.is_empty());
    assert!(
        inner.clock.started_millis > 0,
        "telemetry remains read-only history"
    );
    assert!(inner.current_origin_tag.is_none());
    assert!(inner.current.is_none());
    assert!(!inner.interrupting);
    assert_eq!(inner.turn_user_row, None);
}

#[test]
fn reset_failed_hidden_turn_ignores_later_turn() {
    let mut inner = test_inner("resident");
    let old_turn = mark_hidden_turn_started(&mut inner, 1);
    inner.turn_id += 1;

    assert!(reset_failed_hidden_turn(&mut inner, old_turn).is_none());
    assert!(inner.turn.busy);
}

/// The explicit Stop fallback clears every turn-owned field before a later
/// send is admitted; it must not remain queued behind the cancelled turn.
#[test]
fn reset_ignored_cancel_turn_clears_state_and_unblocks_next_send() {
    let mut inner = test_inner("codex");
    inner.turn.busy = true;
    inner.turn_id = 5;
    inner.interrupting = true; // set by `interrupt()` just before this fires
    inner.current_origin_tag = Some("im-reply-target".into());
    inner.current = Some(TextRow { row: 10, buf: "partial reply".into(), last_flush: 0 });
    // agent_thread: Some(..) — a sub-agent's own stream cancelled mid-turn
    // must keep its tag through this reset path too, exactly like
    // cleanup_disconnected_turn / stop_quiet.
    inner.open_texts.insert(
        "item-1".into(),
        OpenTextRow {
            row: 11,
            buf: "parallel stream".into(),
            last_flush: 0,
            agent_thread: Some("sub-1".into()),
        },
    );
    inner
        .tool_rows
        .insert("call-1".into(), ToolRow { row: 12, content: bash() });
    inner.turn.queue.push_back(Outgoing {
        text: "follow-up sent during cancellation".into(),
        images: vec![],
        is_tracked: true,
        origin_tag: None,
        queue_id: Some(99),
        has_attachments: false,
    });

    let drain = reset_ignored_cancel_turn(&mut inner, 5).expect("same turn, still busy");

    // Idle and resumable, NOT stop_quiet's harder `stopped=true` state.
    assert!(!inner.turn.busy);
    assert!(!inner.stopped);
    assert!(!inner.interrupting);
    assert!(inner.tool_rows.entries.is_empty());
    assert!(inner.open_texts.entries.is_empty());
    assert!(inner.current.is_none());
    assert!(inner.turn.queue.is_empty());
    assert!(inner.current_origin_tag.is_none());
    // "Continuity reset", not a STOP: reset_epoch stays put so an
    // in-flight Phase 1 -> Phase 3 send still promotes cleanly onto this
    // fresh idle engine instead of being invalidated (see the doc
    // comment on `reset_ignored_cancel_turn`).
    assert_eq!(inner.reset_epoch, 0);
    // The literal ask from review round 2: a subsequent send must NOT be
    // silently queued behind the cancelled turn.
    assert!(inner.turn.try_begin_send());

    let current = drain.current.unwrap();
    assert_eq!((current.row, current.buf.as_str()), (10, "partial reply"));
    let texts: Vec<(i32, String, Option<String>)> = drain
        .orphan_texts
        .into_iter()
        .map(|(_, r)| (r.row, r.buf, r.agent_thread))
        .collect();
    assert_eq!(
        texts,
        vec![(11, "parallel stream".into(), Some("sub-1".into()))]
    );
    let tools: Vec<(i32, Json)> = drain
        .orphan_tools
        .into_iter()
        .map(|(_, r)| (r.row, r.content))
        .collect();
    assert_eq!(tools, vec![(12, bash())]);
    assert_eq!(drain.drained_queue, vec![99]);
}

/// A delayed clean TurnEnd (or a promoted queued send) can advance
/// `turn_id` while the Stop fallback is waiting. The reset
/// must not destroy a newer, unrelated turn's state.
#[test]
fn reset_ignored_cancel_turn_ignores_a_newer_turn() {
    let mut inner = test_inner("codex");
    inner.turn.busy = true;
    inner.turn_id = 6;
    inner
        .tool_rows
        .insert("call-1".into(), ToolRow { row: 1, content: bash() });

    assert!(reset_ignored_cancel_turn(&mut inner, 5).is_none());

    assert!(inner.turn.busy);
    assert!(!inner.tool_rows.entries.is_empty());
}

/// The cancelled turn may have ended cleanly on its own (a delayed TurnEnd
/// landing between the cancel request and this reset running) — the
/// normal TurnEnd handler already reset everything correctly in that
/// case, so this must be a no-op rather than a redundant/conflicting one.
#[test]
fn reset_ignored_cancel_turn_ignores_an_already_idle_turn() {
    let mut inner = test_inner("codex");
    inner.turn_id = 5;
    inner.turn.busy = false;

    assert!(reset_ignored_cancel_turn(&mut inner, 5).is_none());
}

#[test]
fn hidden_delivery_spawns_for_per_turn_tools_without_stdin() {
    assert_eq!(
        hidden_delivery("codex", false, false, false),
        HiddenDelivery::SpawnTurn
    );
    assert_eq!(
        hidden_delivery("opencode", false, false, false),
        HiddenDelivery::SpawnTurn
    );
    // ACP connection tools also have no resident stdin when idle.
    assert_eq!(
        hidden_delivery("omp", false, false, false),
        HiddenDelivery::SpawnTurn
    );
}

#[test]
fn hidden_delivery_keeps_resident_and_queue_semantics() {
    assert_eq!(
        hidden_delivery("resident", false, true, false),
        HiddenDelivery::WriteResident
    );
    assert_eq!(
        hidden_delivery("resident", false, false, false),
        HiddenDelivery::Noop
    );
    assert_eq!(
        hidden_delivery("codex", true, false, false),
        HiddenDelivery::Queue
    );
    assert_eq!(
        hidden_delivery("omp", true, false, false),
        HiddenDelivery::Queue
    );
}

#[test]
fn hidden_delivery_rejects_stopped_per_turn_engines() {
    assert_eq!(
        hidden_delivery("codex", false, false, true),
        HiddenDelivery::Noop
    );
    assert_eq!(
        hidden_delivery("omp", false, false, true),
        HiddenDelivery::Noop
    );
}

#[test]
fn send_reservation_valid_requires_stopped_turn_and_busy_flag() {
    let mut inner = test_inner("resident");
    inner.turn_id = 5;
    inner.turn.busy = true;
    let direct_ctx = SendContext {
        thread_id: 1,
        session_id: None,
        turn: 5,
        direct: true,
        is_command: false,
        tool: "resident".into(),
        origin_tag: None,
        reset_epoch: 0,
    };
    assert!(send_reservation_valid(&inner, &direct_ctx));

    // A reset_epoch bump (a stop/reset since Phase 1 — including a stop that was
    // immediately restarted, which leaves turn_id/busy looking valid) invalidates
    // BOTH a direct and a queued reservation.
    inner.reset_epoch = 1;
    assert!(!send_reservation_valid(&inner, &direct_ctx));
    assert!(!send_reservation_valid(
        &inner,
        &SendContext {
            direct: false,
            ..direct_ctx.clone()
        }
    ));
    inner.reset_epoch = 0;

    // An interrupt mid-send cancels a DIRECT reservation (the direct send IS the
    // current turn), but not a queued one, which targets a later turn.
    inner.interrupting = true;
    assert!(!send_reservation_valid(&inner, &direct_ctx));
    assert!(send_reservation_valid(
        &inner,
        &SendContext {
            direct: false,
            ..direct_ctx.clone()
        }
    ));
    inner.interrupting = false;

    // Stopped engine invalidates any reservation.
    inner.stopped = true;
    assert!(!send_reservation_valid(&inner, &direct_ctx));
    inner.stopped = false;

    // Turn identity mismatch means the reservation was reset.
    inner.turn_id = 6;
    assert!(!send_reservation_valid(&inner, &direct_ctx));
    inner.turn_id = 5;

    // Direct send must still hold the busy flag it reserved.
    inner.turn.busy = false;
    assert!(!send_reservation_valid(&inner, &direct_ctx));
    inner.turn.busy = true;

    // Queued sends don't own the busy flag: the enqueue/promote/cancel decision
    // is made at Phase 3 commit time from CURRENT state, so validation lets them
    // through regardless of turn advance (turn_id) or the turn having ended
    // (busy=false → Phase 3 promotes instead of stranding the message).
    let queued_ctx = SendContext {
        direct: false,
        ..direct_ctx
    };
    assert!(send_reservation_valid(&inner, &queued_ctx)); // busy = true
    inner.turn_id = 6; // active turn advanced, still busy → tolerated
    assert!(send_reservation_valid(&inner, &queued_ctx));
    inner.turn.busy = false; // turn ended → still valid; Phase 3 promotes
    assert!(send_reservation_valid(&inner, &queued_ctx));
    inner.turn.busy = true;
    // An explicit stop still invalidates a queued reservation.
    inner.stopped = true;
    assert!(!send_reservation_valid(&inner, &queued_ctx));
}

#[test]
fn promote_queued_reservation_claims_a_fresh_direct_turn() {
    let mut inner = test_inner("resident");
    inner.turn_id = 7;
    assert!(!inner.turn.busy, "precondition: engine idle");
    let promoted = promote_queued_reservation(&mut inner, Some("tag".into()), 1);
    assert_eq!(promoted, 8, "promotion claims the NEXT turn id");
    assert_eq!(inner.turn_id, 8);
    assert!(inner.turn.busy, "promotion reserves the turn (busy)");
    assert_eq!(inner.current_origin_tag.as_deref(), Some("tag"));
    assert!(
        inner.clock.started_millis > 0,
        "promotion records OCC telemetry"
    );
}

fn queued_outgoing(queue_id: i32, origin_tag: &str) -> Outgoing {
    Outgoing {
        text: "text".into(),
        origin_tag: Some(origin_tag.into()),
        queue_id: Some(queue_id),
        ..Default::default()
    }
}

/// reproduces the exact scenario from a real per-turn
/// dialect's kill-only interrupt (opencode always; codex without the
/// app-server) — turn A is interrupted, B sits queued behind it, A's
/// stdout then EOFs and `on_turn_end` dequeues B. Without
/// `advance_dequeued_turn` retargeting `turn_user_row`, the pointer would
/// still read A: B's first activity would then mis-mark A "consumed" (A
/// never ran again) while B's own row — the one the agent actually
/// processed — stayed "delivered" forever. That is the exact
/// delivered/consumed truth-inversion the receipt exists to prevent.
#[test]
fn advance_dequeued_turn_retargets_from_the_finished_turn_to_the_dequeued_one() {
    let mut inner = test_inner("opencode");
    // Turn A just finished (interrupted): its bookkeeping is still live
    // until on_turn_end + advance_dequeued_turn catch up.
    inner.turn_user_row = Some(1); // A's message id
    inner.current_origin_tag = Some("a-tag".into());
    inner.turn.busy = true;
    inner.turn.queue.push_back(queued_outgoing(2, "b-tag")); // B's message id

    let next = inner.turn.on_turn_end(); // pops B
    advance_dequeued_turn(&mut inner, &next);

    assert_eq!(
        inner.turn_user_row,
        Some(2),
        "must retarget to B's row, not linger on A's finished turn"
    );
    assert_eq!(inner.current_origin_tag.as_deref(), Some("b-tag"));
}

/// The other half of the same bookkeeping: a drained queue must clear
/// `turn_user_row`/`current_origin_tag` rather than leave them pointing at
/// the turn that just ended — an idle engine must not attribute a LATER,
/// unrelated turn's activity (e.g. a hidden bus-wake read) to an old row.
#[test]
fn advance_dequeued_turn_clears_pointers_when_the_queue_drains_to_idle() {
    let mut inner = test_inner("opencode");
    inner.turn_user_row = Some(1);
    inner.current_origin_tag = Some("a-tag".into());
    inner.turn.busy = true; // empty queue: on_turn_end goes idle

    let next = inner.turn.on_turn_end();
    assert!(next.is_none(), "precondition: nothing queued behind A");
    advance_dequeued_turn(&mut inner, &next);

    assert_eq!(inner.turn_user_row, None);
    assert_eq!(inner.current_origin_tag, None);
}

#[test]
fn turn_clock_records_occ_start_for_each_promoted_turn() {
    let mut c = TurnClock::default();
    assert_eq!(c.started_millis, 0);
    c.begin_turn(5);
    let first = c.started_millis;
    assert!(first > 0);
    c.on_turn_end(true, 9); // queued message popped → new turn
    assert!(c.started_millis >= first);
    c.on_turn_end(false, 12); // queue drained → idle
    assert!(
        c.started_millis >= first,
        "time remains telemetry only after idle"
    );
}

/// [`TurnClock::mark_consumed_once`] fires exactly once per turn — the latch
/// `note_turn_activity` uses so a chatty turn's later stdout lines / delta
/// events don't re-query the DB after the first "consumed" mark landed.
#[test]
fn mark_consumed_once_fires_once_then_resets_on_new_turn() {
    let mut c = TurnClock::default();
    // Fresh clock, no turn begun yet: still gates true→false like any other
    // "first observation" — begin_turn is what a real send always calls
    // first, but the latch itself doesn't depend on it.
    assert!(c.mark_consumed_once(), "first observation fires");
    assert!(
        !c.mark_consumed_once(),
        "second observation in the same turn no-ops"
    );
    assert!(!c.mark_consumed_once(), "third+ stays a no-op");
    // A new turn resets the latch — begin_turn is called at EVERY turn-start
    // site (direct send, promoted queue, dequeue via on_turn_end(true)).
    c.begin_turn(5);
    assert!(c.mark_consumed_once(), "a new turn re-arms the latch");
    assert!(!c.mark_consumed_once(), "and gates again within that turn");
}

/// `on_turn_end(true)` (a queued message popped into a fresh turn) goes
/// through `begin_turn` internally, so it must re-arm the latch exactly like
/// a direct/promoted send does — a dequeued turn's activity must still be
/// attributable to ITS OWN opening row, not silently skipped because the
/// previous turn already consumed the latch.
#[test]
fn mark_consumed_once_rearms_across_queue_dequeue() {
    let mut c = TurnClock::default();
    c.begin_turn(5);
    assert!(c.mark_consumed_once());
    c.on_turn_end(true, 9); // dequeue: still busy → begin_turn() again
    assert!(
        c.mark_consumed_once(),
        "the dequeued turn gets its own first mark"
    );
}

#[test]
fn codex_first_turn_prepends_prompt_only_on_new_thread() {
    // brand-new thread + non-empty prompt → prepended to the first message
    assert_eq!(codex_first_turn_text("SYS", "hello", false), "SYS\n\nhello");
    // resumed thread → prompt already in history, message unchanged
    assert_eq!(codex_first_turn_text("SYS", "hello", true), "hello");
    // no prompt → message unchanged even on a new thread
    assert_eq!(codex_first_turn_text("", "hello", false), "hello");
}
