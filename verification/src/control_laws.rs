//! What interrupts, stops, the queue's commands and launches promise.

use vstd::prelude::*;

use crate::control::{
    begin_stop, edited_content, edited_document, edited_tree, finish_stop, force_acp_turn_reset,
    forced_reset_row, interrupt, kill_is_due, mark_stopped, plain_tree, queue_edit, queue_remove,
    queue_reorder, reset_done, reset_ignored_cancel_turn, switch_interrupted,
    take_acp_teardown_and_invalidate, AcpTeardown, CancelledTurnDrain, ForcedReset, InterruptPlan,
    QueueError, StopQuietOutcome, StopStart,
};
use crate::engine::{EngineInner, TextRow};
use crate::json::{json_text, parsed, Json, JsonView};
use crate::rows::text_row_tree;
use crate::spawning::{
    acp_session_opened, acp_spawn_admissible, arm_prompt, ensure_worker_parent_chain,
    fall_back_to_process, follow_up_returned, forget_unprompted_session, initialize_line,
    initialize_tree, process_owner, prompt_returned, publish_acp_session, publish_app_server,
    read_identity, release_stale_slot, resident_need, resident_spawned, server_choice,
    session_replaced, spawn_admissible, thread_started, turn_process_spawned, validate_direction,
    validate_session, IdentityError, ProcessOwner, PromptReturn, ResidentNeed, ServerChoice,
};
use crate::text::{opt_view, texts_view};
use crate::text_laws::blank;
use crate::turn::{first_with_id, ids_distinct, Outgoing};
use crate::turn_end::DisconnectedTurnRow;

verus! {

/// Removing a message from the queue takes the first with that row, and nothing else of
/// the engine changes.
pub proof fn law_queue_remove(
    before: EngineInner,
    id: i32,
    r: bool,
    after: EngineInner,
    i: int,
)
    requires
        exists|m: &mut EngineInner|
            *m == before && *final(m) == after && #[trigger] call_ensures(
                queue_remove,
                (m, id),
                r,
            ),
    ensures
        (forall|j: int| 0 <= j < before.turn.queue@.len() ==> (
        #[trigger] before.turn.queue@[j]).queue_id != Some(id)) ==> !r && after == before,
        first_with_id(before.turn.queue@, id, i) ==> r && after.turn.queue@
            == before.turn.queue@.subrange(0, i) + before.turn.queue@.subrange(
            i + 1,
            before.turn.queue@.len() as int,
        ),
        after == (EngineInner { turn: after.turn, ..before }),
{
    let q = before.turn.queue@;
    if first_with_id(q, id, i) {
        assert(q[i].queue_id == Some(id));
        let k = choose|k: int| #[trigger]
            first_with_id(q, id, k) && after.turn.queue@ == q.remove(k) && after.turn.bus_read_pos
                == crate::turn::wake_after_removal(before.turn.bus_read_pos, k);
        assert(q[k].queue_id == Some(id));
        if k < i {
            assert(q[k].queue_id != Some(id));
        } else if i < k {
            assert(q[i].queue_id != Some(id));
        }
        assert(q.remove(i) =~= q.subrange(0, i) + q.subrange(i + 1, q.len() as int));
    }
}

/// An edit to a blank text is refused, and one of a message with attachments; any other
/// gives the message its new text and touches nothing else.
pub proof fn law_queue_edit(
    before: EngineInner,
    id: i32,
    text: &str,
    r: Result<bool, QueueError>,
    after: EngineInner,
    i: int,
    j: int,
)
    requires
        ids_distinct(before.turn.queue@),
        first_with_id(before.turn.queue@, id, i),
        exists|m: &mut EngineInner|
            *m == before && *final(m) == after && #[trigger] call_ensures(
                queue_edit,
                (m, id, text),
                r,
            ),
    ensures
        blank(text@) ==> r is Err && r->Err_0 == QueueError::Empty && after == before,
        !blank(text@) && before.turn.queue@[i].has_attachments ==> r is Err && r->Err_0
            == QueueError::NotEditable && after == before,
        !blank(text@) && !before.turn.queue@[i].has_attachments ==> {
            &&& r is Ok && r->Ok_0
            &&& after.turn.queue@.len() == before.turn.queue@.len()
            &&& after.turn.queue@[i].text@ == text@ && after.turn.queue@[i].queue_id == Some(id)
            &&& 0 <= j < before.turn.queue@.len() && j != i ==> after.turn.queue@[j]
                == before.turn.queue@[j]
        },
        after == (EngineInner { turn: after.turn, ..before }),
{
    crate::row_laws::lemma_blank(text@);
    let q = before.turn.queue@;
    assert(q[i].queue_id == Some(id));
    if crate::control::carries_attachments(q, id) {
        let k = choose|k: int|
            0 <= k < q.len() && (#[trigger] q[k]).queue_id == Some(id) && q[k].has_attachments;
        if k < i {
            assert(q[k].queue_id != q[i].queue_id);
        } else if i < k {
            assert(q[i].queue_id != q[k].queue_id);
        }
    } else if !blank(text@) {
        let k = choose|k: int| #[trigger]
            first_with_id(q, id, k) && after.turn.queue@.len() == q.len() && crate::turn::edited(
                q[k],
                after.turn.queue@[k],
                text@,
            ) && after.turn.queue@ =~= q.update(k, after.turn.queue@[k]);
        assert(q[k].queue_id == Some(id));
        if k < i {
            assert(q[k].queue_id != q[i].queue_id);
        } else if i < k {
            assert(q[i].queue_id != q[k].queue_id);
        }
        if 0 <= j < q.len() && j != i {
            assert(after.turn.queue@[j] == q.update(i, after.turn.queue@[i])[j]);
        }
    }
}

/// The stored content of an edited message has the new text, and all else that it had.
pub proof fn law_edited_content_keeps_the_rest(doc: JsonView, text: Seq<char>, key: Seq<char>)
    ensures
        edited_tree(doc, text).str_at("text"@) == Some(text),
        doc is Obj && key != "text"@ ==> edited_tree(doc, text).get(key) == doc.get(key),
        plain_tree(text).str_at("text"@) == Some(text),
        plain_tree(text).at("images"@) is Arr && plain_tree(text).at("files"@) is Arr,
{
    reveal_strlit("text");
    reveal_strlit("images");
    reveal_strlit("files");
    assert("text"@.len() == 4 && "images"@.len() == 6 && "files"@.len() == 5);
}

/// A reorder is accepted exactly when it names every visible message once and no inbox
/// read waits; then they stand in that order.
pub proof fn law_queue_reorder(
    before: EngineInner,
    order: &[i32],
    r: Result<(), QueueError>,
    after: EngineInner,
)
    requires
        ids_distinct(before.turn.queue@),
        exists|m: &mut EngineInner|
            *m == before && *final(m) == after && #[trigger] call_ensures(
                queue_reorder,
                (m, order),
                r,
            ),
    ensures
        r is Ok == (before.turn.bus_read_pos is None && order@.to_multiset()
            == before.turn.queue@.filter(|o: Outgoing| o.queue_id is Some).map_values(
            |o: Outgoing| o.queue_id->0,
        ).to_multiset()),
        r is Err ==> r->Err_0 == QueueError::BadOrder && after == before,
        r is Ok ==> after.turn.queue@.filter(|o: Outgoing| o.queue_id is Some).map_values(
            |o: Outgoing| o.queue_id->0,
        ) == order@ && after.turn.queue@.to_multiset() == before.turn.queue@.to_multiset(),
{
    crate::queue_laws::lemma_ids(before.turn.queue@);
    crate::queue_laws::lemma_ids(after.turn.queue@);
    if r is Ok {
        crate::turn_laws::law_reorder_is_a_permutation(before.turn, after.turn, order@);
    }
}

/// An interrupt of an idle engine does nothing. Otherwise the turn is marked to end as
/// interrupted, and is cut off over the transport that carries it; the permission cards of
/// the connection backend are withdrawn. The turn itself, and what waits, stay until it
/// ends.
pub proof fn law_interrupt(
    before: EngineInner,
    appserver: bool,
    by_protocol: bool,
    r: InterruptPlan,
    after: EngineInner,
)
    requires
        exists|m: &mut EngineInner|
            *m == before && *final(m) == after && #[trigger] call_ensures(
                interrupt,
                (m, appserver, by_protocol),
                r,
            ),
    ensures
        after == (EngineInner {
            interrupting: after.interrupting,
            acp_pending_asks: after.acp_pending_asks,
            ..before
        }),
        !(r is Connection) ==> after.acp_pending_asks == before.acp_pending_asks,
        ({
            let over_server = before.tool@ == "codex"@ && appserver;
            let connected = before.tool@ == "omp"@;
            &&& !before.turn.busy ==> r is Idle && after == before
            &&& before.turn.busy ==> after.interrupting && after.turn == before.turn
            &&& r is AppServer == (before.turn.busy && over_server)
            &&& r is Connection == (before.turn.busy && connected)
            &&& r is Ask == (before.turn.busy && !over_server && !connected && by_protocol)
            &&& r is KillChild == (before.turn.busy && !over_server && !connected && !by_protocol)
            &&& r is AppServer ==> opt_view(r->thread) == opt_view(before.native_id)
                && r->AppServer_connected == before.codex_client
            &&& r is Connection ==> r->asks@ == before.acp_pending_asks@ && opt_view(r->session)
                == opt_view(before.native_id) && r->turn_id == before.turn_id && r->epoch
                == before.reset_epoch && after.acp_pending_asks@.len() == 0
            &&& r is Ask ==> r->generation == before.generation
            &&& after.stopped == before.stopped && after.reset_epoch == before.reset_epoch
        }),
{
    reveal_strlit("codex");
    reveal_strlit("omp");
    assert("codex"@.len() == 5 && "omp"@.len() == 3);
}

/// A process that was asked to stop is killed exactly while it is the same one and its
/// turn still runs.
pub proof fn law_when_a_process_is_killed(inner: &EngineInner, generation: u64, r: bool)
    requires
        call_ensures(kill_is_due, (inner, generation), r),
    ensures
        r == (inner.turn.busy && inner.generation == generation),
{
}

/// The engine has no turn, and nothing of one.
pub open spec fn nothing_runs(inner: EngineInner) -> bool {
    &&& !inner.turn.busy && inner.turn.queue@.len() == 0 && inner.turn.bus_read_pos is None
    &&& inner.current is None && inner.open_texts.entries@.len() == 0
    &&& inner.tool_rows.entries@.len() == 0
    &&& inner.turn_user_row is None
    &&& !inner.child && !inner.child_permit && !inner.stdin
}

/// What a turn that was cut off leaves: every open row and every waiting message.
pub open spec fn all_left(before: EngineInner, r: CancelledTurnDrain) -> bool {
    &&& r.current == before.current
    &&& r.orphan_texts@ == before.open_texts.entries@
    &&& r.orphan_tools@ == before.tool_rows.entries@
    &&& r.drained_queue@ == before.turn.queue@.filter(
        |o: Outgoing| o.queue_id is Some,
    ).map_values(|o: Outgoing| o.queue_id->0)
    &&& r.turn_saw_text == before.turn_saw_text
}

/// A turn that ignored its cancellation is given up, whole, while it is still the running
/// one; on the connection backend by force, which also leaves the session and outdates
/// everything in flight.
pub proof fn law_ignored_cancel_is_enforced(
    before: EngineInner,
    turn_id: i32,
    r: Option<CancelledTurnDrain>,
    after: EngineInner,
    epoch: u64,
    f: Option<ForcedReset>,
    forced: EngineInner,
)
    requires
        before.wf(),
        exists|m: &mut EngineInner|
            *m == before && *final(m) == after && #[trigger] call_ensures(
                reset_ignored_cancel_turn,
                (m, turn_id),
                r,
            ),
        exists|m: &mut EngineInner|
            *m == before && *final(m) == forced && #[trigger] call_ensures(
                force_acp_turn_reset,
                (m, turn_id, epoch),
                f,
            ),
    ensures
        after.wf() && forced.wf(),
        after == (EngineInner {
            turn: after.turn,
            open_texts: after.open_texts,
            tool_rows: after.tool_rows,
            current: after.current,
            clock: after.clock,
            turn_user_row: after.turn_user_row,
            turn_saw_text: after.turn_saw_text,
            interrupting: after.interrupting,
            current_origin_tag: after.current_origin_tag,
            child: after.child,
            child_permit: after.child_permit,
            stdin: after.stdin,
            ..before
        }),
        forced == (EngineInner {
            turn: forced.turn,
            open_texts: forced.open_texts,
            tool_rows: forced.tool_rows,
            current: forced.current,
            clock: forced.clock,
            turn_user_row: forced.turn_user_row,
            turn_saw_text: forced.turn_saw_text,
            interrupting: forced.interrupting,
            current_origin_tag: forced.current_origin_tag,
            child: forced.child,
            child_permit: forced.child_permit,
            stdin: forced.stdin,
            native_id: forced.native_id,
            acp_client: forced.acp_client,
            reset_epoch: forced.reset_epoch,
            tearing_down: forced.tearing_down,
            ..before
        }),
        r is Some ==> !after.turn_saw_text && after.current_origin_tag is None
            && !after.turn.quota_exceeded,
        f is Some ==> !forced.turn_saw_text && forced.current_origin_tag is None
            && !forced.interrupting && !forced.turn.quota_exceeded,
        r is Some == (before.turn.busy && before.turn_id == turn_id),
        r is None ==> after == before,
        r is Some ==> nothing_runs(after) && all_left(before, r->0) && after.native_id
            == before.native_id && !after.interrupting,
        f is Some == (before.turn.busy && before.turn_id == turn_id && before.reset_epoch == epoch
            && before.tool@ == "omp"@),
        f is None ==> forced == before,
        f is Some ==> nothing_runs(forced) && all_left(before, f->0.drain)
            && forced.native_id is None && !forced.acp_client && forced.tearing_down
            && f->0.session == before.native_id && f->0.connected == before.acp_client,
        f is Some && before.reset_epoch < u64::MAX ==> forced.reset_epoch == before.reset_epoch
            + 1,
{
    crate::queue_laws::lemma_ids(before.turn.queue@);
}

/// The row of a turn that was reset by force closes with what had streamed; where nothing
/// had, a row tells of the interrupt.
pub proof fn law_row_of_a_forced_reset(
    current: Option<TextRow>,
    open_texts: usize,
    saw_text: bool,
    r: Option<DisconnectedTurnRow>,
)
    requires
        call_ensures(forced_reset_row, (current, open_texts, saw_text), r),
    ensures
        current is Some ==> r is Some && r->0 is Finalized && r->0->message_id == current->0.row
            && r->0->Finalized_content@ == json_text(text_row_tree(current->0.buf@, None)),
        current is None ==> r is Some == (open_texts == 0 && !saw_text),
        current is None && r is Some ==> r->0 is Inserted && r->0->Inserted_content@
            == crate::ending_laws::terminal_document("interrupted_before_output"@),
{
    reveal_strlit("interrupted");
    reveal_strlit("error");
    assert("interrupted"@.len() == 11 && "error"@.len() == 5);
}

/// A reset that is done lets the engine work again.
pub proof fn law_reset_is_done(before: EngineInner, after: EngineInner)
    requires
        exists|m: &mut EngineInner|
            *m == before && *final(m) == after && #[trigger] call_ensures(reset_done, (m,), ()),
    ensures
        after == (EngineInner { tearing_down: false, ..before }),
{
}

/// Leaving the connection backend hands out what is to be undone there, and outdates
/// everything in flight.
pub proof fn law_leaving_the_connection(
    before: EngineInner,
    r: AcpTeardown,
    after: EngineInner,
)
    requires
        before.reset_epoch < u64::MAX,
        exists|m: &mut EngineInner|
            *m == before && *final(m) == after && #[trigger] call_ensures(
                take_acp_teardown_and_invalidate,
                (m,),
                r,
            ),
    ensures
        after == (EngineInner {
            acp_client: after.acp_client,
            acp_pending_asks: after.acp_pending_asks,
            reset_epoch: after.reset_epoch,
            ..before
        }),
        r.connected == before.acp_client,
        opt_view(r.session_id) == opt_view(before.native_id),
        r.asks@ == before.acp_pending_asks@,
        !after.acp_client && after.acp_pending_asks@.len() == 0,
        after.reset_epoch == before.reset_epoch + 1,
        after.turn == before.turn && after.native_id == before.native_id,
{
}

/// A stop hands out every open row and every card, and what is to be shut down; while it
/// goes on nothing is admitted, and when it is over nothing runs. The native session
/// survives it.
pub proof fn law_stop_hands_out_what_is_open(
    before: EngineInner,
    r: StopStart,
    going: EngineInner,
    after: EngineInner,
    i: int,
)
    requires
        before.wf() && before.generation < u64::MAX && before.reset_epoch < u64::MAX,
        exists|m: &mut EngineInner|
            *m == before && *final(m) == going && #[trigger] call_ensures(begin_stop, (m,), r),
        exists|m: &mut EngineInner|
            *m == going && *final(m) == after && #[trigger] call_ensures(finish_stop, (m,), ()),
    ensures
        after.wf(),
        going == (EngineInner {
            open_texts: going.open_texts,
            tool_rows: going.tool_rows,
            acp_pending_asks: going.acp_pending_asks,
            current: going.current,
            generation: going.generation,
            codex_client: going.codex_client,
            acp_client: going.acp_client,
            reset_epoch: going.reset_epoch,
            tearing_down: going.tearing_down,
            ..before
        }),
        after == (EngineInner {
            turn: after.turn,
            child: after.child,
            child_permit: after.child_permit,
            stdin: after.stdin,
            clock: after.clock,
            turn_user_row: after.turn_user_row,
            turn_saw_text: after.turn_saw_text,
            tearing_down: after.tearing_down,
            ..going
        }),
        going.current is None && going.open_texts.entries@.len() == 0
            && going.tool_rows.entries@.len() == 0 && going.acp_pending_asks@.len() == 0,
        !after.turn_saw_text && !after.turn.quota_exceeded,
        going.tearing_down && going.reset_epoch == before.reset_epoch + 1 && going.generation
            == before.generation + 1,
        r.outcome.thread_id == before.thread_id && r.outcome.session_id == before.session_id,
        r.outcome.orphans@ == before.tool_rows.entries@,
        r.outcome.acp_asks@ == before.acp_pending_asks@,
        r.outcome.was_busy == before.turn.busy,
        r.child == before.child && r.app_server == before.codex_client && r.connected
            == before.acp_client && opt_view(r.session) == opt_view(before.native_id),
        before.current is None ==> r.outcome.texts@.len() == before.open_texts.entries@.len(),
        before.current is Some ==> {
            &&& r.outcome.texts@.len() == before.open_texts.entries@.len() + 1
            &&& r.outcome.texts@[0].row == before.current->0.row
            &&& r.outcome.texts@[0].text@ == before.current->0.buf@
            &&& r.outcome.texts@[0].agent_thread is None
        },
        0 <= i < before.open_texts.entries@.len() ==> {
            let k = if before.current is Some {
                i + 1
            } else {
                i
            };
            &&& r.outcome.texts@[k].row == before.open_texts.entries@[i].1.row
            &&& r.outcome.texts@[k].text@ == before.open_texts.entries@[i].1.buf@
            &&& opt_view(r.outcome.texts@[k].agent_thread) == opt_view(
                before.open_texts.entries@[i].1.agent_thread,
            )
        },
        nothing_runs(after) && !after.tearing_down && !after.codex_client && !after.acp_client,
        after.native_id == before.native_id && after.stopped == before.stopped,
{
    let v = crate::control::open_texts_view(r.outcome.texts@);
    assert(v.len() == r.outcome.texts@.len());
    if before.current is Some {
        assert(v[0] == r.outcome.texts@[0]@);
    }
    if 0 <= i < before.open_texts.entries@.len() {
        let k = if before.current is Some {
            i + 1
        } else {
            i
        };
        assert(v[k] == r.outcome.texts@[k]@);
    }
}

/// A stop that is meant marks the engine as stopped, and nothing else.
pub proof fn law_meant_stop(before: EngineInner, after: EngineInner)
    requires
        exists|m: &mut EngineInner|
            *m == before && *final(m) == after && #[trigger] call_ensures(mark_stopped, (m,), ()),
    ensures
        after == (EngineInner { stopped: true, ..before }),
{
}

/// An engine switch cut something short exactly when a turn ran, a row was open or a
/// message waited.
pub proof fn law_switch_cut_something_short(o: &StopQuietOutcome, drained: usize, r: bool)
    requires
        call_ensures(switch_interrupted, (o, drained), r),
    ensures
        r == (o.was_busy || o.texts@.len() > 0 || o.orphans@.len() > 0 || drained > 0),
{
}

/// A launch is admitted exactly in an engine that is neither stopped nor interrupted, and,
/// where it was prepared at some point, was not reset since; on the connection backend
/// also not while it is torn down.
pub proof fn law_when_a_launch_is_admitted(
    inner: &EngineInner,
    expected: Option<u64>,
    r: bool,
    backend: bool,
    armed: Option<u64>,
)
    requires
        call_ensures(spawn_admissible, (inner, expected), r),
        call_ensures(acp_spawn_admissible, (inner, expected), backend),
        call_ensures(arm_prompt, (inner, expected), armed),
    ensures
        inner.stopped || inner.interrupting ==> !r && !backend && armed is None,
        expected is Some && expected->0 != inner.reset_epoch ==> !r && !backend && armed is None,
        !inner.stopped && !inner.interrupting && (expected is None || expected->0
            == inner.reset_epoch) ==> r && backend == !inner.tearing_down && armed == Some(
            inner.reset_epoch,
        ),
{
}

/// A process belongs to its session, or to the thread of a lead.
pub proof fn law_owner_of_a_process(inner: &EngineInner, r: ProcessOwner)
    requires
        call_ensures(process_owner, (inner,), r),
    ensures
        inner.session_id is Some ==> r is Session && crate::decimal::text_value(r->Session_0@)
            == Some(inner.session_id->0 as int),
        inner.session_id is None ==> r is LeadThread && crate::decimal::text_value(
            r->LeadThread_0@,
        ) == Some(inner.thread_id as int),
{
    if inner.session_id is Some {
        crate::decimal::law_decimal_reads_back(inner.session_id->0 as int);
    } else {
        crate::decimal::law_decimal_reads_back(inner.thread_id as int);
    }
}

/// A process for one turn leaves the turn and the queue alone; a resident one starts with
/// nothing. Either outdates what came before it.
pub proof fn law_new_processes(
    before: EngineInner,
    permit: bool,
    g1: u64,
    for_turn: EngineInner,
    g2: u64,
    resident: EngineInner,
)
    requires
        before.generation < u64::MAX,
        exists|m: &mut EngineInner|
            *m == before && *final(m) == for_turn && #[trigger] call_ensures(
                turn_process_spawned,
                (m, permit),
                g1,
            ),
        exists|m: &mut EngineInner|
            *m == before && *final(m) == resident && #[trigger] call_ensures(
                resident_spawned,
                (m, permit),
                g2,
            ),
    ensures
        for_turn == (EngineInner {
            stdin: for_turn.stdin,
            child: for_turn.child,
            child_permit: for_turn.child_permit,
            generation: for_turn.generation,
            current: for_turn.current,
            ..before
        }),
        resident == (EngineInner {
            turn: resident.turn,
            stdin: resident.stdin,
            child: resident.child,
            child_permit: resident.child_permit,
            generation: resident.generation,
            clock: resident.clock,
            turn_user_row: resident.turn_user_row,
            current: resident.current,
            interrupting: resident.interrupting,
            ..before
        }),
        resident.turn.bus_read_pos is None && !resident.turn.quota_exceeded,
        g1 == before.generation + 1 && for_turn.generation == g1,
        for_turn.child && !for_turn.stdin && for_turn.child_permit == permit
            && for_turn.current is None && for_turn.turn == before.turn && for_turn.turn_user_row
            == before.turn_user_row,
        g2 == before.generation + 1 && resident.generation == g2,
        resident.child && resident.stdin && resident.child_permit == permit
            && resident.current is None && !resident.interrupting && !resident.turn.busy
            && resident.turn.queue@.len() == 0 && resident.turn_user_row is None,
        resident.native_id == before.native_id && for_turn.native_id == before.native_id,
{
}

/// A resident process is needed exactly by the tool that has one, while the engine is not
/// stopped and none is alive; any other tool of its kind is unknown.
pub proof fn law_when_a_resident_is_needed(
    inner: &EngineInner,
    tool: &str,
    alive: bool,
    r: ResidentNeed,
)
    requires
        call_ensures(resident_need, (inner, tool, alive), r),
    ensures
        ({
            let own_turns = inner.tool@ == "codex"@ || inner.tool@ == "opencode"@ || inner.tool@
                == "omp"@;
            &&& inner.stopped || own_turns ==> r == ResidentNeed::Nothing
            &&& !inner.stopped && !own_turns && inner.tool@ != tool@ ==> r
                == ResidentNeed::UnknownTool
            &&& !inner.stopped && !own_turns && inner.tool@ == tool@ ==> (r
                == ResidentNeed::Spawn) == !(inner.child && alive)
            &&& !inner.stopped && !own_turns && inner.tool@ == tool@ && inner.child && alive ==> r
                == ResidentNeed::Nothing
        }),
{
}

/// The slot of a process that is gone goes back, and nothing else changes.
pub proof fn law_stale_slot_goes_back(before: EngineInner, after: EngineInner)
    requires
        exists|m: &mut EngineInner|
            *m == before && *final(m) == after && #[trigger] call_ensures(
                release_stale_slot,
                (m,),
                (),
            ),
    ensures
        after == (EngineInner { child_permit: false, ..before }),
{
}

/// The first line to a resident process asks it to introduce itself.
pub proof fn law_first_line_asks_for_an_introduction()
    ensures
        initialize_tree().str_at("type"@) == Some("control_request"@),
        initialize_tree().at("request"@).str_at("subtype"@) == Some("initialize"@),
{
    reveal_strlit("type");
    reveal_strlit("request_id");
    reveal_strlit("request");
    assert("type"@.len() == 4 && "request_id"@.len() == 10 && "request"@.len() == 7);
}

/// A connection to the app-server is kept exactly when nothing stopped or reset the engine
/// meanwhile, and a thread that was started there names the session.
pub proof fn law_app_server_is_published(
    before: EngineInner,
    expected: Option<u64>,
    fresh: bool,
    canceled: bool,
    after: EngineInner,
    thread: &str,
    started: bool,
    persist: bool,
    named: EngineInner,
)
    requires
        exists|m: &mut EngineInner|
            *m == before && *final(m) == after && #[trigger] call_ensures(
                publish_app_server,
                (m, expected, fresh),
                canceled,
            ),
        exists|m: &mut EngineInner|
            *m == after && *final(m) == named && #[trigger] call_ensures(
                thread_started,
                (m, thread, started),
                persist,
            ),
    ensures
        after == (EngineInner { codex_client: after.codex_client, ..before }),
        named == (EngineInner { native_id: named.native_id, ..after }),
        canceled == (before.stopped || (expected is Some && expected->0 != before.reset_epoch)),
        canceled ==> after == before,
        !canceled && fresh ==> after.codex_client,
        !fresh ==> after == before,
        persist == started,
        started ==> named.native_id is Some && named.native_id->0@ == thread@,
        !started ==> opt_view(named.native_id) == opt_view(before.native_id),
{
}

/// A failed app-server turn falls back to a process, unless it was interrupted; then the
/// connection is dropped.
pub proof fn law_fall_back(before: EngineInner, r: bool, after: EngineInner)
    requires
        exists|m: &mut EngineInner|
            *m == before && *final(m) == after && #[trigger] call_ensures(
                fall_back_to_process,
                (m,),
                r,
            ),
    ensures
        after == (EngineInner { codex_client: after.codex_client, ..before }),
        r == !before.interrupting,
        r ==> !after.codex_client,
        !r ==> after == before,
{
}

/// Who gets which servers: a worker the bus alone; a concierge the global one alone; a
/// curator the bus and its own; every other lead the bus and the planner.
pub proof fn law_servers_of_a_session(worker: bool, kind: &str, r: ServerChoice)
    requires
        call_ensures(server_choice, (worker, kind), r),
    ensures
        r.planner == (!worker && kind@ != "concierge"@ && kind@ != "curator"@),
        r.global == (!worker && kind@ == "concierge"@),
        r.curator == (!worker && kind@ == "curator"@),
        r.bus == (worker || kind@ != "concierge"@),
{
    reveal_strlit("concierge");
    reveal_strlit("curator");
    assert("concierge"@.len() == 9 && "curator"@.len() == 7);
}

/// A session that opens tells its model and its effort where it knows them, and lists the
/// servers that it was given as connected.
pub proof fn law_opened_session(
    before: EngineInner,
    model: Option<String>,
    thinking: Option<String>,
    injected: Vec<String>,
    after: EngineInner,
    i: int,
)
    requires
        exists|m: &mut EngineInner|
            *m == before && *final(m) == after && #[trigger] call_ensures(
                acp_session_opened,
                (m, model, thinking, &injected),
                (),
            ),
    ensures
        after == (EngineInner {
            last_model: after.last_model,
            last_reasoning: after.last_reasoning,
            last_mcp_servers: after.last_mcp_servers,
            ..before
        }),
        model is Some ==> opt_view(after.last_model) == opt_view(model),
        model is None ==> opt_view(after.last_model) == opt_view(before.last_model),
        thinking is Some ==> opt_view(after.last_reasoning) == opt_view(thinking),
        thinking is None ==> opt_view(after.last_reasoning) == opt_view(before.last_reasoning),
        injected@.len() == 0 ==> crate::proto::servers_view(after.last_mcp_servers@)
            == crate::proto::servers_view(before.last_mcp_servers@),
        injected@.len() > 0 ==> after.last_mcp_servers@.len() == injected@.len(),
        0 <= i < injected@.len() ==> after.last_mcp_servers@[i].name@ == injected@[i]@
            && after.last_mcp_servers@[i].status@ == "connected"@,
{
    let v = crate::proto::servers_view(after.last_mcp_servers@);
    assert(v.len() == after.last_mcp_servers@.len());
    assert(texts_view(injected@).len() == injected@.len());
    if 0 <= i < injected@.len() {
        assert(v[i] == after.last_mcp_servers@[i]@);
        assert(texts_view(injected@)[i] == injected@[i]@);
    }
}

/// A session on the connection backend is published exactly when a launch would be
/// admitted; it then names the engine's session, and one that was never prompted is
/// forgotten again.
pub proof fn law_published_session(
    before: EngineInner,
    session: &str,
    expected: Option<u64>,
    admitted: bool,
    canceled: bool,
    after: EngineInner,
    forgotten: EngineInner,
)
    requires
        call_ensures(spawn_admissible, (&before, expected), admitted),
        exists|m: &mut EngineInner|
            *m == before && *final(m) == after && #[trigger] call_ensures(
                publish_acp_session,
                (m, session, expected),
                canceled,
            ),
        exists|m: &mut EngineInner|
            *m == after && *final(m) == forgotten && #[trigger] call_ensures(
                forget_unprompted_session,
                (m,),
                (),
            ),
    ensures
        after == (EngineInner {
            native_id: after.native_id,
            acp_client: after.acp_client,
            ..before
        }),
        forgotten == (EngineInner {
            native_id: forgotten.native_id,
            acp_client: forgotten.acp_client,
            ..after
        }),
        canceled == !admitted,
        canceled ==> after == before,
        !canceled ==> after.acp_client && after.native_id is Some && after.native_id->0@
            == session@,
        forgotten.native_id is None && !forgotten.acp_client,
        forgotten.turn == before.turn,
{
}

/// A session was replaced exactly when it is not the one that was known.
pub proof fn law_replaced_session(prior: Option<&str>, opened: &str, r: bool)
    requires
        call_ensures(session_replaced, (prior, opened), r),
    ensures
        r == !(prior is Some && prior->0@ == opened@),
{
}

/// The return of a prompt ends its turn unless a stop or a reset owns that end. It is an
/// error if it says so or says nothing, and cancelled if it says so or was interrupted.
pub proof fn law_returned_prompt(
    inner: &EngineInner,
    epoch: u64,
    outcome: Option<(bool, bool)>,
    r: PromptReturn,
    is_error: bool,
    cancelled: bool,
    follow: (bool, bool),
)
    requires
        call_ensures(prompt_returned, (inner, epoch, outcome), r),
        call_ensures(follow_up_returned, (inner, is_error, cancelled), follow),
    ensures
        r is Owned == (inner.stopped || inner.reset_epoch != epoch),
        r is Ends && outcome is Some ==> r->is_error == (outcome->0).0 && r->cancelled == (
        inner.interrupting || (outcome->0).1),
        r is Ends && outcome is None ==> r->is_error && r->cancelled == inner.interrupting,
        follow.0 == is_error,
        follow.1 == (cancelled || inner.interrupting),
{
}

/// Who a caller claims to be: one that is not registered is nobody; a lead says so; a
/// worker names its direction by a number.
pub proof fn law_claimed_identity(
    registered: Option<bool>,
    session: Option<i32>,
    scope: &str,
    r: Result<Option<i32>, IdentityError>,
)
    requires
        call_ensures(read_identity, (registered, session, scope), r),
    ensures
        registered == Some(false) ==> r is Err && r->Err_0 == IdentityError::NotRegistered,
        registered != Some(false) && session is None ==> (r is Ok == (scope@ == "lead"@)) && (
        r is Ok ==> r->Ok_0 is None) && (r is Err ==> r->Err_0 == IdentityError::InvalidLead),
        registered != Some(false) && session is Some ==> {
            let v = crate::decimal::text_value(scope@);
            &&& r is Ok == (v is Some && i32::MIN <= v->0 <= i32::MAX)
            &&& r is Ok ==> r->Ok_0 is Some && r->Ok_0->0 as int == v->0
            &&& r is Err ==> r->Err_0 == IdentityError::InvalidDirection
        },
{
}

/// A worker's claim holds only along the whole chain: the session is there and of that
/// direction, the direction is of that thread, and both repositories are of its workspace.
pub proof fn law_chain_of_a_worker(
    session_direction: Option<i32>,
    direction: i32,
    s: Result<(), IdentityError>,
    workspace: i32,
    primary: i32,
    repo: i32,
    c: Result<(), IdentityError>,
    direction_thread: i32,
    thread_id: i32,
    d: Result<(), IdentityError>,
)
    requires
        call_ensures(validate_session, (session_direction, direction), s),
        call_ensures(ensure_worker_parent_chain, (workspace, primary, repo), c),
        call_ensures(validate_direction, (direction_thread, thread_id), d),
    ensures
        s is Ok == (session_direction == Some(direction)),
        session_direction is None ==> s->Err_0 == IdentityError::SessionGone,
        session_direction is Some && session_direction->0 != direction ==> s->Err_0
            == IdentityError::SessionMoved,
        c is Ok == (primary == workspace && repo == workspace),
        primary != workspace ==> c->Err_0 == IdentityError::DirectionRepoForeign,
        primary == workspace && repo != workspace ==> c->Err_0
            == IdentityError::SessionRepoForeign,
        d is Ok == (direction_thread == thread_id),
        d is Err ==> d->Err_0 == IdentityError::DirectionMoved,
{
}

/// Each refusal of a queue command has a code of its own.
pub proof fn law_codes_of_queue_errors(
    e: QueueError,
    f: QueueError,
    r: &'static str,
    s: &'static str,
)
    requires
        call_ensures(QueueError::code, (&e,), r),
        call_ensures(QueueError::code, (&f,), s),
    ensures
        (r@ == s@) == (e == f),
        e == QueueError::Empty ==> r@ == "empty"@,
        e == QueueError::NotEditable ==> r@ == "not_editable"@,
        e == QueueError::BadOrder ==> r@ == "bad_order"@,
{
    reveal_strlit("empty");
    reveal_strlit("not_editable");
    reveal_strlit("bad_order");
    assert("empty"@.len() == 5 && "not_editable"@.len() == 12 && "bad_order"@.len() == 9);
}

/// The stored content of a message takes its new text, whatever else it holds; content
/// that cannot be read, or is missing, is written anew; only a document that has no members
/// is left alone.
pub proof fn law_stored_content_takes_the_new_text(
    content: Option<&str>,
    text: &str,
    r: Option<String>,
    doc: &Json,
    d: Json,
)
    requires
        call_ensures(edited_content, (content, text), r),
        doc@ is Obj || doc@ is Null,
        call_ensures(edited_document, (doc, text), d),
    ensures
        d@.str_at("text"@) == Some(text@),
        content is None ==> r is Some && r->0@ == json_text(plain_tree(text@)),
        content is Some && parsed(content->0@) == Some(doc@) ==> r is Some && r->0@ == json_text(
            d@,
        ),
        content is Some && parsed(content->0@) is None ==> r is Some && r->0@ == json_text(
            JsonView::Obj(map!["text"@ => JsonView::Str(text@)]),
        ),
        content is Some && parsed(content->0@) is Some && !(parsed(content->0@)->0 is Obj)
            && !(parsed(content->0@)->0 is Null) ==> r is None,
{
    let empty = Map::<Seq<char>, JsonView>::empty();
    let one = map!["text"@ => JsonView::Str(text@)];
    assert(empty.insert("text"@, JsonView::Str(text@)) =~= one);
}

/// That line is one line.
pub proof fn law_first_line_is_one_line(r: String)
    requires
        call_ensures(initialize_line, (), r),
    ensures
        r@.len() > 0 && r@.last() == '\n',
        r@.drop_last() == json_text(initialize_tree()),
{
    reveal_strlit("\n");
    assert("\n"@.len() == 1 && "\n"@[0] == '\n');
    assert(r@.drop_last() =~= json_text(initialize_tree()));
}

/// An edit of a message that does not wait changes nothing, and says so.
pub proof fn law_edit_of_a_missing_message(
    before: EngineInner,
    id: i32,
    text: &str,
    r: Result<bool, QueueError>,
    after: EngineInner,
)
    requires
        forall|j: int| 0 <= j < before.turn.queue@.len() ==> (
        #[trigger] before.turn.queue@[j]).queue_id != Some(id),
        exists|m: &mut EngineInner|
            *m == before && *final(m) == after && #[trigger] call_ensures(
                queue_edit,
                (m, id, text),
                r,
            ),
    ensures
        blank(text@) ==> r is Err && r->Err_0 == QueueError::Empty,
        !blank(text@) ==> r is Ok && !r->Ok_0,
        after == before,
{
    crate::row_laws::lemma_blank(text@);
}

} // verus!
