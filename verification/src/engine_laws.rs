//! What the clock, the hidden turns and the small tables promise.

use vstd::prelude::*;

use crate::decimal::{parse_i32, signed_text, text_value, unsigned_text};
use crate::engine::{
    is_acp_tool, mark_hidden_turn_started, mark_hidden_turn_started_with_delivery, per_turn,
    EngineInner, TurnClock,
};
use crate::json::json_text;
use crate::proto::{humanize_error_text, humanize_parsed};
use crate::registry::{LeadChatState, PendingAsks};
use crate::rows::text_row_tree;
use crate::streaming::{delta_opens_row, note_quota_exceeded, opening_content};

verus! {

/// A turn is marked as consumed once: the second mark finds it set, and a new turn, or a
/// rearm, starts over.
pub proof fn law_turn_is_marked_once(
    before: TurnClock,
    now: u64,
    begun: TurnClock,
    first: bool,
    marked: TurnClock,
    second: bool,
    after: TurnClock,
    rearmed: TurnClock,
)
    requires
        exists|m: &mut TurnClock|
            *m == before && *final(m) == begun && #[trigger] call_ensures(
                TurnClock::begin_turn,
                (m, now),
                (),
            ),
        exists|m: &mut TurnClock|
            *m == begun && *final(m) == marked && #[trigger] call_ensures(
                TurnClock::mark_consumed_once,
                (m,),
                first,
            ),
        exists|m: &mut TurnClock|
            *m == marked && *final(m) == after && #[trigger] call_ensures(
                TurnClock::mark_consumed_once,
                (m,),
                second,
            ),
        exists|m: &mut TurnClock|
            *m == marked && *final(m) == rearmed && #[trigger] call_ensures(
                TurnClock::rearm_consumed_gate,
                (m,),
                (),
            ),
    ensures
        begun.started_millis == now && !begun.consumed_marked,
        first && !second,
        marked.consumed_marked && marked.started_millis == now,
        after == marked,
        rearmed == begun,
{
}

/// The clock starts over with the next turn, and stands still when there is none.
pub proof fn law_clock_follows_the_turns(
    before: TurnClock,
    now: u64,
    on: TurnClock,
    idle: TurnClock,
)
    requires
        exists|m: &mut TurnClock|
            *m == before && *final(m) == on && #[trigger] call_ensures(
                TurnClock::on_turn_end,
                (m, true, now),
                (),
            ),
        exists|m: &mut TurnClock|
            *m == before && *final(m) == idle && #[trigger] call_ensures(
                TurnClock::on_turn_end,
                (m, false, now),
                (),
            ),
    ensures
        on.started_millis == now && !on.consumed_marked,
        idle == before,
{
}

/// A hidden turn takes the next number and a fresh clock, answers to nobody, and points at
/// its delivery by the negated id; one without a delivery points at nothing.
pub proof fn law_hidden_turn(
    before: EngineInner,
    delivery: Option<i32>,
    now: u64,
    r: i32,
    after: EngineInner,
    plain: i32,
    without: EngineInner,
)
    requires
        before.turn_id < i32::MAX,
        delivery != Some(i32::MIN),
        exists|m: &mut EngineInner|
            *m == before && *final(m) == after && #[trigger] call_ensures(
                mark_hidden_turn_started_with_delivery,
                (m, delivery, now),
                r,
            ),
        exists|m: &mut EngineInner|
            *m == before && *final(m) == without && #[trigger] call_ensures(
                mark_hidden_turn_started,
                (m, now),
                plain,
            ),
    ensures
        after == (EngineInner {
            turn: after.turn,
            turn_id: after.turn_id,
            clock: after.clock,
            current_origin_tag: after.current_origin_tag,
            turn_user_row: after.turn_user_row,
            ..before
        }),
        without == (EngineInner {
            turn: without.turn,
            turn_id: without.turn_id,
            clock: without.clock,
            current_origin_tag: without.current_origin_tag,
            turn_user_row: without.turn_user_row,
            ..before
        }),
        without.current_origin_tag is None && without.turn.queue == before.turn.queue,
        after.turn.quota_exceeded == (before.turn.busy && before.turn.quota_exceeded),
        r == before.turn_id + 1 && after.turn_id == r && after.turn.busy,
        after.clock.started_millis == now && !after.clock.consumed_marked,
        after.current_origin_tag is None,
        delivery is Some ==> after.turn_user_row is Some && after.turn_user_row->0 as int == -(
        delivery->0 as int),
        delivery is None ==> after.turn_user_row is None,
        after.turn.queue == before.turn.queue && after.turn.bus_read_pos
            == before.turn.bus_read_pos,
        plain == before.turn_id + 1 && without.turn.busy && without.turn_user_row is None,
        after.stopped == before.stopped && after.native_id == before.native_id,
{
}

/// Which tools start a process for each turn, and which run over the connection backend.
pub proof fn law_kinds_of_tools(tool: &str, each: bool, connected: bool)
    requires
        call_ensures(per_turn, (tool,), each),
        call_ensures(is_acp_tool, (tool,), connected),
    ensures
        each == (tool@ == "codex"@ || tool@ == "opencode"@),
        connected == (tool@ == "omp"@),
{
}

/// A number that was written reads back as it was; no text but that of a number in range
/// is read as one.
pub proof fn law_numbers_read_back(
    i: i32,
    written: String,
    given: &str,
    r: Option<i32>,
    other: &str,
    o: Option<i32>,
)
    requires
        call_ensures(signed_text, (i as i64,), written),
        given@ == written@,
        call_ensures(parse_i32, (given,), r),
        call_ensures(parse_i32, (other,), o),
    ensures
        r == Some(i),
        o is Some ==> text_value(other@) == Some(o->0 as int),
        text_value(other@) is None ==> o is None,
        other@.len() == 0 ==> o is None,
{
    crate::decimal::law_decimal_reads_back(i as int);
}

/// A count that was written reads back as it was.
pub proof fn law_counts_read_back(n: u64, written: String)
    requires
        call_ensures(unsigned_text, (n,), written),
    ensures
        text_value(written@) == Some(n as int),
{
    crate::decimal::law_decimal_reads_back(n as int);
}

/// An engine that is registered is found under its key until it is removed; the first one
/// to be registered stays, and a removal that expects another one leaves it.
pub proof fn law_engines_are_found_under_their_keys(
    before: LeadChatState,
    key: i64,
    engine: u64,
    got: u64,
    held: LeadChatState,
    found: Option<u64>,
    expected: u64,
    taken: Option<u64>,
    after: LeadChatState,
    other: i64,
)
    requires
        exists|m: &mut LeadChatState|
            *m == before && *final(m) == held && #[trigger] call_ensures(
                LeadChatState::get_or_insert,
                (m, key, engine),
                got,
            ),
        call_ensures(LeadChatState::get, (&held, key), found),
        exists|m: &mut LeadChatState|
            *m == held && *final(m) == after && #[trigger] call_ensures(
                LeadChatState::remove_if_same,
                (m, key, expected),
                taken,
            ),
    ensures
        found == Some(got),
        before@.dom().contains(key) ==> got == before@[key] && held@ =~= before@,
        !before@.dom().contains(key) ==> got == engine,
        taken is Some == (expected == got),
        taken is Some ==> !after@.dom().contains(key),
        taken is None ==> after@ == held@,
        other != key ==> after@.dom().contains(other) == before@.dom().contains(other),
        other != key && before@.dom().contains(other) ==> after@[other] == before@[other],
{
}

/// A worker runs exactly when its engine is registered and, where that can be seen, busy
/// and not stopped.
pub proof fn law_running_worker(
    state: &LeadChatState,
    session_id: i32,
    engine: Option<&EngineInner>,
    r: bool,
)
    requires
        call_ensures(LeadChatState::worker_is_running, (state, session_id, engine), r),
    ensures
        !state@.dom().contains(session_id as i64) ==> !r,
        state@.dom().contains(session_id as i64) && engine is None ==> r,
        state@.dom().contains(session_id as i64) && engine is Some ==> r == (engine->0.turn.busy
            && !engine->0.stopped),
{
}

/// A request that was noted is found once, with its own card.
pub proof fn law_asks_are_found_once(
    before: PendingAsks,
    request: String,
    ask: u64,
    held: PendingAsks,
    given: &str,
    first: Option<u64>,
    left: PendingAsks,
    second: Option<u64>,
    after: PendingAsks,
)
    requires
        given@ == request@,
        exists|m: &mut PendingAsks|
            *m == before && *final(m) == held && #[trigger] call_ensures(
                PendingAsks::insert,
                (m, request, ask),
                (),
            ),
        exists|m: &mut PendingAsks|
            *m == held && *final(m) == left && #[trigger] call_ensures(
                PendingAsks::remove,
                (m, given),
                first,
            ),
        exists|m: &mut PendingAsks|
            *m == left && *final(m) == after && #[trigger] call_ensures(
                PendingAsks::remove,
                (m, given),
                second,
            ),
    ensures
        first == Some(ask),
        second is None,
        after@ =~= before@.remove(request@),
{
}

/// A text asks for a row exactly when none is open for it, and the row starts out empty:
/// an item's under its branch, the anonymous one without a tag.
pub proof fn law_rows_start_out_empty(
    inner: &EngineInner,
    item: Option<&str>,
    branch: Option<&str>,
    opens: bool,
    content: String,
)
    requires
        call_ensures(delta_opens_row, (inner, item), opens),
        call_ensures(opening_content, (item, branch), content),
    ensures
        item is Some ==> opens == !inner.open_texts@.dom().contains(item->0@),
        item is None ==> opens == inner.current is None,
        item is Some && branch is Some ==> content@ == json_text(
            text_row_tree(seq![], Some(branch->0@)),
        ),
        item is None || branch is None ==> content@ == json_text(text_row_tree(seq![], None)),
{
}

/// A signal of exhaustion counts against the running turn, and against none where none
/// runs.
pub proof fn law_exhaustion_is_of_the_running_turn(
    before: EngineInner,
    r: bool,
    after: EngineInner,
)
    requires
        exists|m: &mut EngineInner|
            *m == before && *final(m) == after && #[trigger] call_ensures(
                note_quota_exceeded,
                (m,),
                r,
            ),
    ensures
        after == (EngineInner { turn: after.turn, ..before }),
        after.turn.bus_read_pos == before.turn.bus_read_pos,
        r == before.turn.busy,
        before.turn.busy ==> after.turn.quota_exceeded,
        !before.turn.busy ==> after.turn.quota_exceeded == before.turn.quota_exceeded,
        after.turn.busy == before.turn.busy && after.turn.queue == before.turn.queue,
{
}

/// An error text is read as the document at its start, and told as that document is.
pub proof fn law_error_text_is_read_as_a_document(
    raw: &str,
    doc: Option<&crate::json::Json>,
    r: String,
    told: String,
)
    requires
        crate::json::first_parsed(crate::text::trimmed(raw@)) == (match doc {
            Some(d) => Some(d@),
            None => None,
        }),
        call_ensures(humanize_error_text, (raw,), r),
        call_ensures(humanize_parsed, (raw, doc), told),
    ensures
        r@ == told@,
{
}

/// A fresh engine runs nothing, knows nothing, and waits for nothing.
pub proof fn law_fresh_engine_is_at_rest(
    thread_id: i32,
    session_id: Option<i32>,
    tool: &str,
    r: EngineInner,
)
    requires
        call_ensures(EngineInner::fresh, (thread_id, session_id, tool), r),
    ensures
        r.extra_args@.len() == 0 && r.extra_env@.len() == 0 && r.system_prompt@.len() == 0
            && r.cwd@.len() == 0 && r.ask_dir@.len() == 0 && r.command is None,
        r.last_reasoning is None && r.last_mcp_servers@.len() == 0 && r.last_tools@.len() == 0,
        r.probe_seq == 0 && r.probe_committed == 0 && r.worktree_id is None,
        !r.pending_skill_refresh && !r.pending_command_refresh && !r.turn_saw_text,
        r.clock.started_millis == 0 && !r.clock.consumed_marked,
        r.wf(),
        r.thread_id == thread_id && r.session_id == session_id && r.tool@ == tool@,
        crate::control_laws::nothing_runs(r),
        !r.stopped && !r.interrupting && !r.rewinding && !r.tearing_down
            && !r.quota_failover_committing,
        r.native_id is None && r.last_model is None && r.last_context_tokens is None
            && r.last_window is None && r.slash_commands@.len() == 0,
        r.pending_context_digest is None && r.last_assistant_uuid is None
            && r.current_origin_tag is None,
        r.turn_id == 0 && r.generation == 0 && r.reset_epoch == 0 && !r.turn.quota_exceeded,
        !r.codex_client && !r.acp_client && r.acp_pending_asks@.len() == 0,
{
}

/// A revived engine is told to go on exactly when it is idle.
pub proof fn law_idle_engine_is_nudged(inner: &EngineInner, r: bool)
    requires
        call_ensures(crate::revive::nudge_engine_if_idle, (inner,), r),
    ensures
        r == !inner.turn.busy,
{
}

/// What is new holds nothing.
pub proof fn law_new_registries_are_empty(
    receipts: crate::registry::ReceiptRegistry,
    engines: LeadChatState,
    asks: PendingAsks,
    id: i32,
    key: i64,
    request: Seq<char>,
)
    requires
        call_ensures(crate::registry::ReceiptRegistry::new, (), receipts),
        call_ensures(LeadChatState::new, (), engines),
        call_ensures(PendingAsks::new, (), asks),
    ensures
        !receipts@.contains(id),
        !engines@.dom().contains(key),
        !asks@.dom().contains(request),
{
}

} // verus!
