//! What the end of a turn promises, said of the engine before and after.

use vstd::prelude::*;

use crate::engine::{EngineInner, TurnClock};
use crate::json::{json_text, JsonView};
use crate::rows::{text_row_tree, updates_view, ToolRowUpdate};
use crate::text::opt_view;
use crate::turn::Outgoing;
use crate::turn_end::{
    activity_after, advance_turn, begin_turn_end, cleanup_disconnected_turn, dispatch_overtaken,
    finish_turn_end, persist_disconnected_turn_row, prompt_end_stands, queued_dispatch_admissible,
    reader_eof, take_open_rows, terminal_content, turn_end_status, Advance, Disconnect,
    DisconnectedTurnRow, EofPlan, OpenRows, TurnEnding, Wire, SILENT_EXIT,
};
use crate::turn_laws::{delivers, law_turn_end_delivers_in_order};

verus! {

/// The names of the ways a turn ends differ.
proof fn lemma_statuses()
    ensures
        "interrupted"@ != "error"@ && "interrupted"@ != "complete"@ && "error"@ != "complete"@,
{
    reveal_strlit("interrupted");
    reveal_strlit("error");
    reveal_strlit("complete");
    assert("interrupted"@.len() == 11 && "error"@.len() == 5 && "complete"@.len() == 8);
}

/// A turn that was told to stop ends as interrupted, whatever else went wrong; otherwise
/// an error makes it one in error, and it is complete only without.
pub proof fn law_interrupt_wins(interrupting: bool, is_error: bool, r: &'static str)
    requires
        call_ensures(turn_end_status, (interrupting, is_error), r),
    ensures
        (r@ == "interrupted"@) == interrupting,
        (r@ == "error"@) == (!interrupting && is_error),
        (r@ == "complete"@) == (!interrupting && !is_error),
{
    lemma_statuses();
}

/// The document of a turn that ended before it said anything.
pub open spec fn terminal_document(kind: Seq<char>) -> Seq<char> {
    json_text(JsonView::Obj(map!["terminal"@ => JsonView::Str(kind)]))
}

/// A turn without any output is told of when it failed or was interrupted, and not when
/// it is complete.
pub proof fn law_only_cut_turns_are_told_of(status: &str, r: Option<String>)
    requires
        call_ensures(terminal_content, (status,), r),
    ensures
        status@ == "error"@ ==> opt_view(r) == Some(terminal_document("error_before_output"@)),
        status@ == "interrupted"@ ==> opt_view(r) == Some(
            terminal_document("interrupted_before_output"@),
        ),
        status@ != "error"@ && status@ != "interrupted"@ ==> r is None,
{
    lemma_statuses();
}

/// Every tool row that waits is closed with that status, as it stands.
pub open spec fn all_closed(before: EngineInner, r: Seq<ToolRowUpdate>, status: Seq<char>) -> bool {
    &&& r.len() == before.tool_rows.entries@.len()
    &&& forall|i: int|
        0 <= i < r.len() ==> {
            &&& (#[trigger] r[i]).row == before.tool_rows.entries@[i].1.row
            &&& r[i].content@ == json_text(before.tool_rows.entries@[i].1.content@)
            &&& r[i].status@ == status
        }
}

proof fn lemma_closed(before: EngineInner, r: Seq<ToolRowUpdate>, status: Seq<char>)
    requires
        updates_view(r) == crate::rows::orphan_updates_spec(
            before.tool_rows.entries@,
            status,
        ),
    ensures
        all_closed(before, r, status),
{
    assert(updates_view(r).len() == r.len());
    assert forall|i: int| 0 <= i < r.len() implies {
        &&& (#[trigger] r[i]).row == before.tool_rows.entries@[i].1.row
        &&& r[i].content@ == json_text(before.tool_rows.entries@[i].1.content@)
        &&& r[i].status@ == status
    } by {
        assert(updates_view(r)[i] == r[i]@);
    }
}

/// The end of a turn closes whatever is open: every tool row that waits, with the turn's
/// own status, and the rows that text streamed into. Afterwards none is open, the
/// interrupt is over, and the turn itself is as it was.
pub proof fn law_turn_end_closes_what_is_open(
    before: EngineInner,
    wire: Wire,
    is_error: bool,
    cancelled: bool,
    context_tokens: Option<u64>,
    finished_turn: Option<String>,
    r: TurnEnding,
    after: EngineInner,
)
    requires
        before.wf(),
        exists|m: &mut EngineInner|
            *m == before && *final(m) == after && #[trigger] call_ensures(
                begin_turn_end,
                (m, wire, is_error, cancelled, context_tokens, finished_turn),
                r,
            ),
    ensures
        after.wf(),
        after == (EngineInner {
            last_context_tokens: after.last_context_tokens,
            interrupting: after.interrupting,
            current: after.current,
            tool_rows: after.tool_rows,
            open_texts: after.open_texts,
            ..before
        }),
        (r.status@ == "interrupted"@) == (before.interrupting || cancelled),
        (r.status@ == "error"@) == (!before.interrupting && !cancelled && is_error),
        (r.status@ == "complete"@) == (!before.interrupting && !cancelled && !is_error),
        all_closed(before, r.tools@, r.status@),
        r.current == before.current,
        wire != Wire::Reader ==> r.texts@ == before.open_texts.entries@,
        wire == Wire::Reader ==> r.texts@.len() == 0 && after.open_texts == before.open_texts,
        after.current is None && after.tool_rows.entries@.len() == 0 && !after.interrupting,
        wire != Wire::Reader ==> after.open_texts.entries@.len() == 0,
        after.turn == before.turn && after.turn_id == before.turn_id && after.native_id
            == before.native_id,
        r.quota_exceeded == before.turn.quota_exceeded,
{
    lemma_statuses();
    lemma_closed(before, r.tools@, r.status@);
}

/// The end of a turn tells of the context where its wire counts it, and keeps the reading;
/// one that it does not count leaves the last reading.
pub proof fn law_turn_end_keeps_the_reading(
    before: EngineInner,
    wire: Wire,
    is_error: bool,
    cancelled: bool,
    context_tokens: Option<u64>,
    finished_turn: Option<String>,
    r: TurnEnding,
    after: EngineInner,
)
    requires
        before.wf(),
        exists|m: &mut EngineInner|
            *m == before && *final(m) == after && #[trigger] call_ensures(
                begin_turn_end,
                (m, wire, is_error, cancelled, context_tokens, finished_turn),
                r,
            ),
    ensures
        wire != Wire::Connection ==> r.usage == context_tokens,
        wire == Wire::Connection ==> r.usage is None,
        wire != Wire::Connection && context_tokens is Some ==> after.last_context_tokens
            == context_tokens,
        wire == Wire::Connection || context_tokens is None ==> after.last_context_tokens
            == before.last_context_tokens,
{
}

/// A turn that ended without having said anything is told of by a row, if it did not
/// complete. It said something where its row is open, or, on the shared connection, where
/// an item's row is or a text was completed.
pub proof fn law_silent_turns_are_told_of(
    before: EngineInner,
    wire: Wire,
    is_error: bool,
    cancelled: bool,
    context_tokens: Option<u64>,
    finished_turn: Option<String>,
    r: TurnEnding,
    after: EngineInner,
)
    requires
        before.wf(),
        exists|m: &mut EngineInner|
            *m == before && *final(m) == after && #[trigger] call_ensures(
                begin_turn_end,
                (m, wire, is_error, cancelled, context_tokens, finished_turn),
                r,
            ),
    ensures
        ({
            let spoke = before.current is Some || (wire != Wire::Reader && (
            before.open_texts.entries@.len() > 0 || before.turn_saw_text));
            &&& spoke || r.status@ == "complete"@ ==> r.terminal is None
            &&& !spoke && r.status@ == "error"@ ==> opt_view(r.terminal) == Some(
                terminal_document("error_before_output"@),
            )
            &&& !spoke && r.status@ == "interrupted"@ ==> opt_view(r.terminal) == Some(
                terminal_document("interrupted_before_output"@),
            )
        }),
{
    lemma_statuses();
}

/// A turn leaves an anchor exactly when it completes, a visible message opened it and its
/// wire names where it ended: the last assistant event, or the turn of the app-server.
pub proof fn law_anchor_of_a_turn(
    before: EngineInner,
    wire: Wire,
    is_error: bool,
    cancelled: bool,
    context_tokens: Option<u64>,
    finished_turn: Option<String>,
    r: TurnEnding,
    after: EngineInner,
)
    requires
        before.wf(),
        exists|m: &mut EngineInner|
            *m == before && *final(m) == after && #[trigger] call_ensures(
                begin_turn_end,
                (m, wire, is_error, cancelled, context_tokens, finished_turn),
                r,
            ),
    ensures
        ({
            let named = match wire {
                Wire::Reader => opt_view(before.last_assistant_uuid),
                Wire::AppServer => opt_view(finished_turn),
                Wire::Connection => None,
            };
            let visible = before.turn_user_row is Some && before.turn_user_row->0 > 0;
            &&& r.anchor is Some == (r.status@ == "complete"@ && visible && named is Some)
            &&& r.anchor is Some ==> r.anchor->0.row == before.turn_user_row->0
                && r.anchor->0.anchor@ == named->0
        }),
{
    lemma_statuses();
}

/// The engine goes on with the first of the turns to come: a new turn, under the next
/// number, with a fresh clock. When none is to come it goes idle, and keeps its number and
/// its clock. The rest of the engine is as it was.
pub proof fn law_engine_goes_on_with_the_next(
    before: EngineInner,
    now: u64,
    r: Advance,
    after: EngineInner,
)
    requires
        before.turn_id < i32::MAX,
        exists|m: &mut EngineInner|
            *m == before && *final(m) == after && #[trigger] call_ensures(
                advance_turn,
                (m, now),
                r,
            ),
    ensures
        before.wf() ==> after.wf(),
        after == (EngineInner {
            turn: after.turn,
            turn_user_row: after.turn_user_row,
            current_origin_tag: after.current_origin_tag,
            turn_id: after.turn_id,
            clock: after.clock,
            ..before
        }),
        !after.turn.quota_exceeded,
        r.next is Some == (before.turn.agenda().len() > 0),
        r.next is Some ==> delivers(before.turn.agenda()[0], r.next->0) && after.turn.agenda()
            == before.turn.agenda().drop_first() && after.turn_id == before.turn_id + 1,
        r.next is None ==> !after.turn.busy && after.turn_id == before.turn_id
            && after.turn_user_row is None && after.current_origin_tag is None,
        r.turn_id == after.turn_id,
        r.still_busy == after.turn.busy,
        r.dequeue_epoch == before.reset_epoch && after.reset_epoch == before.reset_epoch,
        after.turn.busy ==> after.clock == (TurnClock {
            started_millis: now,
            consumed_marked: false,
        }),
        !after.turn.busy ==> after.clock == before.clock,
        r.next is Some && r.next->0.queue_id is Some ==> after.turn_user_row
            == r.next->0.queue_id,
        after.native_id == before.native_id && after.current == before.current && after.stopped
            == before.stopped,
{
    law_turn_end_delivers_in_order(before.turn, after.turn, r.next);
}

/// After the end of a turn the engine goes on in the same way, and the anchor of the turn
/// that ended is forgotten.
pub proof fn law_finished_turn_leaves_no_anchor_behind(
    before: EngineInner,
    wire: Wire,
    now: u64,
    r: Advance,
    after: EngineInner,
)
    requires
        before.turn_id < i32::MAX,
        exists|m: &mut EngineInner|
            *m == before && *final(m) == after && #[trigger] call_ensures(
                finish_turn_end,
                (m, wire, now),
                r,
            ),
    ensures
        after == (EngineInner {
            turn: after.turn,
            turn_user_row: after.turn_user_row,
            current_origin_tag: after.current_origin_tag,
            turn_id: after.turn_id,
            clock: after.clock,
            last_assistant_uuid: after.last_assistant_uuid,
            turn_saw_text: after.turn_saw_text,
            ..before
        }),
        !after.turn.quota_exceeded,
        after.last_assistant_uuid is None,
        wire != Wire::Reader ==> !after.turn_saw_text,
        wire == Wire::Reader ==> after.turn_saw_text == before.turn_saw_text,
        r.next is Some == (before.turn.agenda().len() > 0),
        r.next is Some ==> delivers(before.turn.agenda()[0], r.next->0) && after.turn.agenda()
            == before.turn.agenda().drop_first() && after.turn_id == before.turn_id + 1,
        r.next is None ==> !after.turn.busy && after.turn_id == before.turn_id
            && after.turn_user_row is None,
        r.turn_id == after.turn_id && r.still_busy == after.turn.busy,
        r.dequeue_epoch == before.reset_epoch,
{
    law_turn_end_delivers_in_order(before.turn, after.turn, r.next);
}

/// A message that was dequeued goes out exactly while nothing stopped, interrupted, tore
/// down or reset the engine since; and it is overtaken exactly by a stop or a reset.
pub proof fn law_stop_overtakes_a_dequeued_message(
    inner: &EngineInner,
    epoch: u64,
    goes: bool,
    overtaken: bool,
    stands: bool,
)
    requires
        call_ensures(queued_dispatch_admissible, (inner, epoch), goes),
        call_ensures(dispatch_overtaken, (inner, epoch), overtaken),
        call_ensures(prompt_end_stands, (inner, epoch), stands),
    ensures
        inner.stopped || inner.reset_epoch != epoch ==> !goes && overtaken && !stands,
        !inner.stopped && inner.reset_epoch == epoch ==> !overtaken && stands,
        !inner.stopped && inner.reset_epoch == epoch ==> goes == (!inner.interrupting
            && !inner.tearing_down),
{
}

/// A turn that goes on is busy and running; otherwise the session is idle.
pub proof fn law_activity_follows_the_turn(still_busy: bool, r: (&'static str, &'static str))
    requires
        call_ensures(activity_after, (still_busy,), r),
    ensures
        still_busy ==> r.0@ == "running"@ && r.1@ == "busy"@,
        !still_busy ==> r.0@ == "idle"@ && r.1@ == "idle"@,
{
}

/// Taking the open rows takes all of them, closes the waiting tool rows with that status,
/// and leaves none.
pub proof fn law_open_rows_are_taken_whole(
    before: EngineInner,
    status: &str,
    r: OpenRows,
    after: EngineInner,
)
    requires
        before.wf(),
        exists|m: &mut EngineInner|
            *m == before && *final(m) == after && #[trigger] call_ensures(
                take_open_rows,
                (m, status),
                r,
            ),
    ensures
        after.wf(),
        after == (EngineInner {
            tool_rows: after.tool_rows,
            open_texts: after.open_texts,
            current: after.current,
            ..before
        }),
        all_closed(before, r.tools@, status@),
        r.texts@ == before.open_texts.entries@,
        r.current == before.current,
        after.tool_rows.entries@.len() == 0 && after.open_texts.entries@.len() == 0
            && after.current is None,
        after.turn == before.turn && after.stopped == before.stopped,
{
    lemma_closed(before, r.tools@, status@);
}

/// The end of a child's output. Of a child that another has followed it means nothing. It
/// ends the turn of a tool with a process per turn, and leaves the queue to the next; a
/// turn without any event is told of, unless it was interrupted. A resident child takes
/// its turn and its queue with it, and the turn ends in error.
pub proof fn law_end_of_output(
    before: EngineInner,
    generation: u64,
    saw_event: bool,
    r: EofPlan,
    after: EngineInner,
)
    requires
        before.wf(),
        exists|m: &mut EngineInner|
            *m == before && *final(m) == after && #[trigger] call_ensures(
                reader_eof,
                (m, generation, saw_event),
                r,
            ),
    ensures
        after.wf(),
        after == (EngineInner {
            interrupting: after.interrupting,
            current: after.current,
            tool_rows: after.tool_rows,
            child: after.child,
            child_permit: after.child_permit,
            turn: after.turn,
            stdin: after.stdin,
            clock: after.clock,
            turn_user_row: after.turn_user_row,
            ..before
        }),
        ({
            let current = before.generation == generation;
            let each = before.tool@ == "codex"@ || before.tool@ == "opencode"@;
            &&& !current ==> r is Stale && after == before
            &&& current ==> !after.child && !after.child_permit && after.current is None
                && after.tool_rows.entries@.len() == 0 && !after.interrupting
            &&& current && each ==> {
                &&& r is TurnOver
                &&& after.turn == before.turn && after.stdin == before.stdin
                &&& before.interrupting ==> r->TurnOver_status@ == "interrupted"@
                &&& !before.interrupting ==> r->TurnOver_status@ == "complete"@
                &&& all_closed(before, r->TurnOver_tools@, r->TurnOver_status@)
                &&& r->TurnOver_current == before.current
                &&& saw_event || before.interrupting ==> r->notice is None
                &&& !saw_event && !before.interrupting ==> r->notice is Some && r->notice->0@
                    == json_text(text_row_tree(SILENT_EXIT@, None))
            }
            &&& current && !each ==> {
                &&& r is ResidentGone
                &&& !after.turn.busy && after.turn.queue@.len() == 0 && !after.stdin
                &&& after.turn_user_row is None
                &&& before.interrupting ==> r->ResidentGone_status@ == "interrupted"@
                &&& !before.interrupting ==> r->ResidentGone_status@ == "error"@
                &&& all_closed(before, r->ResidentGone_tools@, r->ResidentGone_status@)
                &&& r->ResidentGone_current == before.current
            }
        }),
{
    lemma_statuses();
    if before.generation == generation {
        if before.tool@ == "codex"@ || before.tool@ == "opencode"@ {
            lemma_closed(before, r->TurnOver_tools@, r->TurnOver_status@);
        } else {
            lemma_closed(before, r->ResidentGone_tools@, r->ResidentGone_status@);
        }
    }
}

/// A row that was open when the connection went closes with what had streamed; where none
/// was, a turn that ran is told of, unless it completed.
pub proof fn law_row_of_a_lost_turn(
    status: &str,
    had_busy_turn: bool,
    current: Option<crate::engine::TextRow>,
    r: Option<DisconnectedTurnRow>,
)
    requires
        call_ensures(persist_disconnected_turn_row, (status, had_busy_turn, current), r),
    ensures
        current is Some ==> r is Some && r->0 is Finalized && r->0->message_id == current->0.row
            && r->0->Finalized_content@ == json_text(text_row_tree(current->0.buf@, None)),
        current is None && had_busy_turn && status@ == "error"@ ==> r is Some && r->0 is Inserted
            && r->0->Inserted_content@ == terminal_document("error_before_output"@),
        current is None && had_busy_turn && status@ == "interrupted"@ ==> r is Some
            && r->0 is Inserted && r->0->Inserted_content@ == terminal_document(
            "interrupted_before_output"@,
        ),
        current is None && !had_busy_turn ==> r is None,
        current is None && status@ != "error"@ && status@ != "interrupted"@ ==> r is None,
{
    lemma_statuses();
}

/// A lost connection stops the engine and clears what was under way: the open rows are
/// closed, the rows that waited in the queue are named, and every later result of what ran
/// is out of date. An engine at rest is left alone.
pub proof fn law_lost_connection_clears_the_turn(
    before: EngineInner,
    fallback: &str,
    r: Option<Disconnect>,
    after: EngineInner,
)
    requires
        before.wf(),
        before.reset_epoch < u64::MAX,
        exists|m: &mut EngineInner|
            *m == before && *final(m) == after && #[trigger] call_ensures(
                cleanup_disconnected_turn,
                (m, fallback),
                r,
            ),
    ensures
        after.wf(),
        after == (EngineInner {
            turn: after.turn,
            open_texts: after.open_texts,
            tool_rows: after.tool_rows,
            current: after.current,
            turn_saw_text: after.turn_saw_text,
            interrupting: after.interrupting,
            child: after.child,
            child_permit: after.child_permit,
            stdin: after.stdin,
            clock: after.clock,
            current_origin_tag: after.current_origin_tag,
            turn_user_row: after.turn_user_row,
            stopped: after.stopped,
            reset_epoch: after.reset_epoch,
            ..before
        }),
        r is Some ==> after.turn.bus_read_pos is None && !after.turn.quota_exceeded
            && after.current_origin_tag is None && !after.turn_saw_text && !after.child_permit,
        r is None == (!before.turn.busy && before.current is None
            && before.open_texts.entries@.len() == 0 && before.turn.queue@.len() == 0
            && before.tool_rows.entries@.len() == 0),
        r is None ==> after == before,
        r is Some ==> {
            &&& after.stopped && after.reset_epoch == before.reset_epoch + 1
            &&& !after.turn.busy && after.turn.queue@.len() == 0 && after.current is None
            &&& after.open_texts.entries@.len() == 0 && after.tool_rows.entries@.len() == 0
            &&& !after.child && !after.stdin && !after.interrupting && after.turn_user_row is None
            &&& before.interrupting ==> r->0.status@ == "interrupted"@
            &&& !before.interrupting ==> r->0.status@ == fallback@
            &&& r->0.turn_id == before.turn_id
            &&& all_closed(before, r->0.tools@, r->0.status@)
            &&& r->0.texts@ == before.open_texts.entries@
            &&& r->0.drained@ == before.turn.queue@.filter(
                |o: Outgoing| o.queue_id is Some,
            ).map_values(|o: Outgoing| o.queue_id->0)
            &&& before.current is Some ==> r->0.row is Some && r->0.row->0 is Finalized
                && r->0.row->0->message_id == before.current->0.row
                && r->0.row->0->Finalized_content@ == json_text(
                text_row_tree(before.current->0.buf@, None),
            )
        },
{
    if r is Some {
        lemma_closed(before, r->0.tools@, r->0.status@);
        crate::queue_laws::lemma_ids(before.turn.queue@);
    }
}

} // verus!
