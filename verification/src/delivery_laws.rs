//! What hidden deliveries promise, said of rows, receipts and the engine.

use vstd::prelude::*;

use crate::delivery::{
    admit_durable_row, batch_delivery_failed, batch_resident_failed, begin_durable_batch,
    delivery_tag, durable_batch_may_resume, durable_hidden_delivery_text, durable_text_parsed,
    finish_hidden_receipt, first_row_error, hidden_delivery_id_from_tag,
    hidden_delivery_is_duplicate, hidden_delivery_tag, hidden_turn_admissible, note_turn_activity,
    pending_hidden_rows_at_admission, plan_approval_admissible, receipt_authority,
    recover_hidden_receipt, register_hidden_receipt, reset_failed_hidden_turn, row_counts,
    row_error, settle_consume_mark, settle_hidden_receipt, should_ensure_active_resident,
    still_pending, surface_key, tagged_delivery, Activity, Batch, BatchError, ConsumeMark,
    ConsumeOutcome, DurableResumeAuthorization, HiddenReceiptAuthoritativeState, HiddenRow,
    HiddenRowError, RecoverStep, RowStep, StoredDelivery,
};
use crate::engine::{hidden_delivery, EngineInner, HiddenDelivery, TurnClock};
use crate::hidden::{
    begin_hidden, card_checked, deliver_hidden, DeliveryRow, HiddenError, HiddenRequest,
    HiddenStart, HiddenStep,
};
use crate::json::{json_text, parsed, Json};
use crate::registry::ReceiptRegistry;
use crate::sending::Transport;
use crate::text::opt_view;
use crate::turn::{Outgoing, BUS_WAKE_PROMPT};

verus! {

/// A tag that was made for a delivery names that delivery, and no other text is taken for
/// one: without the mark in front there is none.
pub proof fn law_tags_name_their_deliveries(
    id: i32,
    tag: String,
    given: &str,
    r: Option<i32>,
    other: &str,
    o: Option<i32>,
)
    requires
        call_ensures(hidden_delivery_tag, (id,), tag),
        given@ == tag@,
        call_ensures(hidden_delivery_id_from_tag, (Some(given),), r),
        call_ensures(hidden_delivery_id_from_tag, (Some(other),), o),
    ensures
        id > 0 ==> r == Some(id),
        id <= 0 ==> r is None,
        !("__weft_hidden_delivery:"@.is_prefix_of(other@)) ==> o is None,
        o is Some ==> o->0 > 0,
{
    crate::delivery::law_tag_names_its_delivery(id);
}

/// The lead of a thread has a key of its own, apart from those of the sessions.
pub proof fn law_surface_keys(thread_id: i32, session: i32, lead: i64, worker: i64)
    requires
        call_ensures(surface_key, (thread_id, None), lead),
        call_ensures(surface_key, (thread_id, Some(session)), worker),
    ensures
        lead as int == -(thread_id as int),
        worker == session,
        thread_id > 0 && session > 0 ==> lead != worker,
{
}

/// Where a hidden delivery goes: nowhere in a stopped engine; behind the turn of a busy
/// one; into a turn of its own for the tools that start one; to the resident process if it
/// listens.
pub proof fn law_where_a_hidden_delivery_goes(
    tool: &str,
    busy: bool,
    has_stdin: bool,
    stopped: bool,
    r: HiddenDelivery,
)
    requires
        call_ensures(hidden_delivery, (tool, busy, has_stdin, stopped), r),
    ensures
        ({
            let own_turn = tool@ == "codex"@ || tool@ == "opencode"@ || tool@ == "omp"@;
            &&& stopped ==> r == HiddenDelivery::Noop
            &&& !stopped && busy ==> r == HiddenDelivery::Queue
            &&& !stopped && !busy && own_turn ==> r == HiddenDelivery::SpawnTurn
            &&& !stopped && !busy && !own_turn && has_stdin ==> r == HiddenDelivery::WriteResident
            &&& !stopped && !busy && !own_turn && !has_stdin ==> r == HiddenDelivery::Noop
        }),
{
}

/// What admits what: a plan needs an engine at rest that nothing holds; a hidden turn one
/// that is neither stopped nor torn down; and a stopped engine gets no resident process.
pub proof fn law_admissions(
    inner: &EngineInner,
    plan: bool,
    hidden: bool,
    ensure: bool,
    delivery: Option<i32>,
    resident: bool,
)
    requires
        call_ensures(plan_approval_admissible, (inner,), plan),
        call_ensures(hidden_turn_admissible, (inner,), hidden),
        call_ensures(should_ensure_active_resident, (inner, ensure, delivery), resident),
    ensures
        plan == (!inner.rewinding && !inner.quota_failover_committing && !inner.turn.busy
            && inner.turn.queue@.len() == 0 && inner.turn.bus_read_pos is None),
        hidden == (!inner.stopped && !inner.tearing_down),
        inner.stopped ==> !resident,
        !inner.stopped ==> resident == (ensure || delivery is Some),
{
}

/// A delivery counts as represented exactly when its receipt is in flight, the running
/// turn is its own, or it waits in the queue.
pub proof fn law_when_a_delivery_is_a_duplicate(
    inner: &EngineInner,
    receipts: &ReceiptRegistry,
    id: i32,
    r: bool,
    i: int,
)
    requires
        id != i32::MIN,
        call_ensures(hidden_delivery_is_duplicate, (inner, receipts, id), r),
    ensures
        receipts@.contains(id) ==> r,
        inner.turn_user_row is Some && inner.turn_user_row->0 as int == -(id as int) ==> r,
        0 <= i < inner.turn.queue@.len() && tagged_delivery(
            opt_view(inner.turn.queue@[i].origin_tag),
        ) == Some(id) ==> r,
        !receipts@.contains(id) && inner.turn_user_row != Some((-id) as i32) && (forall|j: int|
            0 <= j < inner.turn.queue@.len() ==> tagged_delivery(
                opt_view((#[trigger] inner.turn.queue@[j]).origin_tag),
            ) != Some(id)) ==> !r,
{
}

/// A receipt is registered once, and finishing it takes it away: what was registered and
/// finished leaves the registry as it was, and the receipts of others are never touched.
pub proof fn law_receipts_come_and_go(
    before: ReceiptRegistry,
    id: i32,
    fresh: bool,
    held: ReceiptRegistry,
    inner: EngineInner,
    consumed: bool,
    left: EngineInner,
    after: ReceiptRegistry,
    other: i32,
)
    requires
        id != i32::MIN,
        exists|m: &mut ReceiptRegistry|
            *m == before && *final(m) == held && #[trigger] call_ensures(
                register_hidden_receipt,
                (m, id),
                fresh,
            ),
        exists|m: &mut EngineInner, s: &mut ReceiptRegistry|
            *m == inner && *final(m) == left && *s == held && *final(s) == after
                && #[trigger] call_ensures(finish_hidden_receipt, (m, s, id, consumed), ()),
    ensures
        left == (EngineInner { turn_user_row: left.turn_user_row, clock: left.clock, ..inner }),
        left.clock.started_millis == inner.clock.started_millis,
        fresh == !before@.contains(id),
        held@.contains(id) && !after@.contains(id),
        fresh ==> after@ =~= before@,
        other != id ==> after@.contains(other) == before@.contains(other),
        inner.turn_user_row != Some((-id) as i32) ==> left == inner,
        inner.turn_user_row == Some((-id) as i32) && consumed ==> left == (EngineInner {
            turn_user_row: None,
            ..inner
        }),
        inner.turn_user_row == Some((-id) as i32) && !consumed ==> !left.clock.consumed_marked
            && left.turn_user_row == inner.turn_user_row,
{
}

/// The first activity of a turn marks what opened it, once: the message of a visible one,
/// the durable delivery of a hidden one, unless its receipt is in flight.
pub proof fn law_first_activity_consumes(
    before: EngineInner,
    receipts: ReceiptRegistry,
    r: Activity,
    after: EngineInner,
    held: ReceiptRegistry,
)
    requires
        before.turn_user_row != Some(i32::MIN),
        exists|m: &mut EngineInner, s: &mut ReceiptRegistry|
            *m == before && *final(m) == after && *s == receipts && *final(s) == held
                && #[trigger] call_ensures(note_turn_activity, (m, s), r),
    ensures
        before.clock.consumed_marked ==> r is Nothing && held@ == receipts@,
        before.turn_user_row is None ==> r is Nothing,
        !before.clock.consumed_marked && before.turn_user_row is Some && before.turn_user_row->0
            >= 0 ==> r == (Activity::MarkConsumed { message_id: before.turn_user_row->0 }),
        !before.clock.consumed_marked && before.turn_user_row is Some && before.turn_user_row->0
            < 0 ==> {
            let id = (-before.turn_user_row->0) as i32;
            &&& receipts@.contains(id) ==> r is Nothing && held@ == receipts@
            &&& !receipts@.contains(id) ==> r is ConsumeDelivery && r->delivery_id == id
                && held@ == receipts@.insert(id)
        },
        r is ConsumeDelivery && before.session_id is Some ==> r->key == before.session_id->0,
        r is ConsumeDelivery && before.session_id is None ==> r->key as int == -(
        before.thread_id as int),
        after.clock.consumed_marked,
        after == (EngineInner { clock: after.clock, ..before }),
        after.clock.started_millis == before.clock.started_millis,
{
}

/// A mark that could not be set yet is tried again, while its message still opens the
/// turn; any other outcome settles it.
pub proof fn law_marks_are_tried_again(
    before: EngineInner,
    message_id: i32,
    mark: ConsumeMark,
    after: EngineInner,
)
    requires
        exists|m: &mut EngineInner|
            *m == before && *final(m) == after && #[trigger] call_ensures(
                settle_consume_mark,
                (m, message_id, mark),
                (),
            ),
    ensures
        after.clock.started_millis == before.clock.started_millis,
        mark == ConsumeMark::NotEligible && before.turn_user_row == Some(message_id)
            ==> !after.clock.consumed_marked,
        mark != ConsumeMark::NotEligible || before.turn_user_row != Some(message_id) ==> after
            == before,
        after == (EngineInner { clock: after.clock, ..before }),
{
}

/// What is stored decides: a delivery that is gone or consumed is over, one that is
/// pending is not; what cannot be read or is not known is neither.
pub proof fn law_what_is_stored_decides(
    read: Option<Option<StoredDelivery>>,
    r: HiddenReceiptAuthoritativeState,
)
    requires
        call_ensures(receipt_authority, (read,), r),
    ensures
        (r == HiddenReceiptAuthoritativeState::ConsumedOrMissing) == (read is Some && (read->0
            is None || read->0->0 == StoredDelivery::Consumed)),
        (r == HiddenReceiptAuthoritativeState::Pending) == (read is Some && read->0 is Some
            && read->0->0 == StoredDelivery::Pending),
        (r == HiddenReceiptAuthoritativeState::Unknown) == (read is None || (read->0 is Some
            && read->0->0 == StoredDelivery::Other)),
{
}

/// An unknown state keeps the receipt and is asked for again, ever later up to the cap; a
/// known one gives the receipt up.
#[verifier::spinoff_prover]
#[verifier::rlimit(60)]
pub proof fn law_unknown_receipts_are_kept(
    inner: EngineInner,
    receipts: ReceiptRegistry,
    id: i32,
    state: HiddenReceiptAuthoritativeState,
    backoff: u64,
    r: RecoverStep,
    after: EngineInner,
    left: ReceiptRegistry,
)
    requires
        id != i32::MIN,
        exists|m: &mut EngineInner, s: &mut ReceiptRegistry|
            *m == inner && *final(m) == after && *s == receipts && *final(s) == left
                && #[trigger] call_ensures(recover_hidden_receipt, (m, s, id, state, backoff), r),
    ensures
        after == (EngineInner { turn_user_row: after.turn_user_row, clock: after.clock, ..inner }),
        after.clock.started_millis == inner.clock.started_millis,
        inner.turn_user_row != Some((-id) as i32) ==> after == inner,
        state == HiddenReceiptAuthoritativeState::Unknown ==> {
            &&& left@ == receipts@ && after == inner
            &&& r is Retry && r->wait == backoff
            &&& backoff * 2 <= 5_000 ==> r->next == backoff * 2
            &&& backoff * 2 > 5_000 ==> r->next == 5_000
        },
        state != HiddenReceiptAuthoritativeState::Unknown ==> r is Settled && left@
            == receipts@.remove(id),
        state == HiddenReceiptAuthoritativeState::ConsumedOrMissing && inner.turn_user_row == Some(
            (-id) as i32,
        ) ==> after.turn_user_row is None,
        state == HiddenReceiptAuthoritativeState::Pending && inner.turn_user_row == Some(
            (-id) as i32,
        ) ==> after.turn_user_row == inner.turn_user_row && !after.clock.consumed_marked,
{
}

/// A receipt whose outcome is known is given up; one whose outcome is lost is kept.
pub proof fn law_lost_outcomes_keep_the_receipt(
    inner: EngineInner,
    receipts: ReceiptRegistry,
    id: i32,
    outcome: ConsumeOutcome,
    r: bool,
    after: EngineInner,
    left: ReceiptRegistry,
)
    requires
        id != i32::MIN,
        exists|m: &mut EngineInner, s: &mut ReceiptRegistry|
            *m == inner && *final(m) == after && *s == receipts && *final(s) == left
                && #[trigger] call_ensures(settle_hidden_receipt, (m, s, id, outcome), r),
    ensures
        after == (EngineInner { turn_user_row: after.turn_user_row, clock: after.clock, ..inner }),
        after.clock.started_millis == inner.clock.started_millis,
        inner.turn_user_row != Some((-id) as i32) ==> after == inner,
        r == (outcome != ConsumeOutcome::Lost),
        !r ==> left@ == receipts@ && after == inner,
        r ==> left@ == receipts@.remove(id),
        outcome == ConsumeOutcome::Done && inner.turn_user_row == Some((-id) as i32)
            ==> after.turn_user_row is None,
        outcome == ConsumeOutcome::Failed && inner.turn_user_row == Some((-id) as i32)
            ==> after.turn_user_row == inner.turn_user_row && !after.clock.consumed_marked,
{
}

/// A hidden turn that failed is given up, with whatever waited behind it, while it is
/// still the running one.
pub proof fn law_failed_hidden_turn_is_given_up(
    before: EngineInner,
    turn_id: i32,
    r: Option<Vec<i32>>,
    after: EngineInner,
)
    requires
        exists|m: &mut EngineInner|
            *m == before && *final(m) == after && #[trigger] call_ensures(
                reset_failed_hidden_turn,
                (m, turn_id),
                r,
            ),
    ensures
        after == (EngineInner {
            turn: after.turn,
            current_origin_tag: after.current_origin_tag,
            turn_user_row: after.turn_user_row,
            child: after.child,
            child_permit: after.child_permit,
            stdin: after.stdin,
            current: after.current,
            interrupting: after.interrupting,
            ..before
        }),
        r is Some ==> after.current_origin_tag is None && !after.child_permit
            && after.turn.bus_read_pos == before.turn.bus_read_pos && after.turn.quota_exceeded
            == before.turn.quota_exceeded,
        r is Some == (before.turn_id == turn_id && before.turn.busy),
        r is None ==> after == before,
        r is Some ==> {
            &&& !after.turn.busy && after.turn.queue@.len() == 0 && after.turn_user_row is None
            &&& !after.child && !after.stdin && after.current is None && !after.interrupting
            &&& after.stopped == before.stopped && after.native_id == before.native_id
            &&& r->0@ == before.turn.queue@.filter(|o: Outgoing| o.queue_id is Some).map_values(
                |o: Outgoing| o.queue_id->0,
            )
        },
{
    crate::queue_laws::lemma_ids(before.turn.queue@);
}

/// A durable row is told between the marks of its kind, with its payload as a document;
/// rows of other kinds, and payloads that are no document, are refused.
pub proof fn law_durable_row_is_told_between_its_marks(
    row: &HiddenRow,
    r: Result<String, HiddenRowError>,
)
    requires
        call_ensures(durable_hidden_delivery_text, (row,), r),
    ensures
        ({
            let known = row.source_kind@ == "plan_decision"@ || row.source_kind@ == "repo_action"@;
            &&& !known ==> r is Err && r->Err_0 == HiddenRowError::UnsupportedKind
            &&& known && parsed(row.payload@) is None ==> r is Err && r->Err_0
                == HiddenRowError::InvalidPayload
            &&& known && parsed(row.payload@) is Some ==> r is Ok && r->Ok_0@ == "<weft:"@
                + row.source_kind@ + ">"@ + json_text(parsed(row.payload@)->0) + "</weft:"@
                + row.source_kind@ + ">"@
        }),
{
}

/// A batch may bring a stopped lead back when the human looks on, or when a decision of
/// theirs is in it.
pub proof fn law_who_may_bring_a_lead_back(
    rows: Vec<HiddenRow>,
    background: bool,
    visible: bool,
    i: int,
)
    requires
        call_ensures(
            durable_batch_may_resume,
            (&rows, DurableResumeAuthorization::Background),
            background,
        ),
        call_ensures(
            durable_batch_may_resume,
            (&rows, DurableResumeAuthorization::Visible),
            visible,
        ),
    ensures
        visible,
        0 <= i < rows@.len() && rows@[i].source_kind@ == "plan_decision"@ ==> background,
        (forall|j: int| 0 <= j < rows@.len() ==> (#[trigger] rows@[j]).source_kind@
            != "plan_decision"@) ==> !background,
{
}

proof fn lemma_pending(current: Seq<Option<HiddenRow>>)
    ensures
        still_pending(current) == current.filter(
            |w: Option<HiddenRow>| w is Some && w->0.pending,
        ).map_values(|w: Option<HiddenRow>| w->0),
    decreases current.len(),
{
    reveal(Seq::filter);
    let keep = |w: Option<HiddenRow>| w is Some && w->0.pending;
    let row = |w: Option<HiddenRow>| w->0;
    if current.len() == 0 {
        assert(current.filter(keep).map_values(row) =~= seq![]);
    } else {
        lemma_pending(current.drop_last());
        let before = current.drop_last().filter(keep);
        assert(before.push(current.last()).map_values(row) =~= before.map_values(row).push(
            current.last()->0,
        ));
    }
}

/// The rows of a batch are those that are there and still pending, all of them, in order.
pub proof fn law_batch_holds_what_is_pending(current: Vec<Option<HiddenRow>>, r: Vec<HiddenRow>)
    requires
        call_ensures(pending_hidden_rows_at_admission, (current,), r),
    ensures
        r@ == current@.filter(|w: Option<HiddenRow>| w is Some && w->0.pending).map_values(
            |w: Option<HiddenRow>| w->0,
        ),
{
    lemma_pending(current@);
}

proof fn lemma_row_error(rows: Seq<HiddenRow>)
    ensures
        first_row_error(rows) is None == (forall|i: int|
            0 <= i < rows.len() ==> row_error(#[trigger] rows[i]) is None),
    decreases rows.len(),
{
    if rows.len() > 0 {
        let rest = rows.drop_first();
        lemma_row_error(rest);
        if first_row_error(rest) is None && row_error(rows[0]) is None {
            assert forall|i: int| 0 <= i < rows.len() implies row_error(#[trigger] rows[i])
                is None by {
                if i > 0 {
                    assert(rest[i - 1] == rows[i]);
                }
            }
        }
        if forall|i: int| 0 <= i < rows.len() ==> row_error(#[trigger] rows[i]) is None {
            assert forall|i: int| 0 <= i < rest.len() implies row_error(#[trigger] rest[i])
                is None by {
                assert(rest[i] == rows[i + 1]);
            }
        }
    }
}

/// The first row that cannot be told.
pub open spec fn first_bad(rows: Seq<HiddenRow>, i: int) -> bool {
    &&& 0 <= i < rows.len()
    &&& row_error(rows[i]) is Some
    &&& forall|j: int| 0 <= j < i ==> row_error(#[trigger] rows[j]) is None
}

proof fn lemma_first_bad(rows: Seq<HiddenRow>, i: int)
    requires
        first_bad(rows, i),
    ensures
        first_row_error(rows) == row_error(rows[i]),
    decreases rows.len(),
{
    if i > 0 {
        let rest = rows.drop_first();
        assert(row_error(rows[0]) is None);
        assert(rest[i - 1] == rows[i]);
        assert forall|j: int| 0 <= j < i - 1 implies row_error(#[trigger] rest[j]) is None by {
            assert(rest[j] == rows[j + 1]);
        }
        lemma_first_bad(rest, i - 1);
    }
}

/// A batch is refused while the engine is torn down or rewound, and when one of its rows
/// cannot be told; it starts when it holds a row and the engine runs or may be brought
/// back. Only a batch that may bring it back lifts the stop.
pub proof fn law_when_a_batch_starts(
    before: EngineInner,
    rows: Vec<HiddenRow>,
    authorization: DurableResumeAuthorization,
    may: bool,
    r: Result<Option<Batch>, BatchError>,
    after: EngineInner,
    bad: int,
)
    requires
        call_ensures(durable_batch_may_resume, (&rows, authorization), may),
        exists|m: &mut EngineInner|
            *m == before && *final(m) == after && #[trigger] call_ensures(
                begin_durable_batch,
                (m, &rows, authorization),
                r,
            ),
    ensures
        ({
            let fine = forall|i: int| 0 <= i < rows@.len() ==> row_error(#[trigger] rows@[i]) is None;
            &&& before.tearing_down ==> r is Err && r->Err_0 is TearingDown
            &&& !before.tearing_down && before.rewinding ==> r is Err && r->Err_0 is Rewinding
            &&& !before.tearing_down && !before.rewinding && !fine ==> r is Err && r->Err_0
                is BadRow
            &&& first_bad(rows@, bad) && !before.tearing_down && !before.rewinding ==> r
                == Err::<Option<Batch>, BatchError>(BatchError::BadRow(row_error(rows@[bad])->0))
            &&& !before.tearing_down && !before.rewinding && fine ==> r is Ok && r->Ok_0 is Some
                == (rows@.len() > 0 && (!before.stopped || may))
            &&& r is Ok && r->Ok_0 is Some ==> r->Ok_0->0.was_stopped == before.stopped
                && r->Ok_0->0.initial_epoch == before.reset_epoch
            &&& r is Ok && r->Ok_0 is Some && may ==> !after.stopped
            &&& !(r is Ok && r->Ok_0 is Some) ==> after == before
            &&& after == (EngineInner { stopped: after.stopped, ..before })
        }),
{
    lemma_row_error(rows@);
    if first_bad(rows@, bad) {
        assert(row_error(rows@[bad]) is Some);
        lemma_first_bad(rows@, bad);
    }
}

/// A row that is gone or consumed is skipped; one that is represented is not delivered
/// again. Where the engine can take it, it waits behind the running turn, or opens a turn
/// of its own that points at it; and the message carries its tag.
pub proof fn law_durable_row_is_delivered_once(
    before: EngineInner,
    receipts: ReceiptRegistry,
    w: HiddenRow,
    ensured: bool,
    batch: Batch,
    now: u64,
    duplicate: bool,
    text: Result<String, HiddenRowError>,
    r: Result<RowStep, BatchError>,
    after: EngineInner,
)
    requires
        before.turn_id < i32::MAX,
        w.id != i32::MIN,
        call_ensures(hidden_delivery_is_duplicate, (&before, &receipts, w.id), duplicate),
        call_ensures(durable_hidden_delivery_text, (&w,), text),
        exists|m: &mut EngineInner|
            *m == before && *final(m) == after && #[trigger] call_ensures(
                admit_durable_row,
                (m, &receipts, Some(&w), ensured, batch, now),
                r,
            ),
    ensures
        w.pending && text is Ok && !duplicate && !before.stopped && !before.turn.busy
            && before.tool@ != "codex"@ && before.tool@ != "opencode"@ && before.tool@ != "omp"@
            && ensured && before.stdin ==> r is Ok && r->Ok_0 is Write,
        w.pending && text is Ok && !duplicate && !before.stopped && !before.turn.busy
            && before.tool@ != "codex"@ && before.tool@ != "opencode"@ && before.tool@ != "omp"@
            && ensured && !before.stdin ==> r is Err && r->Err_0 is NotAdmissible,
        w.pending && text is Err ==> r is Err && r->Err_0 == BatchError::BadRow(text->Err_0),
        after == (EngineInner {
            turn: after.turn,
            turn_id: after.turn_id,
            clock: after.clock,
            current_origin_tag: after.current_origin_tag,
            turn_user_row: after.turn_user_row,
            stopped: after.stopped,
            ..before
        }),
        after.turn.bus_read_pos == before.turn.bus_read_pos,
        r is Ok && r->Ok_0 is Queued ==> after == (EngineInner { turn: after.turn, ..before })
            && after.turn.quota_exceeded == before.turn.quota_exceeded && after.turn.busy
            && after.turn.queue@.last().queue_id is None && !after.turn.queue@.last().is_tracked
            && after.turn.queue@.last().images@.len() == 0,
        r is Ok ==> after.stopped == before.stopped,
        r is Ok && (r->Ok_0 is Write || r->Ok_0 is Spawn) ==> after.turn.queue
            == before.turn.queue && after.clock == (TurnClock {
            started_millis: now,
            consumed_marked: false,
        }) && after.current_origin_tag is None,
        r is Err && r->Err_0 is NotAdmissible ==> after.stopped == (before.stopped || (
        batch.was_stopped && before.reset_epoch == batch.initial_epoch)),
        !w.pending ==> r is Ok && r->Ok_0 is Skip && after == before,
        w.pending && text is Err ==> r is Err && after == before,
        w.pending && text is Ok && duplicate ==> r is Ok && r->Ok_0 is Represented && after
            == before,
        w.pending && text is Ok && !duplicate && before.turn.busy && !before.stopped ==> {
            &&& r is Ok && r->Ok_0 is Queued
            &&& after.turn.queue@.len() == before.turn.queue@.len() + 1
            &&& after.turn.queue@.drop_last() == before.turn.queue@
            &&& after.turn.queue@.last().text@ == text->Ok_0@
            &&& opt_view(after.turn.queue@.last().origin_tag) == Some(delivery_tag(w.id as int))
            &&& after.turn_id == before.turn_id
        },
        r is Ok && r->Ok_0 is Write ==> !before.turn.busy && !before.stopped && after.turn.busy
            && after.turn_id == before.turn_id + 1 && after.turn_user_row == Some((-w.id) as i32)
            && r->Ok_0->Write_turn_id == after.turn_id && r->Ok_0->Write_out.text@ == text->Ok_0@
            && opt_view(r->Ok_0->Write_out.origin_tag) == Some(delivery_tag(w.id as int)),
        r is Ok && r->Ok_0 is Spawn ==> !before.turn.busy && !before.stopped && after.turn.busy
            && after.turn_id == before.turn_id + 1 && after.turn_user_row == Some((-w.id) as i32)
            && r->Ok_0->Spawn_turn_id == after.turn_id && r->Ok_0->Spawn_out.text@ == text->Ok_0@
            && opt_view(r->Ok_0->Spawn_out.origin_tag) == Some(delivery_tag(w.id as int))
            && r->Ok_0->epoch == before.reset_epoch,
        w.pending && text is Ok && !duplicate && before.stopped ==> r is Err && r->Err_0
            is NotAdmissible && after.turn == before.turn,
        w.pending && text is Ok && !duplicate && !before.stopped && !before.turn.busy && (
        before.tool@ == "codex"@ || before.tool@ == "opencode"@ || before.tool@ == "omp"@)
            ==> r is Ok && r->Ok_0 is Spawn,
        w.pending && text is Ok && !duplicate && !before.stopped && !before.turn.busy
            && before.tool@ != "codex"@ && before.tool@ != "opencode"@ && before.tool@ != "omp"@
            && !ensured ==> r is Ok && r->Ok_0 is EnsureResident && after == before,
{
}

/// A row that is not there is skipped.
pub proof fn law_missing_row_is_skipped(
    before: EngineInner,
    receipts: ReceiptRegistry,
    ensured: bool,
    batch: Batch,
    now: u64,
    r: Result<RowStep, BatchError>,
    after: EngineInner,
)
    requires
        before.turn_id < i32::MAX,
        exists|m: &mut EngineInner|
            *m == before && *final(m) == after && #[trigger] call_ensures(
                admit_durable_row,
                (m, &receipts, None, ensured, batch, now),
                r,
            ),
    ensures
        r is Ok && r->Ok_0 is Skip,
        after == before,
{
}

/// A row counts as delivered once the engine has it in some form.
pub proof fn law_which_rows_count(step: &RowStep, r: bool)
    requires
        call_ensures(row_counts, (step,), r),
    ensures
        step is Skip || step is EnsureResident ==> !r,
        step is Represented || step is Queued || step is Write || step is Spawn ==> r,
{
}

/// A batch that fails leaves a lead that it brought back stopped again, unless somebody
/// has reset it since; and it gives up the turn that it began, if that still runs.
pub proof fn law_failed_batch_restores_the_stop(
    before: EngineInner,
    batch: Batch,
    without_resident: EngineInner,
    turn_id: i32,
    r: Option<Vec<i32>>,
    undelivered: EngineInner,
)
    requires
        exists|m: &mut EngineInner|
            *m == before && *final(m) == without_resident && #[trigger] call_ensures(
                batch_resident_failed,
                (m, batch),
                (),
            ),
        exists|m: &mut EngineInner|
            *m == before && *final(m) == undelivered && #[trigger] call_ensures(
                batch_delivery_failed,
                (m, turn_id, batch),
                r,
            ),
    ensures
        undelivered == (EngineInner {
            turn: undelivered.turn,
            current_origin_tag: undelivered.current_origin_tag,
            turn_user_row: undelivered.turn_user_row,
            child: undelivered.child,
            child_permit: undelivered.child_permit,
            stdin: undelivered.stdin,
            current: undelivered.current,
            interrupting: undelivered.interrupting,
            stopped: undelivered.stopped,
            ..before
        }),
        r is Some ==> undelivered.turn_user_row is None && !undelivered.child
            && !undelivered.stdin && undelivered.current is None && r->0@
            == before.turn.queue@.filter(|o: Outgoing| o.queue_id is Some).map_values(
            |o: Outgoing| o.queue_id->0,
        ),
        r is None ==> undelivered == (EngineInner { stopped: undelivered.stopped, ..before }),
        without_resident == (EngineInner { stopped: without_resident.stopped, ..before }),
        without_resident.stopped == (before.stopped || (batch.was_stopped && before.reset_epoch
            == batch.initial_epoch)),
        undelivered.stopped == (before.stopped || batch.was_stopped),
        r is Some == (before.turn_id == turn_id && before.turn.busy),
        r is Some ==> !undelivered.turn.busy && undelivered.turn.queue@.len() == 0,
        r is None ==> undelivered.turn == before.turn,
{
    crate::queue_laws::lemma_ids(before.turn.queue@);
}

/// What the requests are for: a wake reads the bus and is best effort; a durable delivery
/// carries its id; a plan approval its thread.
pub proof fn law_kinds_of_requests(
    wake: HiddenRequest,
    existing: HiddenRequest,
    id: i32,
    revive: bool,
    durable: HiddenRequest,
    thread_id: i32,
    plan: HiddenRequest,
)
    requires
        call_ensures(HiddenRequest::wake, (), wake),
        call_ensures(HiddenRequest::existing, (), existing),
        call_ensures(HiddenRequest::durable, (id, revive), durable),
        call_ensures(HiddenRequest::plan_approval, (thread_id,), plan),
    ensures
        wake.bus_read && wake.ensure && !wake.revive_stopped && wake.delivery is None
            && wake.plan_thread is None,
        !existing.bus_read && !existing.ensure && !existing.revive_stopped
            && existing.delivery is None && existing.plan_thread is None,
        !durable.bus_read && durable.delivery == Some(id) && durable.revive_stopped == revive
            && durable.ensure == revive && durable.plan_thread is None,
        !plan.bus_read && plan.ensure && plan.plan_thread == Some(thread_id)
            && plan.delivery is None && !plan.revive_stopped,
{
}

/// Before a hidden delivery starts: without quota a wake is let go and anything else is
/// refused; a delivery that is gone is not delivered, and one that is consumed or
/// represented counts as delivered.
pub proof fn law_what_keeps_a_hidden_delivery_out(
    before: EngineInner,
    receipts: ReceiptRegistry,
    req: HiddenRequest,
    quota: bool,
    row: DeliveryRow,
    duplicate: bool,
    r: HiddenStart,
    after: EngineInner,
)
    requires
        req.delivery != Some(i32::MIN),
        req.plan_thread is None || req.delivery is None,
        req.delivery is Some ==> call_ensures(
            hidden_delivery_is_duplicate,
            (&before, &receipts, req.delivery->0),
            duplicate,
        ),
        exists|m: &mut EngineInner|
            *m == before && *final(m) == after && #[trigger] call_ensures(
                begin_hidden,
                (m, &receipts, req, quota, row),
                r,
            ),
    ensures
        !quota && req.bus_read ==> r == HiddenStart::Done(false),
        !quota && !req.bus_read ==> r == HiddenStart::Refused(HiddenError::Quota),
        quota && req.delivery is Some && row == DeliveryRow::Missing ==> r == HiddenStart::Done(
            false,
        ),
        quota && req.delivery is Some && row == DeliveryRow::Consumed ==> r == HiddenStart::Done(
            true,
        ),
        quota && req.delivery is Some && row == DeliveryRow::Pending && duplicate ==> r
            == HiddenStart::Done(true),
        !(r is Admitted || r is CheckCard) ==> after == before,
{
}

/// A hidden delivery that nothing keeps out starts in an engine that runs; a stopped one
/// is brought back only by a delivery that may, or by a plan approval, which first looks
/// whether its card is open. A plan approval needs its own thread at rest.
pub proof fn law_who_starts_in_which_engine(
    before: EngineInner,
    receipts: ReceiptRegistry,
    req: HiddenRequest,
    row: DeliveryRow,
    duplicate: bool,
    plan_ok: bool,
    r: HiddenStart,
    after: EngineInner,
)
    requires
        req.delivery != Some(i32::MIN),
        req.plan_thread is None || req.delivery is None,
        req.delivery is Some ==> row == DeliveryRow::Pending && !duplicate && call_ensures(
            hidden_delivery_is_duplicate,
            (&before, &receipts, req.delivery->0),
            duplicate,
        ),
        call_ensures(plan_approval_admissible, (&before,), plan_ok),
        exists|m: &mut EngineInner|
            *m == before && *final(m) == after && #[trigger] call_ensures(
                begin_hidden,
                (m, &receipts, req, true, row),
                r,
            ),
    ensures
        before.tearing_down && req.bus_read ==> r == HiddenStart::Done(false),
        before.stopped && !req.bus_read && req.delivery is None && req.plan_thread is None ==> r
            == HiddenStart::Refused(HiddenError::TearingDown) && after == before,
        after == (EngineInner { stopped: after.stopped, ..before }),
        ({
            let runs = !before.stopped && !before.tearing_down;
            let brought_back = before.stopped && !before.tearing_down && req.delivery is Some
                && req.revive_stopped;
            &&& runs && req.plan_thread is None ==> r is Admitted && after == before
            &&& brought_back ==> r is Admitted && !after.stopped
            &&& before.tearing_down && !req.bus_read ==> r == HiddenStart::Refused(
                HiddenError::TearingDown,
            )
            &&& before.stopped && !before.tearing_down && req.delivery is Some
                && !req.revive_stopped ==> r == HiddenStart::Done(false) && after == before
            &&& before.stopped && req.bus_read && req.delivery is None && req.plan_thread is None
                ==> r == HiddenStart::Done(false)
            &&& !before.tearing_down && req.plan_thread is Some ==> r is CheckCard == (
            before.thread_id == req.plan_thread->0 && plan_ok)
            &&& !before.tearing_down && req.plan_thread is Some && !(r is CheckCard) ==> r
                == HiddenStart::Done(false)
            &&& req.plan_thread is Some ==> after == before
        }),
{
}

/// A card that is open lets its approval in and lifts the stop; one that is not leaves
/// everything as it was.
pub proof fn law_open_card_lets_its_approval_in(
    before: EngineInner,
    actionable: bool,
    r: HiddenStart,
    after: EngineInner,
)
    requires
        exists|m: &mut EngineInner|
            *m == before && *final(m) == after && #[trigger] call_ensures(
                card_checked,
                (m, actionable),
                r,
            ),
    ensures
        actionable ==> r is Admitted && !after.stopped,
        !actionable ==> r == HiddenStart::Done(false) && after == before,
        after == (EngineInner { stopped: after.stopped, ..before }),
{
}

/// A hidden delivery is queued, written or launched, under its own tag and with its own
/// text; only a wake that finds a busy engine is not queued itself but asked for once. In a
/// turn of its own the engine points at the delivery.
pub proof fn law_hidden_delivery_is_routed_whole(
    before: EngineInner,
    req: HiddenRequest,
    text: String,
    appserver: bool,
    now: u64,
    r: HiddenStep,
    after: EngineInner,
)
    requires
        before.turn_id < i32::MAX,
        req.delivery != Some(i32::MIN),
        exists|m: &mut EngineInner|
            *m == before && *final(m) == after && #[trigger] call_ensures(
                deliver_hidden,
                (m, req, text, appserver, now),
                r,
            ),
    ensures
        after == (EngineInner {
            turn: after.turn,
            turn_id: after.turn_id,
            clock: after.clock,
            current_origin_tag: after.current_origin_tag,
            turn_user_row: after.turn_user_row,
            ..before
        }),
        r is Waits ==> after == (EngineInner { turn: after.turn, ..before })
            && after.turn.quota_exceeded == before.turn.quota_exceeded && after.turn.busy,
        r is Waits && !req.bus_read ==> after.turn.bus_read_pos == before.turn.bus_read_pos
            && !after.turn.queue@.last().is_tracked && after.turn.queue@.last().images@.len() == 0,
        r is Launch || r is Write ==> after.turn.queue == before.turn.queue
            && after.turn.bus_read_pos == before.turn.bus_read_pos,
        ({
            let tag = match req.delivery {
                Some(id) => Some(delivery_tag(id as int)),
                None => None,
            };
            let own_turn = before.tool@ == "codex"@ || before.tool@ == "opencode"@ || before.tool@
                == "omp"@;
            &&& before.stopped ==> after == before && (r is Dropped || r is Refused)
            &&& r is Refused ==> !req.bus_read && after == before
            &&& r is Dropped ==> req.bus_read && after == before
            &&& r is Waits == (!before.stopped && before.turn.busy)
            &&& r is Waits && !req.bus_read ==> after.turn.queue@.len() == before.turn.queue@.len()
                + 1 && after.turn.queue@.drop_last() == before.turn.queue@
                && after.turn.queue@.last().text@ == text@ && opt_view(
                after.turn.queue@.last().origin_tag,
            ) == tag && after.turn.queue@.last().queue_id is None
            &&& r is Waits && req.bus_read ==> after.turn.queue == before.turn.queue
                && after.turn.bus_read_pos is Some
            &&& r is Launch == (!before.stopped && !before.turn.busy && own_turn)
            &&& r is Write == (!before.stopped && !before.turn.busy && !own_turn && before.stdin)
            &&& r is Launch ==> r->Launch_out.text@ == text@ && opt_view(r->Launch_out.origin_tag)
                == tag && r->Launch_turn_id == after.turn_id && r->epoch == before.reset_epoch
            &&& r is Launch ==> (r->over == Transport::AppServer) == (before.tool@ == "codex"@
                && appserver)
            &&& r is Write ==> r->Write_out.text@ == text@ && opt_view(r->Write_out.origin_tag)
                == tag && r->Write_turn_id == after.turn_id
            &&& r is Launch || r is Write ==> after.turn.busy && after.turn_id == before.turn_id
                + 1 && after.current_origin_tag is None && after.clock == (TurnClock {
                started_millis: now,
                consumed_marked: false,
            })
            &&& (r is Launch || r is Write) && req.delivery is Some ==> after.turn_user_row
                == Some((-req.delivery->0) as i32)
            &&& (r is Launch || r is Write) && req.delivery is None ==> after.turn_user_row is None
        }),
{
    reveal_strlit("codex");
    reveal_strlit("opencode");
    reveal_strlit("omp");
    assert("codex"@.len() == 5 && "opencode"@.len() == 8 && "omp"@.len() == 3);
}

/// The text of a wake asks the agent to read its inbox.
pub proof fn law_text_of_a_wake(r: String)
    requires
        call_ensures(crate::hidden::wake_text, (), r),
    ensures
        r@ == BUS_WAKE_PROMPT@,
{
}

/// A row whose payload is read already is told in the same way.
pub proof fn law_read_payload_is_told_alike(
    row: &HiddenRow,
    r: Result<String, HiddenRowError>,
    kind: &str,
    doc: Option<&Json>,
    p: Result<String, HiddenRowError>,
)
    requires
        kind@ == row.source_kind@,
        parsed(row.payload@) == (match doc {
            Some(v) => Some(v@),
            None => None,
        }),
        call_ensures(durable_hidden_delivery_text, (row,), r),
        call_ensures(durable_text_parsed, (kind, doc), p),
    ensures
        r is Ok == p is Ok,
        r is Ok ==> r->Ok_0@ == p->Ok_0@,
        r is Err ==> r->Err_0 == p->Err_0,
{
}

/// A row cannot be told when its kind is not known, or else its payload is no document.
pub proof fn law_which_rows_cannot_be_told(row: HiddenRow)
    ensures
        ({
            let known = row.source_kind@ == "plan_decision"@ || row.source_kind@ == "repo_action"@;
            &&& row_error(row) is None == (known && parsed(row.payload@) is Some)
            &&& !known ==> row_error(row) == Some(HiddenRowError::UnsupportedKind)
            &&& known && parsed(row.payload@) is None ==> row_error(row) == Some(
                HiddenRowError::InvalidPayload,
            )
        }),
{
}

} // verus!
