//! Hidden deliveries: durable rows that reach the agent without a timeline row of
//! their own, and the receipts that say the agent has seen them.

use vstd::prelude::*;

use crate::decimal::{int_text, law_decimal_reads_back, parse_i32, signed_text, text_value};
use crate::engine::{
    hidden_delivery, hidden_delivery_spec, hidden_marker, hidden_turn_started, is_acp_tool,
    mark_hidden_turn_started_with_delivery, connection_tool, per_turn, spawns_per_turn,
    EngineInner, HiddenDelivery, TurnClock,
};
use crate::json::{json_text, parsed, Json, JsonView};
use crate::registry::ReceiptRegistry;
use crate::rows::{is_plumbing, plumbing, queue_hidden_delivery};
use crate::text::{cat, cat3, has_prefix, opt_ref, opt_str_view, opt_view, same};
use crate::turn::{given_up, plan_approval_turn_idle, tracked_ids, turn_idle, Outgoing};

verus! {

pub const HIDDEN_DELIVERY_TAG_PREFIX: &'static str = "__weft_hidden_delivery:";

pub open spec fn delivery_tag(id: int) -> Seq<char> {
    HIDDEN_DELIVERY_TAG_PREFIX@ + int_text(id)
}

/// The tag under which a hidden delivery waits in the queue.
pub fn hidden_delivery_tag(delivery_id: i32) -> (r: String)
    ensures
        r@ == delivery_tag(delivery_id as int),
{
    let n = signed_text(delivery_id as i64);
    cat(HIDDEN_DELIVERY_TAG_PREFIX, n.as_str())
}

/// The delivery that a tag names: a positive number behind the prefix.
pub open spec fn tagged_delivery(tag: Option<Seq<char>>) -> Option<i32> {
    match tag {
        Some(t) => if HIDDEN_DELIVERY_TAG_PREFIX@.is_prefix_of(t) {
            match text_value(t.skip(HIDDEN_DELIVERY_TAG_PREFIX@.len() as int)) {
                Some(v) => if 0 < v <= i32::MAX {
                    Some(v as i32)
                } else {
                    None
                },
                None => None,
            }
        } else {
            None
        },
        None => None,
    }
}

/// The delivery that a tag names.
pub fn hidden_delivery_id_from_tag(tag: Option<&str>) -> (r: Option<i32>)
    ensures
        r == tagged_delivery(opt_str_view(tag)),
{
    match tag {
        Some(t) => {
            if !has_prefix(t, HIDDEN_DELIVERY_TAG_PREFIX) {
                return None;
            }
            let k: usize = HIDDEN_DELIVERY_TAG_PREFIX.unicode_len();
            let n: usize = t.unicode_len();
            let rest = t.substring_char(k, n);
            assert(rest@ =~= t@.skip(k as int));
            match parse_i32(rest) {
                Some(v) => if v > 0 {
                    Some(v)
                } else {
                    None
                },
                None => None,
            }
        },
        None => None,
    }
}

/// A tag names the delivery it was made for, and no other number is a delivery.
pub proof fn law_tag_names_its_delivery(id: i32)
    ensures
        tagged_delivery(Some(delivery_tag(id as int))) == (if id > 0 {
            Some(id)
        } else {
            None
        }),
{
    let t = delivery_tag(id as int);
    assert(HIDDEN_DELIVERY_TAG_PREFIX@.is_prefix_of(t));
    assert(t.skip(HIDDEN_DELIVERY_TAG_PREFIX@.len() as int) =~= int_text(id as int));
    law_decimal_reads_back(id as int);
}

/// Whether a plan may be approved now.
pub fn plan_approval_admissible(inner: &EngineInner) -> (r: bool)
    ensures
        r == (!inner.rewinding && !inner.quota_failover_committing && turn_idle(inner.turn)),
{
    !inner.rewinding && !inner.quota_failover_committing && plan_approval_turn_idle(&inner.turn)
}

/// Whether a hidden turn may start now: hidden delivery does not pass through the
/// checks of a visible send, so a teardown is checked for here.
pub fn hidden_turn_admissible(inner: &EngineInner) -> (r: bool)
    ensures
        r == (!inner.stopped && !inner.tearing_down),
{
    !inner.stopped && !inner.tearing_down
}

/// Whether a hidden admission should ensure the resident process. Stopped
/// background rows remain deferred.
pub fn should_ensure_active_resident(
    inner: &EngineInner,
    ensure: bool,
    hidden_delivery_id: Option<i32>,
) -> (r: bool)
    ensures
        r == (!inner.stopped && (ensure || hidden_delivery_id is Some)),
{
    !inner.stopped && (ensure || hidden_delivery_id.is_some())
}

/// The delivery waits in the queue.
pub open spec fn delivery_queued(q: Seq<Outgoing>, id: i32) -> bool {
    exists|i: int|
        0 <= i < q.len() && tagged_delivery(opt_view((#[trigger] q[i]).origin_tag)) == Some(id)
}

/// The delivery is already represented: its receipt is in flight, or it is the
/// running turn, or it waits in the queue.
pub open spec fn delivery_represented(inner: EngineInner, receipts: Set<i32>, id: i32) -> bool {
    ||| receipts.contains(id)
    ||| inner.turn_user_row == hidden_marker(Some(id))
    ||| delivery_queued(inner.turn.queue@, id)
}

/// Whether admitting the delivery would deliver it twice.
pub fn hidden_delivery_is_duplicate(
    inner: &EngineInner,
    receipts: &ReceiptRegistry,
    delivery_id: i32,
) -> (r: bool)
    requires
        delivery_id != i32::MIN,
    ensures
        r == delivery_represented(*inner, receipts@, delivery_id),
{
    if receipts.contains(delivery_id) {
        return true;
    }
    match inner.turn_user_row {
        Some(row) => {
            if row == -delivery_id {
                return true;
            }
        },
        None => {},
    }
    let mut i: usize = 0;
    while i < inner.turn.queue.len()
        invariant
            i <= inner.turn.queue@.len(),
            forall|j: int|
                0 <= j < i ==> tagged_delivery(
                    opt_view((#[trigger] inner.turn.queue@[j]).origin_tag),
                ) != Some(delivery_id),
        decreases inner.turn.queue@.len() - i,
    {
        match hidden_delivery_id_from_tag(opt_ref(&inner.turn.queue[i].origin_tag)) {
            Some(id) => {
                if id == delivery_id {
                    assert(tagged_delivery(opt_view(inner.turn.queue@[i as int].origin_tag))
                        == Some(delivery_id));
                    return true;
                }
            },
            None => {},
        }
        i = i + 1;
    }
    false
}

/// Register the receipt of a delivery before its transaction is scheduled; false =
/// an older receipt for it is already in flight, which is sufficient.
pub fn register_hidden_receipt(receipts: &mut ReceiptRegistry, delivery_id: i32) -> (r: bool)
    ensures
        final(receipts)@ == old(receipts)@.insert(delivery_id),
        r == !old(receipts)@.contains(delivery_id),
{
    receipts.insert(delivery_id)
}

/// What a finished receipt does to the engine: the marker goes when the delivery
/// is consumed; a failed consume re-arms the latch of the very same turn.
pub open spec fn receipt_finished(
    before: EngineInner,
    after: EngineInner,
    delivery_id: i32,
    consumed: bool,
) -> bool {
    after == (if before.turn_user_row != hidden_marker(Some(delivery_id)) {
        before
    } else if consumed {
        EngineInner { turn_user_row: None, ..before }
    } else {
        EngineInner {
            clock: TurnClock {
                started_millis: before.clock.started_millis,
                consumed_marked: false,
            },
            ..before
        }
    })
}

/// Finish a receipt and release its reservation. `consumed` also covers a row that
/// was already consumed or deleted. A marker that has moved on to another turn is
/// left alone.
pub fn finish_hidden_receipt(
    inner: &mut EngineInner,
    receipts: &mut ReceiptRegistry,
    delivery_id: i32,
    consumed: bool,
)
    requires
        delivery_id != i32::MIN,
    ensures
        final(receipts)@ == old(receipts)@.remove(delivery_id),
        receipt_finished(*old(inner), *final(inner), delivery_id, consumed),
{
    let _ = receipts.remove(delivery_id);
    let ours = match inner.turn_user_row {
        Some(row) => row == -delivery_id,
        None => false,
    };
    if !ours {
        return;
    }
    if consumed {
        inner.turn_user_row = None;
    } else {
        inner.clock.rearm_consumed_gate();
    }
}

/// The key under which a timeline's engine, gate and receipts are kept.
pub open spec fn surface_key_spec(thread_id: i32, session_id: Option<i32>) -> int {
    match session_id {
        Some(sid) => sid as int,
        None => -(thread_id as int),
    }
}

/// The key of a timeline: the session id of a worker, the negated thread id of a
/// lead.
pub fn surface_key(thread_id: i32, session_id: Option<i32>) -> (r: i64)
    ensures
        r == surface_key_spec(thread_id, session_id),
{
    match session_id {
        Some(sid) => sid as i64,
        None => -(thread_id as i64),
    }
}

/// What the first activity of a turn calls for.
#[derive(Clone, Copy, Debug, PartialEq, Eq, Structural)]
pub enum Activity {
    Nothing,
    /// Consume the durable delivery; its receipt is registered.
    ConsumeDelivery { delivery_id: i32, key: i64 },
    /// Mark the user row as consumed.
    MarkConsumed { message_id: i32 },
}

/// What the activity calls for, the latch being open.
pub open spec fn activity_spec(inner: EngineInner, receipts: Set<i32>) -> Activity {
    if inner.clock.consumed_marked {
        Activity::Nothing
    } else {
        match inner.turn_user_row {
            None => Activity::Nothing,
            Some(row) => if row >= 0 {
                Activity::MarkConsumed { message_id: row }
            } else if receipts.contains((-row) as i32) {
                Activity::Nothing
            } else {
                Activity::ConsumeDelivery {
                    delivery_id: (-row) as i32,
                    key: surface_key_spec(inner.thread_id, inner.session_id) as i64,
                }
            },
        }
    }
}

/// The agent produced some event for the in-flight turn. The first one since the
/// turn began sends the receipt; a hidden delivery's receipt is registered here,
/// before anything can retarget the marker.
pub fn note_turn_activity(inner: &mut EngineInner, receipts: &mut ReceiptRegistry) -> (r: Activity)
    requires
        old(inner).turn_user_row != Some(i32::MIN),
    ensures
        r == activity_spec(*old(inner), old(receipts)@),
        *final(inner) == (EngineInner {
            clock: TurnClock {
                started_millis: old(inner).clock.started_millis,
                consumed_marked: true,
            },
            ..*old(inner)
        }),
        final(receipts)@ == (match r {
            Activity::ConsumeDelivery { delivery_id, .. } => old(receipts)@.insert(delivery_id),
            _ => old(receipts)@,
        }),
{
    if !inner.clock.mark_consumed_once() {
        return Activity::Nothing;
    }
    match inner.turn_user_row {
        None => Activity::Nothing,
        Some(row) => {
            if row >= 0 {
                return Activity::MarkConsumed { message_id: row };
            }
            let delivery_id: i32 = -row;
            if !register_hidden_receipt(receipts, delivery_id) {
                assert(receipts@ =~= old(receipts)@);
                return Activity::Nothing;
            }
            Activity::ConsumeDelivery {
                delivery_id,
                key: surface_key(inner.thread_id, inner.session_id),
            }
        },
    }
}

/// How the store answered an attempt to mark a user row as consumed.
#[derive(Clone, Copy, Debug, PartialEq, Eq, Structural)]
pub enum ConsumeMark {
    Marked,
    AlreadyConsumed,
    /// Not yet: a queued row that is still to flip to complete.
    NotEligible,
}

/// An unsettled mark re-arms the latch, but only while the very same row is still
/// the one that opened the turn.
pub fn settle_consume_mark(inner: &mut EngineInner, message_id: i32, mark: ConsumeMark)
    ensures
        *final(inner) == (if mark == ConsumeMark::NotEligible && old(inner).turn_user_row == Some(
            message_id,
        ) {
            EngineInner {
                clock: TurnClock {
                    started_millis: old(inner).clock.started_millis,
                    consumed_marked: false,
                },
                ..*old(inner)
            }
        } else {
            *old(inner)
        }),
{
    if mark == ConsumeMark::NotEligible {
        match inner.turn_user_row {
            Some(row) => {
                if row == message_id {
                    inner.clock.rearm_consumed_gate();
                }
            },
            None => {},
        }
    }
}

/// What a re-read of a durable row shows after its consume reported nothing.
#[derive(Debug, Clone, Copy, PartialEq, Eq, Structural)]
pub enum HiddenReceiptAuthoritativeState {
    ConsumedOrMissing,
    Pending,
    /// Unreadable, or a state that is not known: guessing would reopen a window
    /// for a second delivery.
    Unknown,
}

/// In what state the store holds a durable delivery.
#[derive(Debug, Clone, Copy, PartialEq, Eq, Structural)]
pub enum StoredDelivery {
    Pending,
    Consumed,
    /// A state that is not known here.
    Other,
}

/// What a re-read shows, `read` being the row that was found; it is `None` where
/// the store could not be read. A row that is gone needs no delivery any more.
pub fn receipt_authority(read: Option<Option<StoredDelivery>>) -> (r:
    HiddenReceiptAuthoritativeState)
    ensures
        r == (match read {
            Some(None) => HiddenReceiptAuthoritativeState::ConsumedOrMissing,
            Some(Some(StoredDelivery::Consumed)) => {
                HiddenReceiptAuthoritativeState::ConsumedOrMissing
            },
            Some(Some(StoredDelivery::Pending)) => HiddenReceiptAuthoritativeState::Pending,
            Some(Some(StoredDelivery::Other)) => HiddenReceiptAuthoritativeState::Unknown,
            None => HiddenReceiptAuthoritativeState::Unknown,
        }),
{
    match read {
        None => HiddenReceiptAuthoritativeState::Unknown,
        Some(None) => HiddenReceiptAuthoritativeState::ConsumedOrMissing,
        Some(Some(state)) => match state {
            StoredDelivery::Consumed => HiddenReceiptAuthoritativeState::ConsumedOrMissing,
            StoredDelivery::Pending => HiddenReceiptAuthoritativeState::Pending,
            StoredDelivery::Other => HiddenReceiptAuthoritativeState::Unknown,
        },
    }
}

/// How long the first re-read waits, in milliseconds.
pub const RECEIPT_BACKOFF_MS: u64 = 100;

/// How long the next re-read waits, in milliseconds, at most.
pub const MAX_RECEIPT_BACKOFF_MS: u64 = 5_000;

/// The wait after a wait: twice as long, up to the limit.
pub open spec fn next_backoff(backoff: u64) -> u64 {
    if backoff * 2 <= MAX_RECEIPT_BACKOFF_MS {
        (backoff * 2) as u64
    } else {
        MAX_RECEIPT_BACKOFF_MS
    }
}

/// The outcome of one recovery step.
#[derive(Debug, Clone, Copy, PartialEq, Eq, Structural)]
pub enum RecoverStep {
    Settled,
    /// Keep the reservation, wait this long, then re-read; `next` is the wait
    /// after that.
    Retry { wait: u64, next: u64 },
}

/// One step of recovering a receipt whose consume ended without a result. Only an
/// authoritative state releases the reservation.
pub fn recover_hidden_receipt(
    inner: &mut EngineInner,
    receipts: &mut ReceiptRegistry,
    delivery_id: i32,
    state: HiddenReceiptAuthoritativeState,
    backoff: u64,
) -> (r: RecoverStep)
    requires
        delivery_id != i32::MIN,
    ensures
        match state {
            HiddenReceiptAuthoritativeState::Unknown => {
                &&& r == (RecoverStep::Retry { wait: backoff, next: next_backoff(backoff) })
                &&& *final(inner) == *old(inner)
                &&& final(receipts)@ == old(receipts)@
            },
            _ => {
                &&& r == RecoverStep::Settled
                &&& final(receipts)@ == old(receipts)@.remove(delivery_id)
                &&& receipt_finished(
                    *old(inner),
                    *final(inner),
                    delivery_id,
                    state == HiddenReceiptAuthoritativeState::ConsumedOrMissing,
                )
            },
        },
{
    match state {
        HiddenReceiptAuthoritativeState::ConsumedOrMissing => {
            finish_hidden_receipt(inner, receipts, delivery_id, true);
            RecoverStep::Settled
        },
        HiddenReceiptAuthoritativeState::Pending => {
            finish_hidden_receipt(inner, receipts, delivery_id, false);
            RecoverStep::Settled
        },
        HiddenReceiptAuthoritativeState::Unknown => {
            let next: u64 = if backoff <= MAX_RECEIPT_BACKOFF_MS / 2 {
                backoff * 2
            } else {
                MAX_RECEIPT_BACKOFF_MS
            };
            RecoverStep::Retry { wait: backoff, next }
        },
    }
}

/// How the transaction that consumes a delivery came back.
#[derive(Debug, Clone, Copy, PartialEq, Eq, Structural)]
pub enum ConsumeOutcome {
    /// Consumed now, or already before.
    Done,
    Failed,
    /// It ended without a result.
    Lost,
}

/// Settle a receipt by the outcome of its transaction; false = the outcome is not
/// known, and the durable row must be re-read.
pub fn settle_hidden_receipt(
    inner: &mut EngineInner,
    receipts: &mut ReceiptRegistry,
    delivery_id: i32,
    outcome: ConsumeOutcome,
) -> (r: bool)
    requires
        delivery_id != i32::MIN,
    ensures
        r == (outcome != ConsumeOutcome::Lost),
        r ==> final(receipts)@ == old(receipts)@.remove(delivery_id) && receipt_finished(
            *old(inner),
            *final(inner),
            delivery_id,
            outcome == ConsumeOutcome::Done,
        ),
        !r ==> *final(inner) == *old(inner) && final(receipts)@ == old(receipts)@,
{
    match outcome {
        ConsumeOutcome::Done => {
            finish_hidden_receipt(inner, receipts, delivery_id, true);
            true
        },
        ConsumeOutcome::Failed => {
            finish_hidden_receipt(inner, receipts, delivery_id, false);
            true
        },
        ConsumeOutcome::Lost => false,
    }
}

/// What a turn that failed to start leaves behind: an idle engine without queue,
/// process or open row. The receipts in flight and a waiting wake stay.
pub open spec fn failed_turn_reset(before: EngineInner, after: EngineInner) -> bool {
    &&& given_up(before.turn, after.turn)
    &&& after == (EngineInner {
        turn: after.turn,
        current_origin_tag: None,
        turn_user_row: None,
        child: false,
        child_permit: false,
        stdin: false,
        current: None,
        interrupting: false,
        ..before
    })
}

/// Reset a hidden turn that failed to start. `None` = it is not ours to reset;
/// otherwise the rows that were still queued, which the caller finalizes: exactly
/// those, since a sweep could catch the row of a send that is still to come.
pub fn reset_failed_hidden_turn(inner: &mut EngineInner, turn_id: i32) -> (r: Option<Vec<i32>>)
    ensures
        r is Some == (old(inner).turn_id == turn_id && old(inner).turn.busy),
        r is None ==> *final(inner) == *old(inner),
        r matches Some(ids) ==> ids@ == tracked_ids(old(inner).turn.queue@) && failed_turn_reset(
            *old(inner),
            *final(inner),
        ),
{
    if inner.turn_id != turn_id || !inner.turn.busy {
        return None;
    }
    let drained = inner.turn.give_up();
    inner.current_origin_tag = None;
    inner.turn_user_row = None;
    inner.child = false;
    inner.child_permit = false;
    inner.stdin = false;
    inner.current = None;
    inner.interrupting = false;
    Some(drained)
}

/// One durable hidden row.
#[derive(Clone, Debug)]
pub struct HiddenRow {
    pub id: i32,
    pub thread_id: i32,
    pub source_kind: String,
    pub source_id: i32,
    pub dedupe_key: String,
    pub payload: String,
    /// Still to be delivered.
    pub pending: bool,
}

/// Why a durable row cannot be delivered.
#[derive(Debug, Clone, Copy, PartialEq, Eq, Structural)]
pub enum HiddenRowError {
    UnsupportedKind,
    InvalidPayload,
}

pub open spec fn durable_kind(kind: Seq<char>) -> bool {
    kind == "plan_decision"@ || kind == "repo_action"@
}

/// The prompt of a durable row whose payload is `doc`.
pub open spec fn durable_text(kind: Seq<char>, doc: Option<JsonView>) -> Result<
    Seq<char>,
    HiddenRowError,
> {
    if !durable_kind(kind) {
        Err(HiddenRowError::UnsupportedKind)
    } else {
        match doc {
            Some(v) => Ok(
                "<weft:"@ + kind + ">"@ + json_text(v) + "</weft:"@ + kind + ">"@,
            ),
            None => Err(HiddenRowError::InvalidPayload),
        }
    }
}

pub open spec fn text_result(r: Result<String, HiddenRowError>) -> Result<
    Seq<char>,
    HiddenRowError,
> {
    match r {
        Ok(s) => Ok(s@),
        Err(e) => Err(e),
    }
}

/// `durable_hidden_delivery_text` on a payload that is already parsed.
pub fn durable_text_parsed(kind: &str, doc: Option<&Json>) -> (r: Result<String, HiddenRowError>)
    ensures
        text_result(r) == durable_text(
            kind@,
            match doc {
                Some(v) => Some(v@),
                None => None,
            },
        ),
{
    if !same(kind, "plan_decision") && !same(kind, "repo_action") {
        return Err(HiddenRowError::UnsupportedKind);
    }
    match doc {
        Some(v) => {
            let body = v.print();
            let mut out = cat3("<weft:", kind, ">");
            out.append(body.as_str());
            out.append("</weft:");
            out.append(kind);
            out.append(">");
            Ok(out)
        },
        None => Err(HiddenRowError::InvalidPayload),
    }
}

/// Build the exact prompt that one durable hidden row carries. The source kind,
/// not a payload field, is the protocol tag on the wire.
pub fn durable_hidden_delivery_text(row: &HiddenRow) -> (r: Result<String, HiddenRowError>)
    ensures
        text_result(r) == durable_text(row.source_kind@, parsed(row.payload@)),
{
    match Json::parse(row.payload.as_str()) {
        Some(v) => durable_text_parsed(row.source_kind.as_str(), Some(&v)),
        None => durable_text_parsed(row.source_kind.as_str(), None),
    }
}

/// What lets a batch of durable rows start a stopped engine.
#[derive(Debug, Clone, Copy, PartialEq, Eq, Structural)]
pub enum DurableResumeAuthorization {
    Background,
    Visible,
}

/// One of the rows is a plan decision.
pub open spec fn holds_plan_decision(rows: Seq<HiddenRow>) -> bool {
    exists|i: int|
        0 <= i < rows.len() && (#[trigger] rows[i]).source_kind@ == "plan_decision"@
}

pub open spec fn may_resume_spec(
    rows: Seq<HiddenRow>,
    authorization: DurableResumeAuthorization,
) -> bool {
    authorization == DurableResumeAuthorization::Visible || holds_plan_decision(rows)
}

/// Whether a batch may start a stopped engine: a visible send authorizes it, and
/// so does a persisted plan decision. Repository feedback alone does not.
pub fn durable_batch_may_resume(
    prepared: &Vec<HiddenRow>,
    authorization: DurableResumeAuthorization,
) -> (r: bool)
    ensures
        r == may_resume_spec(prepared@, authorization),
{
    if authorization == DurableResumeAuthorization::Visible {
        return true;
    }
    let mut i: usize = 0;
    while i < prepared.len()
        invariant
            i <= prepared@.len(),
            forall|j: int|
                0 <= j < i ==> (#[trigger] prepared@[j]).source_kind@ != "plan_decision"@,
        decreases prepared@.len() - i,
    {
        if same(prepared[i].source_kind.as_str(), "plan_decision") {
            assert(prepared@[i as int].source_kind@ == "plan_decision"@);
            return true;
        }
        i = i + 1;
    }
    false
}

/// The rows that are still to be delivered, of what the store holds right now.
pub open spec fn still_pending(current: Seq<Option<HiddenRow>>) -> Seq<HiddenRow>
    decreases current.len(),
{
    if current.len() == 0 {
        seq![]
    } else {
        let before = still_pending(current.drop_last());
        match current.last() {
            Some(w) => if w.pending {
                before.push(w)
            } else {
                before
            },
            None => before,
        }
    }
}

/// Keep the rows that are still to be delivered. What the store says right now
/// counts: a row that was consumed or deleted since it was listed is skipped,
/// whatever marker the engine still carries for it.
pub fn pending_hidden_rows_at_admission(current: Vec<Option<HiddenRow>>) -> (r: Vec<HiddenRow>)
    ensures
        r@ == still_pending(current@),
{
    let ghost all = current@;
    let mut rest = current;
    let mut kept: Vec<HiddenRow> = Vec::new();
    let ghost mut i: int = 0;
    assert(rest@ =~= all.skip(0));
    assert(kept@ =~= still_pending(all.take(0)));
    while rest.len() > 0
        invariant
            0 <= i <= all.len(),
            rest@ == all.skip(i),
            kept@ == still_pending(all.take(i)),
        decreases rest@.len(),
    {
        proof {
            assert(all.take(i + 1).drop_last() =~= all.take(i));
            assert(all.take(i + 1).last() == rest@[0]);
        }
        let row = rest.remove(0);
        match row {
            Some(w) => if w.pending {
                kept.push(w);
            },
            None => {},
        }
        proof {
            assert(rest@ =~= all.skip(i + 1));
            i = i + 1;
        }
    }
    assert(all.take(all.len() as int) =~= all);
    kept
}

/// Why a batch of durable rows was refused.
#[derive(Debug, Clone, Copy, PartialEq, Eq, Structural)]
pub enum BatchError {
    TearingDown,
    Rewinding,
    BadRow(HiddenRowError),
    /// The engine has no way to take the row now.
    NotAdmissible,
}

/// A batch that was let in: how the engine was found.
#[derive(Debug, Clone, Copy, PartialEq, Eq, Structural)]
pub struct Batch {
    pub was_stopped: bool,
    pub initial_epoch: u64,
}

/// Every row can be turned into its prompt.
pub open spec fn row_error(row: HiddenRow) -> Option<HiddenRowError> {
    match durable_text(row.source_kind@, parsed(row.payload@)) {
        Ok(_) => None,
        Err(e) => Some(e),
    }
}

/// The first row that cannot be turned into its prompt.
pub open spec fn first_row_error(rows: Seq<HiddenRow>) -> Option<HiddenRowError>
    decreases rows.len(),
{
    if rows.len() == 0 {
        None
    } else {
        match row_error(rows[0]) {
            Some(e) => Some(e),
            None => first_row_error(rows.drop_first()),
        }
    }
}

fn check_rows(rows: &Vec<HiddenRow>) -> (r: Option<HiddenRowError>)
    ensures
        r == first_row_error(rows@),
{
    let mut i: usize = 0;
    assert(rows@.skip(0) =~= rows@);
    while i < rows.len()
        invariant
            i <= rows@.len(),
            first_row_error(rows@) == first_row_error(rows@.skip(i as int)),
        decreases rows@.len() - i,
    {
        proof {
            assert(rows@.skip(i as int)[0] == rows@[i as int]);
            assert(rows@.skip(i as int).drop_first() =~= rows@.skip(i + 1));
        }
        match durable_hidden_delivery_text(&rows[i]) {
            Ok(_) => {},
            Err(e) => {
                return Some(e);
            },
        }
        i = i + 1;
    }
    None
}

/// What becomes of a batch at the door.
pub open spec fn batch_start(
    inner: EngineInner,
    rows: Seq<HiddenRow>,
    authorization: DurableResumeAuthorization,
) -> Result<Option<Batch>, BatchError> {
    if inner.tearing_down {
        Err(BatchError::TearingDown)
    } else if inner.rewinding {
        Err(BatchError::Rewinding)
    } else {
        match first_row_error(rows) {
            Some(e) => Err(BatchError::BadRow(e)),
            None => if rows.len() == 0 || (inner.stopped && !may_resume_spec(rows, authorization)) {
                Ok(None)
            } else {
                Ok(Some(Batch { was_stopped: inner.stopped, initial_epoch: inner.reset_epoch }))
            },
        }
    }
}

/// A batch of the pending rows asks to be let in. Every row is checked before
/// anything changes: a malformed later row fails the whole batch without starting
/// an earlier one. A batch that may resume clears `stopped`, once.
pub fn begin_durable_batch(
    inner: &mut EngineInner,
    rows: &Vec<HiddenRow>,
    authorization: DurableResumeAuthorization,
) -> (r: Result<Option<Batch>, BatchError>)
    ensures
        r == batch_start(*old(inner), rows@, authorization),
        *final(inner) == (EngineInner {
            stopped: old(inner).stopped && !(r matches Ok(Some(_)) && may_resume_spec(
                rows@,
                authorization,
            )),
            ..*old(inner)
        }),
{
    if inner.tearing_down {
        return Err(BatchError::TearingDown);
    }
    if inner.rewinding {
        return Err(BatchError::Rewinding);
    }
    match check_rows(rows) {
        Some(e) => {
            return Err(BatchError::BadRow(e));
        },
        None => {},
    }
    if rows.len() == 0 {
        return Ok(None);
    }
    let may_resume = durable_batch_may_resume(rows, authorization);
    if inner.stopped && !may_resume {
        return Ok(None);
    }
    let batch = Batch { was_stopped: inner.stopped, initial_epoch: inner.reset_epoch };
    if may_resume {
        inner.stopped = false;
    }
    Ok(Some(batch))
}

/// What is to be done for one row of a batch.
pub enum RowStep {
    /// The row is gone or consumed by now.
    Skip,
    /// The row is already represented in this engine.
    Represented,
    /// Make sure of the resident process, then ask again.
    EnsureResident,
    /// The message waits behind the running turn.
    Queued,
    /// Write the message to the resident's stdin: its turn has begun.
    Write { turn_id: i32, out: Outgoing },
    /// Spawn a turn for the message: its turn has begun.
    Spawn { turn_id: i32, epoch: u64, out: Outgoing },
}

/// Whether a row with this step counts as taken, provided that what is left to do
/// for it succeeds. One that needs the resident first is asked about again.
pub fn row_counts(step: &RowStep) -> (r: bool)
    ensures
        r == (step is Represented || step is Queued || step is Write || step is Spawn),
{
    match step {
        RowStep::Skip => false,
        RowStep::Represented => true,
        RowStep::EnsureResident => false,
        RowStep::Queued => true,
        RowStep::Write { .. } => true,
        RowStep::Spawn { .. } => true,
    }
}

/// The resident process must be ensured before the row can be taken.
pub open spec fn needs_resident(inner: EngineInner) -> bool {
    !inner.stopped && !inner.turn.busy && !spawns_per_turn(inner.tool@) && !connection_tool(
        inner.tool@,
    )
}

/// The message that carries a durable row.
pub open spec fn carries_row(o: Outgoing, row: HiddenRow) -> bool {
    &&& durable_text(row.source_kind@, parsed(row.payload@)) is Ok
    &&& is_plumbing(
        o,
        durable_text(row.source_kind@, parsed(row.payload@))->Ok_0,
        Some(delivery_tag(row.id as int)),
    )
}

/// Where a stopped engine stands again after a batch failed on it.
pub open spec fn stopped_again(inner: EngineInner, batch: Batch) -> EngineInner {
    EngineInner {
        stopped: inner.stopped || (batch.was_stopped && inner.reset_epoch == batch.initial_epoch),
        ..inner
    }
}

/// What the delivery of a row does to the engine.
pub open spec fn row_delivered(
    before: EngineInner,
    after: EngineInner,
    w: HiddenRow,
    batch: Batch,
    now: u64,
    r: Result<RowStep, BatchError>,
) -> bool {
    match hidden_delivery_spec(before.tool@, before.turn.busy, before.stdin, before.stopped) {
        HiddenDelivery::Noop => {
            &&& r == Err::<RowStep, BatchError>(BatchError::NotAdmissible)
            &&& after == stopped_again(before, batch)
        },
        HiddenDelivery::Queue => {
            &&& r == Ok::<RowStep, BatchError>(RowStep::Queued)
            &&& after == (EngineInner { turn: after.turn, ..before })
            &&& after.turn.queue@.len() == before.turn.queue@.len() + 1
            &&& after.turn.queue@.drop_last() == before.turn.queue@
            &&& carries_row(after.turn.queue@.last(), w)
            &&& after.turn.busy == before.turn.busy
            &&& after.turn.quota_exceeded == before.turn.quota_exceeded
            &&& after.turn.bus_read_pos == before.turn.bus_read_pos
        },
        HiddenDelivery::WriteResident => {
            &&& hidden_turn_started(before, after, Some(w.id), now)
            &&& r is Ok
            &&& r->Ok_0 is Write
            &&& r->Ok_0->Write_turn_id == after.turn_id
            &&& carries_row(r->Ok_0->Write_out, w)
        },
        HiddenDelivery::SpawnTurn => {
            &&& hidden_turn_started(before, after, Some(w.id), now)
            &&& r is Ok
            &&& r->Ok_0 is Spawn
            &&& r->Ok_0->Spawn_turn_id == after.turn_id
            &&& r->Ok_0->epoch == after.reset_epoch
            &&& carries_row(r->Ok_0->Spawn_out, w)
        },
    }
}

/// What one row of a batch does to the engine.
pub open spec fn row_admitted(
    before: EngineInner,
    after: EngineInner,
    receipts: Set<i32>,
    row: Option<HiddenRow>,
    ensured: bool,
    batch: Batch,
    now: u64,
    r: Result<RowStep, BatchError>,
) -> bool {
    match row {
        None => r == Ok::<RowStep, BatchError>(RowStep::Skip) && after == before,
        Some(w) => if !w.pending {
            r == Ok::<RowStep, BatchError>(RowStep::Skip) && after == before
        } else if row_error(w) is Some {
            r == Err::<RowStep, BatchError>(BatchError::BadRow(row_error(w)->0)) && after == before
        } else if delivery_represented(before, receipts, w.id) {
            r == Ok::<RowStep, BatchError>(RowStep::Represented) && after == before
        } else if !ensured && needs_resident(before) {
            r == Ok::<RowStep, BatchError>(RowStep::EnsureResident) && after == before
        } else {
            row_delivered(before, after, w, batch, now, r)
        },
    }
}

#[verifier::spinoff_prover]
#[verifier::rlimit(40)]
fn deliver_row(inner: &mut EngineInner, w: &HiddenRow, text: String, batch: Batch, now: u64) -> (r:
    Result<RowStep, BatchError>)
    requires
        old(inner).turn_id < i32::MAX,
        w.id != i32::MIN,
        durable_text(w.source_kind@, parsed(w.payload@)) == Ok::<Seq<char>, HiddenRowError>(text@),
    ensures
        row_delivered(*old(inner), *final(inner), *w, batch, now, r),
{
    let out = plumbing(text, Some(hidden_delivery_tag(w.id)));
    assert(carries_row(out, *w));
    match hidden_delivery(inner.tool.as_str(), inner.turn.busy, inner.stdin, inner.stopped) {
        HiddenDelivery::Noop => {
            batch_resident_failed(inner, batch);
            Err(BatchError::NotAdmissible)
        },
        HiddenDelivery::Queue => {
            queue_hidden_delivery(inner, out);
            assert(inner.turn.queue@.drop_last() =~= old(inner).turn.queue@);
            Ok(RowStep::Queued)
        },
        HiddenDelivery::WriteResident => {
            let turn_id = mark_hidden_turn_started_with_delivery(inner, Some(w.id), now);
            Ok(RowStep::Write { turn_id, out })
        },
        HiddenDelivery::SpawnTurn => {
            let turn_id = mark_hidden_turn_started_with_delivery(inner, Some(w.id), now);
            Ok(RowStep::Spawn { turn_id, epoch: inner.reset_epoch, out })
        },
    }
}

/// Admit one row of a batch, `row` being what the store holds of it right now.
/// `ensured` says that the resident process was already made sure of. Rows are
/// asked for in id order, and none is asked for after one that failed.
pub fn admit_durable_row(
    inner: &mut EngineInner,
    receipts: &ReceiptRegistry,
    row: Option<&HiddenRow>,
    ensured: bool,
    batch: Batch,
    now: u64,
) -> (r: Result<RowStep, BatchError>)
    requires
        old(inner).turn_id < i32::MAX,
        row matches Some(w) ==> w.id != i32::MIN,
    ensures
        row_admitted(
            *old(inner),
            *final(inner),
            receipts@,
            match row {
                Some(w) => Some(*w),
                None => None,
            },
            ensured,
            batch,
            now,
            r,
        ),
{
    match row {
        None => Ok(RowStep::Skip),
        Some(w) => {
            if !w.pending {
                return Ok(RowStep::Skip);
            }
            match durable_hidden_delivery_text(w) {
                Ok(text) => {
                    if hidden_delivery_is_duplicate(inner, receipts, w.id) {
                        return Ok(RowStep::Represented);
                    }
                    if !ensured && should_ensure_active_resident(inner, true, Some(w.id))
                        && !inner.turn.busy && !per_turn(inner.tool.as_str()) && !is_acp_tool(
                        inner.tool.as_str(),
                    ) {
                        return Ok(RowStep::EnsureResident);
                    }
                    deliver_row(inner, w, text, batch, now)
                },
                Err(e) => Err(BatchError::BadRow(e)),
            }
        },
    }
}

/// The resident process could not be started for a batch: an engine that was
/// found stopped is stopped again, unless it was reset in between.
pub fn batch_resident_failed(inner: &mut EngineInner, batch: Batch)
    ensures
        *final(inner) == stopped_again(*old(inner), batch),
{
    if batch.was_stopped && inner.reset_epoch == batch.initial_epoch {
        inner.stopped = true;
    }
}

/// The write or spawn of a row failed: its turn is rolled back, and an engine that
/// was found stopped is stopped again. The rows that were still queued come back.
pub fn batch_delivery_failed(inner: &mut EngineInner, turn_id: i32, batch: Batch) -> (r: Option<
    Vec<i32>,
>)
    ensures
        r is Some == (old(inner).turn_id == turn_id && old(inner).turn.busy),
        r matches Some(ids) ==> ids@ == tracked_ids(old(inner).turn.queue@),
        exists|mid: EngineInner|
            #![trigger mid.turn_id]
            (if r is Some {
                failed_turn_reset(*old(inner), mid)
            } else {
                mid == *old(inner)
            }) && *final(inner) == (EngineInner {
                stopped: mid.stopped || batch.was_stopped,
                ..mid
            }),
{
    let r = reset_failed_hidden_turn(inner, turn_id);
    let ghost mid = *inner;
    if batch.was_stopped {
        inner.stopped = true;
    }
    assert(mid.turn_id == mid.turn_id);
    r
}

/// A receipt in flight keeps its delivery from being admitted again, whatever
/// becomes of the turn and of the engine in the meantime.
pub proof fn law_receipt_in_flight_blocks_replay(inner: EngineInner, receipts: Set<i32>, id: i32)
    requires
        receipts.contains(id),
    ensures
        delivery_represented(inner, receipts, id),
{
}

/// A repository-only batch never wakes a stopped engine in the background.
pub proof fn law_background_feedback_wakes_nobody(inner: EngineInner, rows: Seq<HiddenRow>)
    requires
        inner.stopped,
        !holds_plan_decision(rows),
    ensures
        !(batch_start(inner, rows, DurableResumeAuthorization::Background) matches Ok(Some(_))),
{
}

/// A turn that never showed activity leaves its row free to be delivered again:
/// once its marker is gone and it is neither queued nor in flight, it is not
/// represented.
pub proof fn law_unseen_delivery_may_be_retried(inner: EngineInner, receipts: Set<i32>, id: i32)
    requires
        !receipts.contains(id),
        inner.turn_user_row is None,
        inner.turn.queue@.len() == 0,
    ensures
        !delivery_represented(inner, receipts, id),
{
}

/// The receipt of a turn is sent once: after the first activity, further activity
/// of the same turn calls for nothing.
pub proof fn law_receipt_once_per_turn(
    before: EngineInner,
    after: EngineInner,
    receipts: Set<i32>,
)
    requires
        after == (EngineInner {
            clock: TurnClock {
                started_millis: before.clock.started_millis,
                consumed_marked: true,
            },
            ..before
        }),
    ensures
        activity_spec(after, receipts) == Activity::Nothing,
{
}

/// The next turn sends a receipt of its own, for the row that opens it.
pub proof fn law_every_turn_has_its_receipt(
    before: EngineInner,
    after: EngineInner,
    next: Outgoing,
    receipts: Set<i32>,
    now: u64,
)
    requires
        crate::turn_end::advanced(
            before,
            after,
            now,
            crate::turn_end::Advance {
                next: Some(next),
                turn_id: after.turn_id,
                dequeue_epoch: before.reset_epoch,
                still_busy: true,
            },
        ),
        next.queue_id matches Some(id) && id >= 0,
    ensures
        activity_spec(after, receipts) == (Activity::MarkConsumed {
            message_id: next.queue_id->0,
        }),
{
}

} // verus!
