//! Invisible input to an engine: coordinator wakes, plan approvals and durable
//! deliveries, from the request to the turn it becomes.

use vstd::prelude::*;

use crate::delivery::{
    hidden_delivery_is_duplicate, hidden_delivery_tag, hidden_turn_admissible,
    plan_approval_admissible,
};
use crate::engine::{
    hidden_delivery, mark_hidden_turn_started_with_delivery, EngineInner, HiddenDelivery,
};
use crate::registry::ReceiptRegistry;
use crate::rows::{plumbing, queue_hidden_delivery};
use crate::sending::{transport, Transport};
use crate::turn::{Outgoing, BUS_WAKE_PROMPT};

verus! {

/// A request to deliver something invisible.
#[derive(Debug, PartialEq, Eq, Structural, Clone, Copy)]
pub struct HiddenRequest {
    /// A coordinator wake: best effort, and wakes coalesce.
    pub bus_read: bool,
    /// Start a resident process if there is none.
    pub ensure: bool,
    /// A durable delivery may bring a stopped engine back.
    pub revive_stopped: bool,
    /// A plan approval: the thread that its card belongs to.
    pub plan_thread: Option<i32>,
    /// The durable delivery that this is.
    pub delivery: Option<i32>,
}

impl HiddenRequest {
    /// A coordinator wake.
    pub fn wake() -> (r: Self)
        ensures
            r == (HiddenRequest {
                bus_read: true,
                ensure: true,
                revive_stopped: false,
                plan_thread: None,
                delivery: None,
            }),
    {
        HiddenRequest {
            bus_read: true,
            ensure: true,
            revive_stopped: false,
            plan_thread: None,
            delivery: None,
        }
    }

    /// Plumbing for an engine as it stands: it starts nothing.
    pub fn existing() -> (r: Self)
        ensures
            r == (HiddenRequest {
                bus_read: false,
                ensure: false,
                revive_stopped: false,
                plan_thread: None,
                delivery: None,
            }),
    {
        HiddenRequest {
            bus_read: false,
            ensure: false,
            revive_stopped: false,
            plan_thread: None,
            delivery: None,
        }
    }

    /// A durable delivery.
    pub fn durable(delivery_id: i32, revive_stopped: bool) -> (r: Self)
        ensures
            r == (HiddenRequest {
                bus_read: false,
                ensure: revive_stopped,
                revive_stopped,
                plan_thread: None,
                delivery: Some(delivery_id),
            }),
    {
        HiddenRequest {
            bus_read: false,
            ensure: revive_stopped,
            revive_stopped,
            plan_thread: None,
            delivery: Some(delivery_id),
        }
    }

    /// The approval of a plan card of a thread.
    pub fn plan_approval(thread_id: i32) -> (r: Self)
        ensures
            r == (HiddenRequest {
                bus_read: false,
                ensure: true,
                revive_stopped: false,
                plan_thread: Some(thread_id),
                delivery: None,
            }),
    {
        HiddenRequest {
            bus_read: false,
            ensure: true,
            revive_stopped: false,
            plan_thread: Some(thread_id),
            delivery: None,
        }
    }
}

/// What the store says of a durable delivery.
#[derive(Debug, PartialEq, Eq, Structural, Clone, Copy)]
pub enum DeliveryRow {
    Missing,
    Pending,
    Consumed,
}

/// Why something invisible was not delivered.
#[derive(Debug, PartialEq, Eq, Structural, Clone, Copy)]
pub enum HiddenError {
    /// The process quota admits no new work.
    Quota,
    TearingDown,
    NotAccepting,
}

/// How the admission of a request goes on.
#[derive(Debug, PartialEq, Eq, Structural, Clone, Copy)]
pub enum HiddenStart {
    Refused(HiddenError),
    /// Nothing more to do: whether it counts as delivered.
    Done(bool),
    /// The card must still be open: look, and go on with `card_checked`.
    CheckCard,
    /// Go on.
    Admitted,
}

/// A stopped engine that this very request may bring back.
pub open spec fn may_revive(inner: EngineInner, req: HiddenRequest) -> bool {
    inner.stopped && !inner.tearing_down && (req.plan_thread is Some || (req.revive_stopped
        && req.delivery is Some))
}

/// How the admission of a request starts.
pub open spec fn hidden_start(
    inner: EngineInner,
    receipts: Set<i32>,
    req: HiddenRequest,
    quota_admits: bool,
    row: DeliveryRow,
) -> HiddenStart {
    if !quota_admits {
        if req.bus_read {
            HiddenStart::Done(false)
        } else {
            HiddenStart::Refused(HiddenError::Quota)
        }
    } else if req.delivery is Some && row == DeliveryRow::Missing {
        HiddenStart::Done(false)
    } else if req.delivery is Some && row == DeliveryRow::Consumed {
        HiddenStart::Done(true)
    } else if req.delivery is Some && crate::delivery::delivery_represented(
        inner,
        receipts,
        req.delivery->0,
    ) {
        HiddenStart::Done(true)
    } else if (inner.stopped || inner.tearing_down) && !may_revive(inner, req) {
        if req.bus_read || (req.delivery is Some && inner.stopped && !req.revive_stopped
            && !inner.tearing_down) {
            HiddenStart::Done(false)
        } else {
            HiddenStart::Refused(HiddenError::TearingDown)
        }
    } else if req.plan_thread is Some {
        if inner.thread_id != req.plan_thread->0 || !(!inner.rewinding
            && !inner.quota_failover_committing && crate::turn::turn_idle(inner.turn)) {
            HiddenStart::Done(false)
        } else {
            HiddenStart::CheckCard
        }
    } else {
        HiddenStart::Admitted
    }
}

/// The durable delivery brings the stopped engine back here, under the lock under
/// which its turn is reserved. An approval does so only once its card was checked.
pub open spec fn revived_by(
    inner: EngineInner,
    req: HiddenRequest,
    start: HiddenStart,
) -> EngineInner {
    EngineInner {
        stopped: inner.stopped && !((start is CheckCard || start is Admitted)
            && req.revive_stopped && req.delivery is Some),
        ..inner
    }
}

/// Start the admission of a request. A request that is refused leaves the engine as
/// it was.
pub fn begin_hidden(
    inner: &mut EngineInner,
    receipts: &ReceiptRegistry,
    req: HiddenRequest,
    quota_admits: bool,
    row: DeliveryRow,
) -> (r: HiddenStart)
    requires
        req.delivery != Some(i32::MIN),
        req.plan_thread is None || req.delivery is None,
    ensures
        r == hidden_start(*old(inner), receipts@, req, quota_admits, row),
        *final(inner) == revived_by(*old(inner), req, r),
{
    if !quota_admits {
        return if req.bus_read {
            HiddenStart::Done(false)
        } else {
            HiddenStart::Refused(HiddenError::Quota)
        };
    }
    match req.delivery {
        Some(id) => {
            match row {
                DeliveryRow::Missing => {
                    return HiddenStart::Done(false);
                },
                DeliveryRow::Consumed => {
                    return HiddenStart::Done(true);
                },
                DeliveryRow::Pending => {},
            }
            if hidden_delivery_is_duplicate(inner, receipts, id) {
                return HiddenStart::Done(true);
            }
        },
        None => {},
    }
    let revivable_plan = req.plan_thread.is_some() && inner.stopped && !inner.tearing_down;
    let revivable_delivery = req.revive_stopped && req.delivery.is_some() && inner.stopped
        && !inner.tearing_down;
    if !hidden_turn_admissible(inner) && !revivable_plan && !revivable_delivery {
        let deferred = req.delivery.is_some() && inner.stopped && !req.revive_stopped
            && !inner.tearing_down;
        return if req.bus_read || deferred {
            HiddenStart::Done(false)
        } else {
            HiddenStart::Refused(HiddenError::TearingDown)
        };
    }
    match req.plan_thread {
        Some(thread_id) => if inner.thread_id != thread_id || !plan_approval_admissible(inner) {
            HiddenStart::Done(false)
        } else {
            HiddenStart::CheckCard
        },
        None => {
            inner.stopped = inner.stopped && !(req.revive_stopped && req.delivery.is_some());
            HiddenStart::Admitted
        },
    }
}

/// The card was looked at. Approving is the human's word that a stopped lead goes
/// on; a card that is no longer open changes nothing.
pub fn card_checked(inner: &mut EngineInner, actionable: bool) -> (r: HiddenStart)
    ensures
        r == (if actionable {
            HiddenStart::Admitted
        } else {
            HiddenStart::Done(false)
        }),
        *final(inner) == (EngineInner {
            stopped: old(inner).stopped && !actionable,
            ..*old(inner)
        }),
{
    if !actionable {
        return HiddenStart::Done(false);
    }
    inner.stopped = false;
    HiddenStart::Admitted
}

/// What becomes of an admitted request.
pub enum HiddenStep {
    /// It stays undelivered.
    Refused(HiddenError),
    /// A wake that nobody can take.
    Dropped,
    /// It waits behind the running turn.
    Waits,
    /// Write it to the resident process, as this turn.
    Write { turn_id: i32, out: Outgoing },
    /// Launch this turn for it.
    Launch { turn_id: i32, out: Outgoing, epoch: u64, over: Transport },
}

/// The tag under which a request travels.
pub open spec fn request_tag(req: HiddenRequest) -> Option<Seq<char>> {
    match req.delivery {
        Some(id) => Some(crate::delivery::delivery_tag(id as int)),
        None => None,
    }
}

/// A delivery joins the queue behind what waits already.
pub open spec fn queued_last(before: EngineInner, after: EngineInner) -> bool {
    &&& after.turn.queue@.len() == before.turn.queue@.len() + 1
    &&& after.turn.queue@.drop_last() == before.turn.queue@
    &&& after.turn.busy == before.turn.busy
    &&& after.turn.quota_exceeded == before.turn.quota_exceeded
    &&& after.turn.bus_read_pos == before.turn.bus_read_pos
    &&& after == (EngineInner { turn: after.turn, ..before })
}

/// What becomes of an admitted request, in full.
pub open spec fn hidden_routed(
    before: EngineInner,
    after: EngineInner,
    req: HiddenRequest,
    text: Seq<char>,
    appserver: bool,
    now: u64,
    r: HiddenStep,
) -> bool {
    match crate::engine::hidden_delivery_spec(
        before.tool@,
        before.turn.busy,
        before.stdin,
        before.stopped,
    ) {
        HiddenDelivery::Noop => {
            &&& after == before
            &&& if req.bus_read {
                r is Dropped
            } else {
                r is Refused && r->Refused_0 == HiddenError::NotAccepting
            }
        },
        HiddenDelivery::Queue => {
            &&& r is Waits
            &&& if req.bus_read {
                &&& after == (EngineInner { turn: after.turn, ..before })
                &&& crate::turn::wake_requested(before.turn, after.turn, false)
            } else {
                &&& queued_last(before, after)
                &&& crate::rows::is_plumbing(after.turn.queue@.last(), text, request_tag(req))
            }
        },
        HiddenDelivery::WriteResident => {
            &&& crate::engine::hidden_turn_started(before, after, req.delivery, now)
            &&& r is Write
            &&& r->Write_turn_id == after.turn_id
            &&& crate::rows::is_plumbing(r->Write_out, text, request_tag(req))
        },
        HiddenDelivery::SpawnTurn => {
            &&& crate::engine::hidden_turn_started(before, after, req.delivery, now)
            &&& r is Launch
            &&& r->Launch_turn_id == after.turn_id
            &&& r->epoch == before.reset_epoch
            &&& r->over == crate::sending::transport_spec(before.tool@, appserver)
            &&& crate::rows::is_plumbing(r->Launch_out, text, request_tag(req))
        },
    }
}

fn wait_behind(inner: &mut EngineInner, out: Outgoing)
    ensures
        queued_last(*old(inner), *final(inner)),
        final(inner).turn.queue@.last() == out,
{
    queue_hidden_delivery(inner, out);
    assert(inner.turn.queue@.drop_last() =~= old(inner).turn.queue@);
}

/// Route an admitted request: behind the running turn, to the resident process, or
/// into a turn of its own. `appserver` is whether the app-server transport is on.
pub fn deliver_hidden(
    inner: &mut EngineInner,
    req: HiddenRequest,
    text: String,
    appserver: bool,
    now: u64,
) -> (r: HiddenStep)
    requires
        old(inner).turn_id < i32::MAX,
        req.delivery != Some(i32::MIN),
    ensures
        hidden_routed(*old(inner), *final(inner), req, text@, appserver, now, r),
{
    let tag = match req.delivery {
        Some(id) => Some(hidden_delivery_tag(id)),
        None => None,
    };
    let out = plumbing(text, tag);
    match hidden_delivery(inner.tool.as_str(), inner.turn.busy, inner.stdin, inner.stopped) {
        HiddenDelivery::Noop => if req.bus_read {
            HiddenStep::Dropped
        } else {
            HiddenStep::Refused(HiddenError::NotAccepting)
        },
        HiddenDelivery::Queue => {
            if req.bus_read {
                let _ = inner.turn.request_bus_read();
            } else {
                wait_behind(inner, out);
            }
            HiddenStep::Waits
        },
        HiddenDelivery::WriteResident => {
            let turn_id: i32 = mark_hidden_turn_started_with_delivery(inner, req.delivery, now);
            HiddenStep::Write { turn_id, out }
        },
        HiddenDelivery::SpawnTurn => {
            let over = transport(inner.tool.as_str(), appserver);
            let epoch: u64 = inner.reset_epoch;
            let turn_id: i32 = mark_hidden_turn_started_with_delivery(inner, req.delivery, now);
            HiddenStep::Launch { turn_id, out, epoch, over }
        },
    }
}

/// The text of a coordinator wake.
pub fn wake_text() -> (r: String)
    ensures
        r@ == BUS_WAKE_PROMPT@,
{
    BUS_WAKE_PROMPT.to_owned()
}

/// A stale approval has no effect on the engine: it neither starts nor wakes it.
pub proof fn law_stale_approval_changes_nothing(
    inner: EngineInner,
    receipts: Set<i32>,
    thread_id: i32,
    quota_admits: bool,
)
    requires
        inner.thread_id != thread_id || inner.turn.busy || inner.rewinding
            || inner.quota_failover_committing,
    ensures
        ({
            let req = HiddenRequest {
                bus_read: false,
                ensure: true,
                revive_stopped: false,
                plan_thread: Some(thread_id),
                delivery: None,
            };
            let start = hidden_start(inner, receipts, req, quota_admits, DeliveryRow::Pending);
            &&& !(start is Admitted)
            &&& !(start is CheckCard)
            &&& revived_by(inner, req, start) == inner
        }),
{
}

/// A wake never starts a stopped engine, and never counts as an error.
pub proof fn law_wake_leaves_the_stopped_alone(
    inner: EngineInner,
    receipts: Set<i32>,
    quota_admits: bool,
    row: DeliveryRow,
)
    requires
        inner.stopped,
    ensures
        ({
            let req = HiddenRequest {
                bus_read: true,
                ensure: true,
                revive_stopped: false,
                plan_thread: None,
                delivery: None,
            };
            let start = hidden_start(inner, receipts, req, quota_admits, row);
            &&& start == HiddenStart::Done(false)
            &&& revived_by(inner, req, start) == inner
        }),
{
}

/// A delivery that is already on its way is not delivered again.
pub proof fn law_delivered_once(
    inner: EngineInner,
    receipts: Set<i32>,
    req: HiddenRequest,
    row: DeliveryRow,
)
    requires
        req.delivery is Some,
        crate::delivery::delivery_represented(inner, receipts, req.delivery->0),
    ensures
        !(hidden_start(inner, receipts, req, true, row) is Admitted),
        !(hidden_start(inner, receipts, req, true, row) is CheckCard),
{
}

} // verus!
