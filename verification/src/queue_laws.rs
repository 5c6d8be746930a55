//! What the operations of the queue promise, said of the queue before and after.

use vstd::prelude::*;

use crate::turn::{
    first_with_id, has_pending_user_test_update, ids_distinct, plan_approval_turn_idle, queue_items,
    should_attempt_quota_failover, shown_items, tracked_ids, visible_queued, Outgoing, Pending,
    QueuedItem, QueuedView, TurnState, BUS_WAKE_PROMPT,
};
use crate::turn_laws::{
    delivers, law_reorder_is_a_permutation, law_turn_end_delivers_in_order, law_wakes_coalesce,
};

verus! {

/// The turns to come are the queued messages in order, with the one inbox read, if it is
/// asked for, behind as many of them as were there when it was.
pub proof fn law_agenda_is_the_queue_with_the_wake(turn: TurnState, i: int)
    requires
        turn.wf(),
    ensures
        turn.bus_read_pos is None ==> turn.agenda().len() == turn.queue@.len(),
        turn.bus_read_pos is Some ==> turn.agenda().len() == turn.queue@.len() + 1,
        turn.bus_read_pos is Some ==> turn.agenda()[turn.bus_read_pos->0 as int] is Wake,
        0 <= i < turn.queue@.len() && (turn.bus_read_pos is None || i < turn.bus_read_pos->0)
            ==> turn.agenda()[i] == Pending::Message(turn.queue@[i]),
        0 <= i < turn.queue@.len() && turn.bus_read_pos is Some && i >= turn.bus_read_pos->0
            ==> turn.agenda()[i + 1] == Pending::Message(turn.queue@[i]),
{
}

/// The end of a turn starts the first of the turns to come and leaves the others as they
/// were. When none is to come, and only then, nothing starts and the engine goes idle.
/// The signal of exhaustion was of the turn that ended.
pub proof fn law_end_of_turn_starts_the_next(
    before: TurnState,
    r: Option<Outgoing>,
    after: TurnState,
)
    requires
        exists|m: &mut TurnState|
            *m == before && *final(m) == after && #[trigger] call_ensures(
                TurnState::on_turn_end,
                (m,),
                r,
            ),
    ensures
        before.wf() ==> after.wf(),
        r is Some == (before.agenda().len() > 0),
        r is Some ==> delivers(before.agenda()[0], r->0) && after.agenda()
            == before.agenda().drop_first() && after.busy == before.busy,
        r is None ==> !after.busy && after.agenda().len() == 0,
        !after.quota_exceeded,
{
    law_turn_end_delivers_in_order(before, after, r);
}

/// What is delivered for a queued message is that message; for a wake it is the prompt to
/// read the inbox, and it comes from nowhere and shows nowhere.
pub proof fn law_what_is_delivered(p: Pending, o: Outgoing)
    requires
        delivers(p, o),
    ensures
        p is Message ==> o == p->Message_0,
        p is Wake ==> o.text@ == BUS_WAKE_PROMPT@ && o.images@.len() == 0 && !o.is_tracked
            && o.origin_tag is None && o.queue_id is None && !o.has_attachments,
{
}

/// A send begins a turn exactly where none runs. Nothing that waits is touched.
pub proof fn law_send_begins_where_none_runs(before: TurnState, r: bool, after: TurnState)
    requires
        exists|m: &mut TurnState|
            *m == before && *final(m) == after && #[trigger] call_ensures(
                TurnState::try_begin_send,
                (m,),
                r,
            ),
    ensures
        before.wf() ==> after.wf(),
        r == !before.busy,
        after.busy,
        after.agenda() == before.agenda(),
        r ==> !after.quota_exceeded,
        !r ==> after == before,
{
    assert(!r ==> after.quota_exceeded == before.quota_exceeded);
}

/// A wake begins a turn where none runs; where one runs, the inbox is read once, behind
/// everything that waits already, however often it is asked for.
pub proof fn law_wake_is_asked_for_once(before: TurnState, r: bool, after: TurnState)
    requires
        before.wf(),
        before.queue@.len() <= usize::MAX,
        exists|m: &mut TurnState|
            *m == before && *final(m) == after && #[trigger] call_ensures(
                TurnState::request_bus_read,
                (m,),
                r,
            ),
    ensures
        after.quota_exceeded == (before.busy && before.quota_exceeded),
        before.wf() ==> after.wf(),
        r == !before.busy,
        after.busy,
        after.queue == before.queue,
        before.busy && !before.agenda().contains(Pending::Wake) ==> after.agenda()
            == before.agenda().push(Pending::Wake),
        before.busy && before.agenda().contains(Pending::Wake) ==> after.agenda()
            == before.agenda(),
        !before.busy ==> after.agenda() == before.agenda(),
{
    if before.busy {
        law_wakes_coalesce(before, after, r);
    }
}

pub proof fn lemma_ids(q: Seq<Outgoing>)
    ensures
        tracked_ids(q) == q.filter(|o: Outgoing| o.queue_id is Some).map_values(
            |o: Outgoing| o.queue_id->0,
        ),
    decreases q.len(),
{
    reveal(Seq::filter);
    let keep = |o: Outgoing| o.queue_id is Some;
    let id = |o: Outgoing| o.queue_id->0;
    if q.len() == 0 {
        assert(q.filter(keep).map_values(id) =~= seq![]);
    } else {
        lemma_ids(q.drop_last());
        let before = q.drop_last().filter(keep);
        assert(before.push(q.last()).map_values(id) =~= before.map_values(id).push(
            q.last().queue_id->0,
        ));
    }
}

/// Giving up empties the queue and leaves the engine idle; it names the rows of all
/// visible messages that waited, in order.
pub proof fn law_giving_up_names_every_waiting_row(
    before: TurnState,
    r: Vec<i32>,
    after: TurnState,
)
    requires
        exists|m: &mut TurnState|
            *m == before && *final(m) == after && #[trigger] call_ensures(
                TurnState::give_up,
                (m,),
                r,
            ),
    ensures
        after.quota_exceeded == before.quota_exceeded && after.bus_read_pos == before.bus_read_pos,
        !after.busy,
        after.queue@.len() == 0,
        r@ == before.queue@.filter(|o: Outgoing| o.queue_id is Some).map_values(
            |o: Outgoing| o.queue_id->0,
        ),
{
    lemma_ids(before.queue@);
}

/// The number of visible messages is that of those with a row.
pub proof fn law_visible_messages_have_rows(turn: &TurnState, r: usize)
    requires
        call_ensures(visible_queued, (turn,), r),
    ensures
        r == turn.queue@.filter(|o: Outgoing| o.queue_id is Some).len(),
{
    lemma_ids(turn.queue@);
}

/// What is shown of a queued message.
pub open spec fn shows_message(v: QueuedView, o: Outgoing) -> bool {
    &&& o.queue_id == Some(v.id)
    &&& v.text == o.text@
    &&& v.images == o.images@.len()
    &&& v.files == 0
    &&& v.has_attachments == o.has_attachments
}

pub proof fn lemma_shown(q: Seq<Outgoing>)
    ensures
        shown_items(q).len() == q.filter(|o: Outgoing| o.queue_id is Some).len(),
        forall|i: int|
            0 <= i < shown_items(q).len() ==> shows_message(
                #[trigger] shown_items(q)[i],
                q.filter(|o: Outgoing| o.queue_id is Some)[i],
            ),
    decreases q.len(),
{
    reveal(Seq::filter);
    if q.len() > 0 {
        lemma_shown(q.drop_last());
        let before = shown_items(q.drop_last());
        assert forall|i: int| 0 <= i < shown_items(q).len() implies shows_message(
            #[trigger] shown_items(q)[i],
            q.filter(|o: Outgoing| o.queue_id is Some)[i],
        ) by {
            if i < before.len() {
                assert(shown_items(q)[i] == before[i]);
            }
        }
    }
}

/// The queue that is shown holds the visible messages, all of them and in order, each
/// under the id of its row and with its own text.
pub proof fn law_queue_shows_the_visible_messages(turn: &TurnState, r: Vec<QueuedItem>)
    requires
        call_ensures(queue_items, (turn,), r),
    ensures
        r@.len() == turn.queue@.filter(|o: Outgoing| o.queue_id is Some).len(),
        forall|i: int|
            0 <= i < r@.len() ==> shows_message(
                (#[trigger] r@[i])@,
                turn.queue@.filter(|o: Outgoing| o.queue_id is Some)[i],
            ),
{
    lemma_shown(turn.queue@);
    let views = r@.map_values(|x: QueuedItem| x@);
    assert(views.len() == r@.len());
    assert forall|i: int| 0 <= i < r@.len() implies shows_message(
        (#[trigger] r@[i])@,
        turn.queue@.filter(|o: Outgoing| o.queue_id is Some)[i],
    ) by {
        assert(views[i] == r@[i]@);
        assert(shows_message(
            shown_items(turn.queue@)[i],
            turn.queue@.filter(|o: Outgoing| o.queue_id is Some)[i],
        ));
    }
}

/// A removal takes the first message with that row out of the queue, and nothing else; it
/// says whether there was one, and without one changes nothing.
pub proof fn law_removal_takes_one_message(
    before: TurnState,
    id: i32,
    r: bool,
    after: TurnState,
    i: int,
)
    requires
        before.wf(),
        exists|m: &mut TurnState|
            *m == before && *final(m) == after && #[trigger] call_ensures(
                TurnState::remove,
                (m, id),
                r,
            ),
    ensures
        after.quota_exceeded == before.quota_exceeded,
        before.bus_read_pos is None ==> after.bus_read_pos is None,
        before.wf() ==> after.wf(),
        (forall|j: int| 0 <= j < before.queue@.len() ==> (#[trigger] before.queue@[j]).queue_id
            != Some(id)) ==> !r && after == before,
        first_with_id(before.queue@, id, i) ==> r && after.queue@ == before.queue@.subrange(0, i)
            + before.queue@.subrange(i + 1, before.queue@.len() as int) && after.busy
            == before.busy,
        first_with_id(before.queue@, id, i) && before.bus_read_pos is Some
            ==> after.bus_read_pos is Some && (if i < before.bus_read_pos->0 {
            after.bus_read_pos->0 == before.bus_read_pos->0 - 1
        } else {
            after.bus_read_pos->0 == before.bus_read_pos->0
        }),
{
    let q = before.queue@;
    if first_with_id(q, id, i) {
        assert(q[i].queue_id == Some(id));
        let k = choose|k: int| #[trigger]
            first_with_id(q, id, k) && after.queue@ == q.remove(k) && after.bus_read_pos
                == crate::turn::wake_after_removal(before.bus_read_pos, k);
        assert(q[k].queue_id == Some(id));
        if k < i {
            assert(q[k].queue_id != Some(id));
        } else if i < k {
            assert(q[i].queue_id != Some(id));
        }
        assert(q.remove(i) =~= q.subrange(0, i) + q.subrange(i + 1, q.len() as int));
    }
}

/// An edit gives the first message with that row another text; all else of it, and every
/// other message, stays. It says whether there was one.
pub proof fn law_edit_touches_one_text(
    before: TurnState,
    id: i32,
    text: &str,
    r: bool,
    after: TurnState,
    i: int,
    j: int,
)
    requires
        before.wf(),
        exists|m: &mut TurnState|
            *m == before && *final(m) == after && #[trigger] call_ensures(
                TurnState::edit,
                (m, id, text),
                r,
            ),
    ensures
        after.quota_exceeded == before.quota_exceeded,
        before.wf() ==> after.wf(),
        (forall|k: int| 0 <= k < before.queue@.len() ==> (#[trigger] before.queue@[k]).queue_id
            != Some(id)) ==> !r && after == before,
        after.queue@.len() == before.queue@.len(),
        first_with_id(before.queue@, id, i) ==> r && after.queue@[i].text@ == text@
            && after.queue@[i].queue_id == Some(id) && after.queue@[i].images
            == before.queue@[i].images && after.queue@[i].origin_tag
            == before.queue@[i].origin_tag && after.queue@[i].is_tracked
            == before.queue@[i].is_tracked && after.queue@[i].has_attachments
            == before.queue@[i].has_attachments,
        first_with_id(before.queue@, id, i) && 0 <= j < before.queue@.len() && j != i
            ==> after.queue@[j] == before.queue@[j],
        after.bus_read_pos == before.bus_read_pos && after.busy == before.busy,
{
    let q = before.queue@;
    if first_with_id(q, id, i) {
        assert(q[i].queue_id == Some(id));
        let k = choose|k: int| #[trigger]
            first_with_id(q, id, k) && after.queue@.len() == q.len() && crate::turn::edited(
                q[k],
                after.queue@[k],
                text@,
            ) && after.queue@ =~= q.update(k, after.queue@[k]);
        assert(q[k].queue_id == Some(id));
        if k < i {
            assert(q[k].queue_id != Some(id));
        } else if i < k {
            assert(q[i].queue_id != Some(id));
        }
        if 0 <= j < q.len() && j != i {
            assert(after.queue@[j] == q.update(i, after.queue@[i])[j]);
        }
    }
}

/// A reorder is accepted exactly when it names the rows of all visible messages, each
/// once, and no inbox read waits. It puts them in that order and leaves every invisible
/// delivery in its place; a refused one changes nothing.
pub proof fn law_reorder_puts_the_rows_in_order(
    before: TurnState,
    order: &[i32],
    r: bool,
    after: TurnState,
    i: int,
)
    requires
        ids_distinct(before.queue@),
        exists|m: &mut TurnState|
            *m == before && *final(m) == after && #[trigger] call_ensures(
                TurnState::reorder,
                (m, order),
                r,
            ),
    ensures
        after.quota_exceeded == before.quota_exceeded && after.busy == before.busy
            && after.bus_read_pos == before.bus_read_pos,
        r == (before.bus_read_pos is None && order@.to_multiset() == before.queue@.filter(
            |o: Outgoing| o.queue_id is Some,
        ).map_values(|o: Outgoing| o.queue_id->0).to_multiset()),
        !r ==> after == before,
        r ==> after.queue@.len() == before.queue@.len() && after.queue@.to_multiset()
            == before.queue@.to_multiset(),
        r ==> after.queue@.filter(|o: Outgoing| o.queue_id is Some).map_values(
            |o: Outgoing| o.queue_id->0,
        ) == order@,
        r && 0 <= i < before.queue@.len() && before.queue@[i].queue_id is None
            ==> after.queue@[i] == before.queue@[i],
{
    lemma_ids(before.queue@);
    lemma_ids(after.queue@);
    if r {
        law_reorder_is_a_permutation(before, after, order@);
    }
}

/// A plan may be approved while nothing runs and nothing waits.
pub proof fn law_plan_is_approved_at_rest(turn: &TurnState, r: bool)
    requires
        call_ensures(plan_approval_turn_idle, (turn,), r),
    ensures
        r == (!turn.busy && turn.queue@.len() == 0 && turn.bus_read_pos is None),
{
}

/// An edit of the test cases waits exactly when a queued message carries its mark.
pub proof fn law_waiting_test_edit(turn: &TurnState, r: bool, i: int, a: Seq<char>, b: Seq<char>)
    requires
        call_ensures(has_pending_user_test_update, (turn,), r),
    ensures
        0 <= i < turn.queue@.len() && turn.queue@[i].text@ == a + "<weft:test_cases_updated>"@ + b
            ==> r,
        r ==> exists|j: int, p: int|
            0 <= j < turn.queue@.len() && #[trigger] crate::text::occurs_at(
                turn.queue@[j].text@,
                "<weft:test_cases_updated>"@,
                p,
            ),
{
    let mark = "<weft:test_cases_updated>"@;
    if 0 <= i < turn.queue@.len() && turn.queue@[i].text@ == a + mark + b {
        let s = turn.queue@[i].text@;
        assert(s.subrange(a.len() as int, (a.len() + mark.len()) as int) =~= mark);
        assert(crate::text::occurs_at(s, mark, a.len() as int));
        assert(crate::text::occurs(turn.queue@[i].text@, mark));
    }
    if r {
        let j = choose|j: int|
            0 <= j < turn.queue@.len() && crate::text::occurs(
                (#[trigger] turn.queue@[j]).text@,
                mark,
            );
        let p = choose|p: int| crate::text::occurs_at(turn.queue@[j].text@, mark, p);
        assert(crate::text::occurs_at(turn.queue@[j].text@, mark, p));
    }
}

/// Another engine is tried exactly after a turn that ended in error, with the signal of
/// exhaustion, and with nothing left to run.
pub proof fn law_failover_needs_all_three(status: &str, exceeded: bool, busy: bool, r: bool)
    requires
        call_ensures(should_attempt_quota_failover, (status, exceeded, busy), r),
    ensures
        r ==> status@ == "error"@ && exceeded && !busy,
        status@ == "error"@ && exceeded && !busy ==> r,
{
}

} // verus!
