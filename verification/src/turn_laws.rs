//! What the queue promises as a whole, over the agenda of turns still to come.

use vstd::prelude::*;

use crate::turn::{
    by_row, edited, first_with_id, ids_distinct, is_wake, loose, messages, rebuilt, removed,
    reordered, send_begun, text_changed, tracked_ids, turn_ended, wake_after_removal,
    wake_requested, Outgoing, Pending, TurnState,
};

verus! {

/// `o` is what is delivered for the pending turn `p`.
pub open spec fn delivers(p: Pending, o: Outgoing) -> bool {
    match p {
        Pending::Message(m) => o == m,
        Pending::Wake => is_wake(o),
    }
}

/// Turns are delivered first in, first out: the end of a turn starts the first of
/// those to come and leaves the others as they were; when none is to come, and
/// only then, the engine goes idle.
pub proof fn law_turn_end_delivers_in_order(
    before: TurnState,
    after: TurnState,
    next: Option<Outgoing>,
)
    requires
        turn_ended(before, after, next),
    ensures
        before.agenda().len() == 0 ==> next is None && !after.busy && after.agenda().len() == 0,
        before.agenda().len() > 0 ==> next is Some && delivers(before.agenda()[0], next->0)
            && after.agenda() == before.agenda().drop_first() && after.busy == before.busy,
{
    let q = before.queue@;
    match before.bus_read_pos {
        Some(n) => {
            if n == 0 || q.len() == 0 {
                let k = if n <= q.len() {
                    n as int
                } else {
                    q.len() as int
                };
                assert(q.take(k) =~= seq![]);
                assert(q.skip(k) =~= q);
                assert(before.agenda() =~= seq![Pending::Wake] + messages(q));
                assert(before.agenda().drop_first() =~= messages(q));
            } else {
                let k = if n <= q.len() {
                    n as int
                } else {
                    q.len() as int
                };
                assert(q.drop_first().take(k - 1) =~= q.take(k).drop_first());
                assert(q.drop_first().skip(k - 1) =~= q.skip(k));
                assert(before.agenda()[0] == Pending::Message(q[0]));
                assert(after.agenda() =~= before.agenda().drop_first());
            }
        },
        None => {
            if q.len() > 0 {
                assert(before.agenda()[0] == Pending::Message(q[0]));
                assert(after.agenda() =~= before.agenda().drop_first());
            }
        },
    }
}

/// A run of turn ends: each takes the queue from one state to the next.
pub open spec fn drained(states: Seq<TurnState>, out: Seq<Option<Outgoing>>) -> bool {
    &&& states.len() == out.len() + 1
    &&& forall|i: int| 0 <= i < out.len() ==> #[trigger] ended_at(states, out, i)
}

/// The turn end number `i` of the run.
pub open spec fn ended_at(states: Seq<TurnState>, out: Seq<Option<Outgoing>>, i: int) -> bool {
    turn_ended(states[i], states[i + 1], out[i])
}

/// Nothing is dropped and nothing is repeated: as many turn ends as there are
/// turns to come deliver exactly those, in order, and leave nothing behind.
pub proof fn law_drain_delivers_the_whole_agenda(
    states: Seq<TurnState>,
    out: Seq<Option<Outgoing>>,
)
    requires
        drained(states, out),
        out.len() == states[0].agenda().len(),
    ensures
        forall|i: int|
            0 <= i < out.len() ==> (#[trigger] out[i]) is Some && delivers(
                states[0].agenda()[i],
                out[i]->0,
            ),
        states[out.len() as int].agenda().len() == 0,
    decreases out.len(),
{
    if out.len() > 0 {
        assert(ended_at(states, out, 0));
        law_turn_end_delivers_in_order(states[0], states[1], out[0]);
        let s2 = states.drop_first();
        let o2 = out.drop_first();
        assert(drained(s2, o2)) by {
            assert forall|i: int| 0 <= i < o2.len() implies #[trigger] ended_at(s2, o2, i) by {
                assert(ended_at(states, out, i + 1));
            }
        }
        law_drain_delivers_the_whole_agenda(s2, o2);
        assert forall|i: int| 0 <= i < out.len() implies (#[trigger] out[i]) is Some && delivers(
            states[0].agenda()[i],
            out[i]->0,
        ) by {
            if i > 0 {
                assert(o2[i - 1] == out[i]);
                assert(states[0].agenda()[i] == s2[0].agenda()[i - 1]);
            }
        }
    }
}

/// A message queued while a turn runs goes behind everything that was already
/// to come.
pub proof fn law_enqueue_goes_last(before: TurnState, after: TurnState, o: Outgoing)
    requires
        before.wf(),
        after.queue@ == before.queue@.push(o),
        after.bus_read_pos == before.bus_read_pos,
    ensures
        after.agenda() == before.agenda().push(Pending::Message(o)),
{
    match before.bus_read_pos {
        Some(n) => {
            assert(after.queue@.take(n as int) =~= before.queue@.take(n as int));
            assert(after.queue@.skip(n as int) =~= before.queue@.skip(n as int).push(o));
        },
        None => {},
    }
    assert(after.agenda() =~= before.agenda().push(Pending::Message(o)));
}

/// Any number of wakes during a turn make one inbox read, at the place of the
/// earliest: a wake is added last unless one is already to come.
pub proof fn law_wakes_coalesce(before: TurnState, after: TurnState, r: bool)
    requires
        before.busy,
        wake_requested(before, after, r),
        before.queue@.len() <= usize::MAX,
    ensures
        !r,
        before.bus_read_pos is Some ==> after.agenda() == before.agenda(),
        before.bus_read_pos is None ==> after.agenda() == before.agenda().push(Pending::Wake),
        before.bus_read_pos is Some <==> before.agenda().contains(Pending::Wake),
        forall|i: int, j: int|
            0 <= i < after.agenda().len() && 0 <= j < after.agenda().len() && (
            #[trigger] after.agenda()[i]) is Wake && (#[trigger] after.agenda()[j]) is Wake ==> i
                == j,
{
    let q = before.queue@;
    match before.bus_read_pos {
        Some(n) => {
            let k = if n <= q.len() {
                n as int
            } else {
                q.len() as int
            };
            assert(before.agenda()[k] == Pending::Wake);
        },
        None => {
            assert(q.take(q.len() as int) =~= q);
            assert(q.skip(q.len() as int) =~= seq![]);
            assert(after.agenda() =~= before.agenda().push(Pending::Wake));
        },
    }
}

/// Removing a message takes exactly that turn out of those to come; a waiting
/// wake keeps its place among the others.
pub proof fn law_remove_takes_one_turn(before: TurnState, after: TurnState, id: i32)
    requires
        before.wf(),
        removed(before, after, id, true),
    ensures
        exists|i: int, j: int|
            #![trigger first_with_id(before.queue@, id, i), before.agenda().remove(j)]
            first_with_id(before.queue@, id, i) && 0 <= j < before.agenda().len()
                && before.agenda()[j] == Pending::Message(before.queue@[i]) && after.agenda()
                == before.agenda().remove(j),
{
    let q = before.queue@;
    let i = choose|i: int| #[trigger]
        first_with_id(before.queue@, id, i) && after.queue@ == before.queue@.remove(i)
            && after.bus_read_pos == wake_after_removal(before.bus_read_pos, i);
    match before.bus_read_pos {
        Some(n) => {
            if i < n {
                assert(q.remove(i).take(n - 1) =~= q.take(n as int).remove(i));
                assert(q.remove(i).skip(n - 1) =~= q.skip(n as int));
                assert(before.agenda()[i] == Pending::Message(q[i]));
                assert(after.agenda() =~= before.agenda().remove(i));
            } else {
                assert(q.remove(i).take(n as int) =~= q.take(n as int));
                assert(q.remove(i).skip(n as int) =~= q.skip(n as int).remove(i - n));
                assert(before.agenda()[i + 1] == Pending::Message(q[i]));
                assert(after.agenda() =~= before.agenda().remove(i + 1));
            }
        },
        None => {
            assert(before.agenda()[i] == Pending::Message(q[i]));
            assert(after.agenda() =~= before.agenda().remove(i));
        },
    }
}

/// Editing a message changes the text of that one and nothing else: every turn
/// to come keeps its place.
pub proof fn law_edit_changes_one_text(
    before: TurnState,
    after: TurnState,
    id: i32,
    text: Seq<char>,
)
    requires
        before.wf(),
        text_changed(before, after, id, text, true),
    ensures
        exists|i: int| #[trigger]
            first_with_id(before.queue@, id, i) && edited(
                before.queue@[i],
                after.queue@[i],
                text,
            ) && forall|j: int|
                0 <= j < before.queue@.len() && j != i ==> after.queue@[j] == (
                #[trigger] before.queue@[j]),
        after.agenda().len() == before.agenda().len(),
        tracked_ids(after.queue@) == tracked_ids(before.queue@),
{
    let i = choose|i: int| #[trigger]
        first_with_id(before.queue@, id, i) && after.queue@.len() == before.queue@.len() && edited(
            before.queue@[i],
            after.queue@[i],
            text,
        ) && after.queue@ =~= before.queue@.update(i, after.queue@[i]);
    assert(first_with_id(before.queue@, id, i));
    lemma_same_ids(before.queue@, after.queue@);
}

proof fn lemma_same_ids(a: Seq<Outgoing>, b: Seq<Outgoing>)
    requires
        a.len() == b.len(),
        forall|j: int| 0 <= j < a.len() ==> (#[trigger] a[j]).queue_id == b[j].queue_id,
    ensures
        tracked_ids(a) == tracked_ids(b),
    decreases a.len(),
{
    if a.len() > 0 {
        assert forall|j: int| 0 <= j < a.drop_last().len() implies (#[trigger] a.drop_last()[j]).queue_id
            == b.drop_last()[j].queue_id by {
            assert(a.drop_last()[j] == a[j]);
            assert(b.drop_last()[j] == b[j]);
        }
        lemma_same_ids(a.drop_last(), b.drop_last());
        assert(a.last().queue_id == b.last().queue_id);
    }
}

proof fn lemma_ids_cons(q: Seq<Outgoing>)
    requires
        q.len() > 0,
    ensures
        q[0].queue_id is Some ==> tracked_ids(q) == seq![q[0].queue_id->0] + tracked_ids(
            q.drop_first(),
        ),
        q[0].queue_id is None ==> tracked_ids(q) == tracked_ids(q.drop_first()),
    decreases q.len(),
{
    if q.len() == 1 {
        assert(q.drop_last() =~= seq![]);
        assert(q.drop_first() =~= seq![]);
        assert(tracked_ids(q.drop_last()) =~= seq![]);
        match q[0].queue_id {
            Some(id) => {
                assert(tracked_ids(q) =~= seq![id] + tracked_ids(q.drop_first()));
            },
            None => {},
        }
    } else {
        lemma_ids_cons(q.drop_last());
        assert(q.drop_last().drop_first() =~= q.drop_first().drop_last());
        assert(q.drop_first().last() == q.last());
        assert(q.drop_last()[0] == q[0]);
        match q[0].queue_id {
            Some(id) => {
                assert(tracked_ids(q) =~= seq![id] + tracked_ids(q.drop_first()));
            },
            None => {},
        }
    }
}

proof fn lemma_rebuilt(q: Seq<Outgoing>, order: Seq<i32>, rows: Map<i32, Outgoing>)
    requires
        order.len() == tracked_ids(q).len(),
        order.no_duplicates(),
        forall|i: int| 0 <= i < order.len() ==> rows.dom().contains(#[trigger] order[i]),
        forall|id: i32| #[trigger] rows.dom().contains(id) ==> rows[id].queue_id == Some(id),
    ensures
        rebuilt(q, order, rows).len() == q.len(),
        tracked_ids(rebuilt(q, order, rows)) == order,
        forall|i: int|
            0 <= i < q.len() && (#[trigger] q[i]).queue_id is None ==> rebuilt(q, order, rows)[i]
                == q[i],
        rebuilt(q, order, rows).to_multiset() =~= loose(q).to_multiset().add(
            order.map_values(|id: i32| rows[id]).to_multiset(),
        ),
    decreases q.len(),
{
    broadcast use vstd::seq_lib::group_to_multiset_ensures;

    let out = rebuilt(q, order, rows);
    if q.len() == 0 {
        assert(order =~= seq![]);
        assert(out =~= seq![]);
        assert(order.map_values(|id: i32| rows[id]) =~= Seq::<Outgoing>::empty());
    } else {
        lemma_ids_cons(q);
        let rest = q.drop_first();
        crate::turn::lemma_loose_first(q);
        if q[0].queue_id is None {
            lemma_rebuilt(rest, order, rows);
            let tail = rebuilt(rest, order, rows);
            assert(out =~= seq![q[0]] + tail);
            assert(out.drop_first() =~= tail);
            lemma_ids_cons(out);
            assert forall|i: int| 0 <= i < q.len() && (#[trigger] q[i]).queue_id is None implies out[i]
                == q[i] by {
                if i > 0 {
                    assert(rest[i - 1] == q[i]);
                }
            }
            lemma_multiset_cons(q[0], tail);
            assert(loose(q) =~= seq![q[0]] + loose(rest));
            lemma_multiset_cons(q[0], loose(rest));
        } else {
            let id = order[0];
            let order2 = order.drop_first();
            let rows2 = rows.remove(id);
            assert(rows.dom().contains(id));
            assert forall|i: int| 0 <= i < order2.len() implies rows2.dom().contains(
                #[trigger] order2[i],
            ) by {
                assert(order2[i] == order[i + 1]);
                assert(order[i + 1] != order[0]);
            }
            assert(order2.no_duplicates());
            lemma_rebuilt(rest, order2, rows2);
            let tail = rebuilt(rest, order2, rows2);
            assert(out =~= seq![rows[id]] + tail);
            assert(out.drop_first() =~= tail);
            lemma_ids_cons(out);
            assert(tracked_ids(out) =~= order);
            assert forall|i: int| 0 <= i < q.len() && (#[trigger] q[i]).queue_id is None implies out[i]
                == q[i] by {
                if i > 0 {
                    assert(rest[i - 1] == q[i]);
                }
            }
            lemma_multiset_cons(rows[id], tail);
            let f = |id: i32| rows[id];
            let f2 = |id: i32| rows2[id];
            assert(order2.map_values(f) =~= order2.map_values(f2)) by {
                assert forall|i: int| 0 <= i < order2.len() implies rows[order2[i]]
                    == rows2[order2[i]] by {
                    assert(order2[i] == order[i + 1]);
                    assert(order[i + 1] != order[0]);
                }
            }
            assert(order.map_values(f) =~= seq![rows[id]] + order2.map_values(f));
            lemma_multiset_cons(rows[id], order2.map_values(f));
        }
    }
}

proof fn lemma_multiset_cons(x: Outgoing, s: Seq<Outgoing>)
    ensures
        (seq![x] + s).to_multiset() =~= s.to_multiset().insert(x),
{
    broadcast use vstd::seq_lib::group_to_multiset_ensures;

    let t = seq![x] + s;
    assert(t.remove(0) =~= s);
    assert(t[0] == x);
    assert(t.contains(x));
    assert(t.to_multiset().count(x) > 0);
    assert(s.to_multiset() =~= t.to_multiset().remove(x));
}

proof fn lemma_by_row(q: Seq<Outgoing>)
    requires
        ids_distinct(q),
    ensures
        forall|id: i32| #[trigger] by_row(q).dom().contains(id) ==> by_row(q)[id].queue_id == Some(id),
        forall|id: i32| by_row(q).dom().contains(id) <==> #[trigger] tracked_ids(q).contains(id),
        tracked_ids(q).no_duplicates(),
        q.to_multiset() =~= loose(q).to_multiset().add(
            tracked_ids(q).map_values(|id: i32| by_row(q)[id]).to_multiset(),
        ),
    decreases q.len(),
{
    broadcast use vstd::seq_lib::group_to_multiset_ensures;

    if q.len() > 0 {
        let p = q.drop_last();
        assert(ids_distinct(p)) by {
            assert forall|i: int, j: int|
                0 <= i < j < p.len() && (#[trigger] p[i]).queue_id is Some implies p[i].queue_id != (
            #[trigger] p[j]).queue_id by {
                assert(p[i] == q[i]);
                assert(p[j] == q[j]);
            }
        }
        lemma_by_row(p);
        assert(q =~= p.push(q.last()));
        match q.last().queue_id {
            Some(id) => {
                lemma_ids_are_of_messages(p);
                if tracked_ids(p).contains(id) {
                    let k = choose|k: int|
                        0 <= k < p.len() && (#[trigger] p[k]).queue_id == Some(id);
                    assert(p[k] == q[k]);
                    assert(q[k].queue_id != q[q.len() - 1].queue_id);
                    assert(false);
                }
                let ids = tracked_ids(p);
                assert(tracked_ids(q) =~= ids.push(id));
                assert forall|x: i32| by_row(q).dom().contains(x) <==> #[trigger] tracked_ids(
                    q,
                ).contains(x) by {
                    if tracked_ids(q).contains(x) {
                        let k = choose|k: int|
                            0 <= k < tracked_ids(q).len() && tracked_ids(q)[k] == x;
                        if k < ids.len() {
                            assert(ids[k] == x);
                            assert(ids.contains(x));
                        }
                    }
                    if by_row(q).dom().contains(x) {
                        if x == id {
                            assert(tracked_ids(q)[ids.len() as int] == x);
                        } else {
                            assert(ids.contains(x));
                            let k = choose|k: int| 0 <= k < ids.len() && ids[k] == x;
                            assert(tracked_ids(q)[k] == x);
                        }
                    }
                }
                let f = |x: i32| by_row(p)[x];
                let g = |x: i32| by_row(q)[x];
                assert(ids.map_values(f) =~= ids.map_values(g)) by {
                    assert forall|k: int| 0 <= k < ids.len() implies by_row(p)[ids[k]]
                        == by_row(q)[ids[k]] by {
                        assert(ids.contains(ids[k]));
                        assert(ids[k] != id);
                    }
                }
                assert(tracked_ids(q).map_values(g) =~= ids.map_values(g).push(q.last()));
            },
            None => {
                assert(tracked_ids(q) == tracked_ids(p));
                assert(by_row(q) == by_row(p));
                assert(loose(q) =~= loose(p).push(q.last()));
            },
        }
    } else {
        assert(tracked_ids(q).map_values(|id: i32| by_row(q)[id]) =~= Seq::<Outgoing>::empty());
    }
}

proof fn lemma_ids_are_of_messages(q: Seq<Outgoing>)
    ensures
        forall|id: i32| #[trigger]
            tracked_ids(q).contains(id) ==> exists|k: int|
                0 <= k < q.len() && (#[trigger] q[k]).queue_id == Some(id),
    decreases q.len(),
{
    if q.len() > 0 {
        let p = q.drop_last();
        lemma_ids_are_of_messages(p);
        assert forall|id: i32| #[trigger] tracked_ids(q).contains(id) implies exists|k: int|
            0 <= k < q.len() && (#[trigger] q[k]).queue_id == Some(id) by {
            let i = choose|i: int| 0 <= i < tracked_ids(q).len() && tracked_ids(q)[i] == id;
            if i < tracked_ids(p).len() {
                assert(tracked_ids(p)[i] == id);
                assert(tracked_ids(p).contains(id));
                let k = choose|k: int| 0 <= k < p.len() && (#[trigger] p[k]).queue_id == Some(id);
                assert(q[k] == p[k]);
            } else {
                assert(q[q.len() - 1].queue_id == Some(id));
            }
        }
    }
}

proof fn lemma_map_permutation(a: Seq<i32>, b: Seq<i32>, f: spec_fn(i32) -> Outgoing)
    requires
        a.to_multiset() == b.to_multiset(),
    ensures
        a.map_values(f).to_multiset() =~= b.map_values(f).to_multiset(),
    decreases a.len(),
{
    broadcast use vstd::seq_lib::group_to_multiset_ensures;

    assert(a.to_multiset().len() == a.len());
    assert(b.to_multiset().len() == b.len());
    if a.len() == 0 {
        assert(a.map_values(f) =~= b.map_values(f));
    } else {
        let x = a.last();
        assert(a.contains(x));
        assert(b.to_multiset().count(x) > 0);
        assert(b.contains(x));
        let k = choose|k: int| 0 <= k < b.len() && b[k] == x;
        assert(a.drop_last() =~= a.remove(a.len() - 1));
        assert(a.drop_last().to_multiset() =~= b.remove(k).to_multiset());
        lemma_map_permutation(a.drop_last(), b.remove(k), f);
        assert(a.map_values(f) =~= a.drop_last().map_values(f).push(f(x)));
        assert(b.map_values(f).remove(k) =~= b.remove(k).map_values(f));
        assert(b.map_values(f)[k] == f(x));
        assert(b.map_values(f).contains(f(x)));
        assert(b.map_values(f).to_multiset().count(f(x)) > 0);
        assert(b.map_values(f).to_multiset() =~= b.remove(k).map_values(f).to_multiset().insert(
            f(x),
        ));
    }
}

/// An accepted reorder puts the visible messages in the given order, leaves every
/// invisible delivery where it was, and neither drops nor repeats a message.
pub proof fn law_reorder_is_a_permutation(before: TurnState, after: TurnState, order: Seq<i32>)
    requires
        ids_distinct(before.queue@),
        reordered(before, after, order, true),
    ensures
        tracked_ids(after.queue@) == order,
        after.queue@.len() == before.queue@.len(),
        after.queue@.to_multiset() == before.queue@.to_multiset(),
        forall|i: int|
            0 <= i < before.queue@.len() && (#[trigger] before.queue@[i]).queue_id is None
                ==> after.queue@[i] == before.queue@[i],
{
    broadcast use vstd::seq_lib::group_to_multiset_ensures;

    let q = before.queue@;
    let rows = by_row(q);
    lemma_by_row(q);
    let ids = tracked_ids(q);
    assert(ids.to_multiset().len() == ids.len());
    assert(order.to_multiset().len() == order.len());
    assert forall|i: int| 0 <= i < order.len() implies rows.dom().contains(#[trigger] order[i]) by {
        assert(order.contains(order[i]));
        assert(order.to_multiset().count(order[i]) > 0);
        assert(ids.contains(order[i]));
    }
    assert(order.no_duplicates()) by {
        ids.lemma_multiset_has_no_duplicates();
        assert forall|x: i32| order.to_multiset().contains(x) implies order.to_multiset().count(x)
            == 1 by {}
        order.lemma_multiset_has_no_duplicates_conv();
    }
    lemma_rebuilt(q, order, rows);
    lemma_map_permutation(order, ids, |id: i32| rows[id]);
}

proof fn lemma_message_has_its_id(q: Seq<Outgoing>, k: int)
    requires
        0 <= k < q.len(),
        q[k].queue_id is Some,
    ensures
        tracked_ids(q).contains(q[k].queue_id->0),
    decreases q.len(),
{
    let ids = tracked_ids(q);
    if k == q.len() - 1 {
        assert(ids[ids.len() - 1] == q[k].queue_id->0);
    } else {
        let p = q.drop_last();
        assert(p[k] == q[k]);
        lemma_message_has_its_id(p, k);
        let j = choose|j: int|
            0 <= j < tracked_ids(p).len() && tracked_ids(p)[j] == q[k].queue_id->0;
        assert(ids[j] == q[k].queue_id->0);
    }
}

proof fn lemma_distinct_messages(q: Seq<Outgoing>)
    requires
        tracked_ids(q).no_duplicates(),
    ensures
        ids_distinct(q),
    decreases q.len(),
{
    if q.len() > 0 {
        let p = q.drop_last();
        let ids = tracked_ids(q);
        let fewer = tracked_ids(p);
        assert(fewer.no_duplicates()) by {
            assert forall|a: int, b: int| 0 <= a < fewer.len() && 0 <= b < fewer.len() && a
                != b implies fewer[a] != fewer[b] by {
                assert(ids[a] == fewer[a] && ids[b] == fewer[b]);
            }
        }
        lemma_distinct_messages(p);
        assert forall|i: int, j: int|
            0 <= i < j < q.len() && (#[trigger] q[i]).queue_id is Some implies q[i].queue_id != (
        #[trigger] q[j]).queue_id by {
            assert(p[i] == q[i]);
            if j < q.len() - 1 {
                assert(p[j] == q[j]);
            } else if q[j].queue_id == q[i].queue_id {
                lemma_message_has_its_id(p, i);
                let a = choose|a: int| 0 <= a < fewer.len() && fewer[a] == q[i].queue_id->0;
                assert(ids[a] == ids[ids.len() - 1]);
            }
        }
    }
}

/// Where every invisible delivery of `a` stands in `b` too, `b` has no more visible
/// messages than `a`.
proof fn lemma_no_more_ids(a: Seq<Outgoing>, b: Seq<Outgoing>)
    requires
        a.len() == b.len(),
        forall|i: int| 0 <= i < a.len() && (#[trigger] a[i]).queue_id is None ==> b[i] == a[i],
    ensures
        tracked_ids(b).len() <= tracked_ids(a).len(),
    decreases a.len(),
{
    if a.len() > 0 {
        let (p, s) = (a.drop_last(), b.drop_last());
        assert forall|i: int| 0 <= i < p.len() && (#[trigger] p[i]).queue_id is None implies s[i]
            == p[i] by {
            assert(a[i] == p[i]);
        }
        lemma_no_more_ids(p, s);
        assert(a[a.len() - 1] == a.last());
    }
}

/// Two queues that agree on their invisible deliveries and on the order of their
/// visible rows have the same rows at the same places.
proof fn lemma_same_places(a: Seq<Outgoing>, b: Seq<Outgoing>)
    requires
        a.len() == b.len(),
        forall|i: int| 0 <= i < a.len() && (#[trigger] a[i]).queue_id is None ==> b[i] == a[i],
        tracked_ids(a) == tracked_ids(b),
    ensures
        forall|i: int| 0 <= i < a.len() ==> (#[trigger] a[i]).queue_id == b[i].queue_id,
    decreases a.len(),
{
    if a.len() > 0 {
        let (p, s) = (a.drop_last(), b.drop_last());
        assert forall|i: int| 0 <= i < p.len() && (#[trigger] p[i]).queue_id is None implies s[i]
            == p[i] by {
            assert(a[i] == p[i]);
        }
        assert(a[a.len() - 1] == a.last());
        lemma_no_more_ids(p, s);
        if a.last().queue_id is Some {
            assert(b.last().queue_id is Some);
            assert(tracked_ids(a).last() == a.last().queue_id->0);
            assert(tracked_ids(b).last() == b.last().queue_id->0);
            assert(tracked_ids(p) =~= tracked_ids(a).drop_last());
            assert(tracked_ids(s) =~= tracked_ids(b).drop_last());
        }
        lemma_same_places(p, s);
        assert forall|i: int| 0 <= i < a.len() implies (#[trigger] a[i]).queue_id
            == b[i].queue_id by {
            if i < a.len() - 1 {
                assert(a[i] == p[i] && b[i] == s[i]);
            }
        }
    }
}

/// A reorder can be undone: asking for the rows in the order they had is accepted,
/// and brings back the queue as it was.
pub proof fn law_reorder_can_be_undone(
    before: TurnState,
    moved: TurnState,
    after: TurnState,
    order: Seq<i32>,
    r: bool,
)
    requires
        ids_distinct(before.queue@),
        reordered(before, moved, order, true),
        reordered(moved, after, tracked_ids(before.queue@), r),
    ensures
        r,
        after.queue@ == before.queue@,
        after.bus_read_pos == before.bus_read_pos,
        after.busy == before.busy,
        after.quota_exceeded == before.quota_exceeded,
{
    broadcast use vstd::seq_lib::group_to_multiset_ensures;

    let (a, c) = (before.queue@, after.queue@);
    let ids = tracked_ids(a);
    law_reorder_is_a_permutation(before, moved, order);
    lemma_by_row(a);
    assert(order.no_duplicates()) by {
        ids.lemma_multiset_has_no_duplicates();
        assert forall|x: i32| order.to_multiset().contains(x) implies order.to_multiset().count(x)
            == 1 by {}
        order.lemma_multiset_has_no_duplicates_conv();
    }
    lemma_distinct_messages(moved.queue@);
    law_reorder_is_a_permutation(moved, after, ids);
    assert forall|i: int| 0 <= i < a.len() && (#[trigger] a[i]).queue_id is None implies c[i]
        == a[i] by {
        assert(moved.queue@[i] == a[i]);
    }
    lemma_same_places(a, c);
    assert forall|i: int| 0 <= i < a.len() implies a[i] == c[i] by {
        if a[i].queue_id is Some {
            assert(a.contains(a[i]));
            assert(a.to_multiset().count(a[i]) > 0);
            assert(c.contains(a[i]));
            let k = choose|k: int| 0 <= k < c.len() && c[k] == a[i];
            assert(a[k].queue_id == c[k].queue_id);
            assert(k == i);
        }
    }
    assert(a =~= c);
}

/// What an operation of the queue does not speak of, it leaves alone: a send or a
/// wake that finds the engine idle changes nothing that waits.
pub proof fn law_starting_a_turn_keeps_what_waits(before: TurnState, after: TurnState, r: bool)
    requires
        send_begun(before, after, r) || (!before.busy && wake_requested(before, after, r)),
    ensures
        after.agenda() == before.agenda(),
        after.busy,
{
}

} // verus!
