//! What the recovery after a restart promises, said of what was persisted.

use std::collections::HashSet;

use vstd::prelude::*;

use crate::revive::{
    blocks, collect_pending_lead_targets, collect_targets, has_blocking_permission,
    pending_lead_can_start, pending_targets, revived_leads, revived_workers, thread_workers,
    OpenAsk, PendingLeadTarget, PendingRow, StoredDirection, StoredThread, WorkerTarget,
};

verus! {

broadcast use vstd::std_specs::hash::group_hash_axioms;

/// The thread's lead has a native session, was persisted as running, and no live engine
/// has its key.
pub open spec fn lead_was_cut_off(t: StoredThread, live: Set<i64>) -> bool {
    &&& t.lead_has_native
    &&& t.lead_status is Some
    &&& t.lead_status->0@ == "running"@
    &&& !live.contains((-(t.id as int)) as i64)
}

proof fn lemma_leads(threads: Seq<StoredThread>, live: Set<i64>)
    ensures
        revived_leads(threads, live) == threads.filter(
            |t: StoredThread| lead_was_cut_off(t, live),
        ).map_values(|t: StoredThread| t.id),
    decreases threads.len(),
{
    reveal(Seq::filter);
    let keep = |t: StoredThread| lead_was_cut_off(t, live);
    let id = |t: StoredThread| t.id;
    if threads.len() == 0 {
        assert(threads.filter(keep).map_values(id) =~= seq![]);
    } else {
        lemma_leads(threads.drop_last(), live);
        let before = threads.drop_last().filter(keep);
        assert(before.push(threads.last()).map_values(id) =~= before.map_values(id).push(
            threads.last().id,
        ));
    }
}

proof fn lemma_lead_listed(threads: Seq<StoredThread>, live: Set<i64>, id: i32)
    ensures
        revived_leads(threads, live).contains(id) == exists|i: int|
            0 <= i < threads.len() && (#[trigger] threads[i]).id == id && lead_was_cut_off(
                threads[i],
                live,
            ),
    decreases threads.len(),
{
    if threads.len() > 0 {
        let rest = threads.drop_last();
        let before = revived_leads(rest, live);
        let all = revived_leads(threads, live);
        lemma_lead_listed(rest, live, id);
        if before.contains(id) {
            let k = before.index_of(id);
            assert(all[k] == id);
            let i = choose|i: int|
                0 <= i < rest.len() && (#[trigger] rest[i]).id == id && lead_was_cut_off(
                    rest[i],
                    live,
                );
            assert(threads[i].id == id);
        }
        let last = threads.len() - 1;
        if threads[last].id == id && lead_was_cut_off(threads[last], live) {
            assert(all.last() == id);
        }
        if all.contains(id) && !before.contains(id) {
            let k = all.index_of(id);
            if k < before.len() {
                assert(before[k] == id);
            }
            assert(threads[last].id == id);
        }
        if exists|i: int|
            0 <= i < threads.len() && (#[trigger] threads[i]).id == id && lead_was_cut_off(
                threads[i],
                live,
            ) {
            let i = choose|i: int|
                0 <= i < threads.len() && (#[trigger] threads[i]).id == id && lead_was_cut_off(
                    threads[i],
                    live,
                );
            if i < last {
                assert(rest[i] == threads[i]);
            }
        }
    }
}

/// A thread's id is among the leads to be revived exactly when a thread of that id has a
/// lead with a native session that was persisted as running and that no live engine
/// has; there are as many of them as there are such threads, and they come in order.
pub proof fn law_leads_revive_exactly_when_cut_off(
    threads: Vec<StoredThread>,
    live: HashSet<i64>,
    r: (Vec<i32>, Vec<WorkerTarget>),
)
    requires
        call_ensures(collect_targets, (&threads, &live), r),
    ensures
        forall|id: i32| #[trigger]
            r.0@.contains(id) == exists|i: int|
                0 <= i < threads@.len() && (#[trigger] threads@[i]).id == id && lead_was_cut_off(
                    threads@[i],
                    live@,
                ),
        r.0@.len() == threads@.filter(|t: StoredThread| lead_was_cut_off(t, live@)).len(),
        r.0@ == threads@.filter(|t: StoredThread| lead_was_cut_off(t, live@)).map_values(
            |t: StoredThread| t.id,
        ),
{
    lemma_leads(threads@, live@);
    assert forall|id: i32| #[trigger] r.0@.contains(id) == exists|i: int|
        0 <= i < threads@.len() && (#[trigger] threads@[i]).id == id && lead_was_cut_off(
            threads@[i],
            live@,
        ) by {
        lemma_lead_listed(threads@, live@, id);
    }
}

proof fn lemma_workers_split(
    id: i32,
    a: Seq<StoredDirection>,
    b: Seq<StoredDirection>,
    live: Set<i64>,
)
    ensures
        thread_workers(id, a + b, live) == thread_workers(id, a, live) + thread_workers(id, b, live),
    decreases b.len(),
{
    if b.len() == 0 {
        assert(a + b =~= a);
        assert(thread_workers(id, a, live) + thread_workers(id, b, live) =~= thread_workers(
            id,
            a,
            live,
        ));
    } else {
        lemma_workers_split(id, a, b.drop_last(), live);
        assert((a + b).drop_last() =~= a + b.drop_last());
        assert((a + b).last() == b.last());
        assert(thread_workers(id, a + b, live) =~= thread_workers(id, a, live) + thread_workers(
            id,
            b,
            live,
        ));
    }
}

proof fn lemma_revived_split(a: Seq<StoredThread>, b: Seq<StoredThread>, live: Set<i64>)
    ensures
        revived_workers(a + b, live) == revived_workers(a, live) + revived_workers(b, live),
    decreases b.len(),
{
    if b.len() == 0 {
        assert(a + b =~= a);
        assert(revived_workers(a, live) + revived_workers(b, live) =~= revived_workers(a, live));
    } else {
        lemma_revived_split(a, b.drop_last(), live);
        assert((a + b).drop_last() =~= a + b.drop_last());
        assert((a + b).last() == b.last());
        assert(revived_workers(a + b, live) =~= revived_workers(a, live) + revived_workers(
            b,
            live,
        ));
    }
}

/// The workers to be revived are those of the first threads and then those of the rest.
pub proof fn law_workers_come_thread_by_thread(
    a: Vec<StoredThread>,
    b: Vec<StoredThread>,
    all: Vec<StoredThread>,
    live: HashSet<i64>,
    ra: (Vec<i32>, Vec<WorkerTarget>),
    rb: (Vec<i32>, Vec<WorkerTarget>),
    rall: (Vec<i32>, Vec<WorkerTarget>),
)
    requires
        all@ == a@ + b@,
        call_ensures(collect_targets, (&a, &live), ra),
        call_ensures(collect_targets, (&b, &live), rb),
        call_ensures(collect_targets, (&all, &live), rall),
    ensures
        rall.1@ == ra.1@ + rb.1@,
{
    lemma_revived_split(a@, b@, live@);
}

proof fn lemma_one_thread(t: StoredThread, live: Set<i64>)
    ensures
        revived_workers(seq![t], live) == thread_workers(t.id, t.directions@, live),
{
    let s = seq![t];
    assert(s.drop_last() =~= seq![]);
    reveal_with_fuel(revived_workers, 2);
    assert(revived_workers(s, live) =~= thread_workers(t.id, t.directions@, live));
}

/// Of one thread, they are those of the first directions and then those of the rest.
pub proof fn law_workers_come_direction_by_direction(
    a: Vec<StoredThread>,
    b: Vec<StoredThread>,
    all: Vec<StoredThread>,
    live: HashSet<i64>,
    ra: (Vec<i32>, Vec<WorkerTarget>),
    rb: (Vec<i32>, Vec<WorkerTarget>),
    rall: (Vec<i32>, Vec<WorkerTarget>),
)
    requires
        a@.len() == 1 && b@.len() == 1 && all@.len() == 1,
        a@[0].id == all@[0].id && b@[0].id == all@[0].id,
        all@[0].directions@ == a@[0].directions@ + b@[0].directions@,
        call_ensures(collect_targets, (&a, &live), ra),
        call_ensures(collect_targets, (&b, &live), rb),
        call_ensures(collect_targets, (&all, &live), rall),
    ensures
        rall.1@ == ra.1@ + rb.1@,
{
    assert(a@ =~= seq![a@[0]]);
    assert(b@ =~= seq![b@[0]]);
    assert(all@ =~= seq![all@[0]]);
    lemma_one_thread(a@[0], live@);
    lemma_one_thread(b@[0], live@);
    lemma_one_thread(all@[0], live@);
    lemma_workers_split(all@[0].id, a@[0].directions@, b@[0].directions@, live@);
}

/// A direction's worker is revived exactly when the direction is not done and its
/// latest session has a native session, was persisted as running and is not live. The
/// target names that thread, direction and session, and the session's repository.
pub proof fn law_worker_revives_exactly_when_cut_off(
    threads: Vec<StoredThread>,
    live: HashSet<i64>,
    r: (Vec<i32>, Vec<WorkerTarget>),
)
    requires
        threads@.len() == 1,
        threads@[0].directions@.len() == 1,
        call_ensures(collect_targets, (&threads, &live), r),
    ensures
        ({
            let d = threads@[0].directions@[0];
            let cut_off = d.status@ != "done"@ && d.session is Some && d.session->0.has_native
                && d.session->0.status@ == "running"@ && !live@.contains(d.session->0.id as i64);
            &&& r.1@.len() == if cut_off {
                1nat
            } else {
                0
            }
            &&& cut_off ==> r.1@[0].thread_id == threads@[0].id && r.1@[0].direction_id == d.id
                && r.1@[0].session_id == d.session->0.id && r.1@[0].repo_id
                == d.session->0.repo_id
        }),
{
    let t = threads@[0];
    assert(threads@ =~= seq![t]);
    lemma_one_thread(t, live@);
    let s = t.directions@;
    assert(s.drop_last() =~= seq![]);
    reveal_with_fuel(thread_workers, 2);
}

/// A lead with waiting rows has a target exactly when one of its rows is neither behind a
/// live engine nor behind a lead that is revived anyway; its target says that there is a
/// plan decision exactly when one of those rows is one.
pub proof fn law_waiting_rows_wake_their_leads(
    rows: Vec<PendingRow>,
    live: HashSet<i64>,
    revived: HashSet<i32>,
    r: Vec<PendingLeadTarget>,
)
    requires
        call_ensures(collect_pending_lead_targets, (&rows, &live, &revived), r),
    ensures
        forall|id: i32|
            (exists|k: int| 0 <= k < r@.len() && (#[trigger] r@[k]).thread_id == id)
                == #[trigger] waits(rows@, live@, revived@, id),
        forall|k: int|
            0 <= k < r@.len() ==> (#[trigger] r@[k]).has_plan_decision == plan_waits(
                rows@,
                live@,
                revived@,
                r@[k].thread_id,
            ),
{
    lemma_pending(rows@, live@, revived@);
}

/// A row of this lead waits, and nothing else takes care of it.
pub open spec fn waits(rows: Seq<PendingRow>, live: Set<i64>, revived: Set<i32>, id: i32) -> bool {
    exists|i: int|
        0 <= i < rows.len() && (#[trigger] rows[i]).thread_id == id && !live.contains(
            (-(id as int)) as i64,
        ) && !revived.contains(id)
}

/// A plan decision is among such rows.
pub open spec fn plan_waits(
    rows: Seq<PendingRow>,
    live: Set<i64>,
    revived: Set<i32>,
    id: i32,
) -> bool {
    exists|i: int|
        0 <= i < rows.len() && (#[trigger] rows[i]).thread_id == id && rows[i].source_kind@
            == "plan_decision"@ && !live.contains((-(id as int)) as i64) && !revived.contains(id)
}

proof fn lemma_place(targets: Seq<PendingLeadTarget>, id: i32)
    ensures
        crate::revive::target_place(targets, id) <= targets.len(),
        crate::revive::target_place(targets, id) < targets.len()
            ==> targets[crate::revive::target_place(targets, id) as int].thread_id == id,
        crate::revive::target_place(targets, id) == targets.len() ==> forall|i: int|
            0 <= i < targets.len() ==> (#[trigger] targets[i]).thread_id != id,
    decreases targets.len(),
{
    if targets.len() > 0 && targets[0].thread_id != id {
        let rest = targets.drop_first();
        lemma_place(rest, id);
        if crate::revive::target_place(targets, id) == targets.len() {
            assert forall|i: int| 0 <= i < targets.len() implies (#[trigger] targets[i]).thread_id
                != id by {
                if i > 0 {
                    assert(rest[i - 1] == targets[i]);
                }
            }
        }
    }
}

proof fn lemma_waits_step(rows: Seq<PendingRow>, live: Set<i64>, revived: Set<i32>, id: i32)
    requires
        rows.len() > 0,
    ensures
        ({
            let free = !live.contains((-(id as int)) as i64) && !revived.contains(id);
            let last = rows.last();
            &&& waits(rows, live, revived, id) == (waits(rows.drop_last(), live, revived, id)
                || (free && last.thread_id == id))
            &&& plan_waits(rows, live, revived, id) == (plan_waits(
                rows.drop_last(),
                live,
                revived,
                id,
            ) || (free && last.thread_id == id && last.source_kind@ == "plan_decision"@))
        }),
{
    let rest = rows.drop_last();
    let n = rows.len() - 1;
    assert forall|i: int| 0 <= i < n implies #[trigger] rest[i] == rows[i] by {}
    if waits(rest, live, revived, id) {
        let i = choose|i: int|
            0 <= i < rest.len() && (#[trigger] rest[i]).thread_id == id && !live.contains(
                (-(id as int)) as i64,
            ) && !revived.contains(id);
        assert(rows[i].thread_id == id);
    }
    if plan_waits(rest, live, revived, id) {
        let i = choose|i: int|
            0 <= i < rest.len() && (#[trigger] rest[i]).thread_id == id && rest[i].source_kind@
                == "plan_decision"@ && !live.contains((-(id as int)) as i64) && !revived.contains(
                id,
            );
        assert(rows[i].thread_id == id);
    }
    assert(rows[n] == rows.last());
    if waits(rows, live, revived, id) && rows.last().thread_id != id {
        let i = choose|i: int|
            0 <= i < rows.len() && (#[trigger] rows[i]).thread_id == id && !live.contains(
                (-(id as int)) as i64,
            ) && !revived.contains(id);
        assert(rest[i].thread_id == id);
    }
    if plan_waits(rows, live, revived, id) && !(rows.last().thread_id == id
        && rows.last().source_kind@ == "plan_decision"@) {
        let i = choose|i: int|
            0 <= i < rows.len() && (#[trigger] rows[i]).thread_id == id && rows[i].source_kind@
                == "plan_decision"@ && !live.contains((-(id as int)) as i64) && !revived.contains(
                id,
            );
        assert(rest[i].thread_id == id);
    }
}

proof fn lemma_pending(rows: Seq<PendingRow>, live: Set<i64>, revived: Set<i32>)
    ensures
        forall|id: i32|
            (exists|k: int|
                0 <= k < pending_targets(rows, live, revived).len() && (#[trigger] pending_targets(
                    rows,
                    live,
                    revived,
                )[k]).thread_id == id) == #[trigger] waits(rows, live, revived, id),
        forall|k: int|
            0 <= k < pending_targets(rows, live, revived).len() ==> (#[trigger] pending_targets(
                rows,
                live,
                revived,
            )[k]).has_plan_decision == plan_waits(
                rows,
                live,
                revived,
                pending_targets(rows, live, revived)[k].thread_id,
            ),
    decreases rows.len(),
{
    if rows.len() > 0 {
        let rest = rows.drop_last();
        let row = rows.last();
        let before = pending_targets(rest, live, revived);
        let all = pending_targets(rows, live, revived);
        lemma_pending(rest, live, revived);
        crate::revive::law_one_target_per_lead(rest, live, revived);
        lemma_place(before, row.thread_id);
        let at = crate::revive::target_place(before, row.thread_id) as int;
        let free = !live.contains((-(row.thread_id as int)) as i64) && !revived.contains(
            row.thread_id,
        );
        assert forall|id: i32|
            (exists|k: int| 0 <= k < all.len() && (#[trigger] all[k]).thread_id == id)
                == #[trigger] waits(rows, live, revived, id) by {
            lemma_waits_step(rows, live, revived, id);
            assert((exists|k: int| 0 <= k < before.len() && (#[trigger] before[k]).thread_id == id)
                == waits(rest, live, revived, id));
            if waits(rest, live, revived, id) {
                let k = choose|k: int|
                    0 <= k < before.len() && (#[trigger] before[k]).thread_id == id;
                assert(all[k].thread_id == id);
            }
            if free && row.thread_id == id {
                assert(all[at].thread_id == id);
            }
            if exists|k: int| 0 <= k < all.len() && (#[trigger] all[k]).thread_id == id {
                let k = choose|k: int| 0 <= k < all.len() && (#[trigger] all[k]).thread_id == id;
                if k < before.len() {
                    assert(before[k].thread_id == id);
                }
            }
        }
        assert forall|k: int| 0 <= k < all.len() implies (#[trigger] all[k]).has_plan_decision
            == plan_waits(rows, live, revived, all[k].thread_id) by {
            let id = all[k].thread_id;
            lemma_waits_step(rows, live, revived, id);
            if k < before.len() {
                assert(before[k].thread_id == id);
                if free && k != at && id == row.thread_id {
                    assert(at == before.len());
                }
            } else {
                if plan_waits(rest, live, revived, id) {
                    assert(waits(rest, live, revived, id)) by {
                        let i = choose|i: int|
                            0 <= i < rest.len() && (#[trigger] rest[i]).thread_id == id
                                && rest[i].source_kind@ == "plan_decision"@ && !live.contains(
                                (-(id as int)) as i64,
                            ) && !revived.contains(id);
                        assert(rest[i].thread_id == id);
                    }
                    let j = choose|j: int|
                        0 <= j < before.len() && (#[trigger] before[j]).thread_id == id;
                    assert(before[j].thread_id == id);
                }
            }
        }
    }
}

/// One more row leaves the targets in their order: it adds one at the end at most.
pub proof fn law_targets_keep_the_order_of_their_first_row(
    rows: Vec<PendingRow>,
    more: Vec<PendingRow>,
    row: PendingRow,
    live: HashSet<i64>,
    revived: HashSet<i32>,
    r: Vec<PendingLeadTarget>,
    r2: Vec<PendingLeadTarget>,
)
    requires
        more@ == rows@.push(row),
        call_ensures(collect_pending_lead_targets, (&rows, &live, &revived), r),
        call_ensures(collect_pending_lead_targets, (&more, &live, &revived), r2),
    ensures
        r@.len() <= r2@.len() <= r@.len() + 1,
        forall|k: int|
            0 <= k < r@.len() ==> (#[trigger] r@[k]).thread_id == r2@[k].thread_id,
        r2@.len() > r@.len() ==> r2@.last().thread_id == row.thread_id,
{
    assert(more@.drop_last() =~= rows@);
    lemma_place(r@, row.thread_id);
}

/// A lead with a waiting plan decision may start whatever its status; without one, a
/// stopped lead may not, and any other may.
pub proof fn law_feedback_never_wakes_a_stopped_lead(
    status: Option<&str>,
    with_plan: bool,
    without: bool,
)
    requires
        call_ensures(pending_lead_can_start, (status, true), with_plan),
        call_ensures(pending_lead_can_start, (status, false), without),
    ensures
        with_plan,
        without == !(status is Some && status->0@ == "stopped"@),
{
}

/// A permission request holds a session back exactly when it is of its thread and names
/// its direction; a lead's request may have no name.
pub proof fn law_permission_holds_its_own_session_back(
    asks: Vec<OpenAsk>,
    direction: &str,
    thread_id: i32,
    r: bool,
)
    requires
        call_ensures(has_blocking_permission, (&asks, direction, thread_id), r),
    ensures
        forall|i: int|
            0 <= i < asks@.len() && (#[trigger] asks@[i]).thread == thread_id && asks@[i].dir@
                == direction@ ==> r,
        forall|i: int|
            0 <= i < asks@.len() && (#[trigger] asks@[i]).thread == thread_id && asks@[i].dir@.len()
                == 0 && direction@ == "lead"@ ==> r,
        (forall|i: int|
            0 <= i < asks@.len() ==> (#[trigger] asks@[i]).thread != thread_id || (asks@[i].dir@
                != direction@ && (direction@ != "lead"@ || asks@[i].dir@.len() > 0))) ==> !r,
{
    assert forall|i: int|
        0 <= i < asks@.len() && (#[trigger] asks@[i]).thread == thread_id && (asks@[i].dir@
            == direction@ || (direction@ == "lead"@ && asks@[i].dir@.len() == 0)) implies r by {
        assert(asks@[i].dir@ =~= direction@ || asks@[i].dir@.len() == 0);
        assert(blocks(asks@[i], direction@, thread_id));
    }
}

} // verus!
