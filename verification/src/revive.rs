//! Recovery after a restart: which sessions go on, and who may wake whom. What was
//! persisted as running, and hidden rows that wait, are the only signals; nothing
//! is inferred from time.

use std::collections::HashSet;

use vstd::prelude::*;

use crate::delivery::surface_key;
use crate::engine::EngineInner;
use crate::text::{opt_is, opt_ref, same};

verus! {

broadcast use vstd::std_specs::hash::group_hash_axioms;

/// What a session that goes on is told.
pub const REVIVE_PROMPT: &'static str =
    "Your previous run was interrupted before it finished. Continue from where you left off.";

/// How many sessions are revived at a time.
pub const MAX_CONCURRENT: usize = 4;

/// A worker to be revived.
#[derive(Debug, Clone, Copy, PartialEq, Eq, Structural)]
pub struct WorkerTarget {
    pub direction_id: i32,
    pub repo_id: i32,
    pub thread_id: i32,
    pub session_id: i32,
}

/// A lead with hidden rows that wait.
#[derive(Debug, Clone, Copy, PartialEq, Eq, Structural)]
pub struct PendingLeadTarget {
    pub thread_id: i32,
    pub has_plan_decision: bool,
}

/// The latest session of a direction, as it was persisted.
pub struct StoredSession {
    pub id: i32,
    pub repo_id: i32,
    pub has_native: bool,
    pub status: String,
}

/// A direction, as it was persisted.
pub struct StoredDirection {
    pub id: i32,
    pub status: String,
    pub session: Option<StoredSession>,
}

/// A thread, as it was persisted.
pub struct StoredThread {
    pub id: i32,
    pub lead_has_native: bool,
    pub lead_status: Option<String>,
    pub directions: Vec<StoredDirection>,
}

/// The lead of this thread was cut off by the restart.
pub open spec fn lead_revives(t: StoredThread, live: Set<i64>) -> bool {
    &&& !live.contains((-(t.id as int)) as i64)
    &&& t.lead_has_native
    &&& crate::text::opt_view(t.lead_status) == Some("running"@)
}

/// The leads to be revived, in order.
pub open spec fn revived_leads(threads: Seq<StoredThread>, live: Set<i64>) -> Seq<i32>
    decreases threads.len(),
{
    if threads.len() == 0 {
        seq![]
    } else {
        let before = revived_leads(threads.drop_last(), live);
        if lead_revives(threads.last(), live) {
            before.push(threads.last().id)
        } else {
            before
        }
    }
}

/// The worker of this direction, if the restart cut it off.
pub open spec fn worker_revives(thread_id: i32, d: StoredDirection, live: Set<i64>) -> Option<
    WorkerTarget,
> {
    match d.session {
        Some(s) => if d.status@ != "done"@ && s.has_native && s.status@ == "running"@
            && !live.contains(s.id as i64) {
            Some(
                WorkerTarget { direction_id: d.id, repo_id: s.repo_id, thread_id, session_id: s.id },
            )
        } else {
            None
        },
        None => None,
    }
}

/// The workers of a thread to be revived, in order.
pub open spec fn thread_workers(
    thread_id: i32,
    directions: Seq<StoredDirection>,
    live: Set<i64>,
) -> Seq<WorkerTarget>
    decreases directions.len(),
{
    if directions.len() == 0 {
        seq![]
    } else {
        let before = thread_workers(thread_id, directions.drop_last(), live);
        match worker_revives(thread_id, directions.last(), live) {
            Some(w) => before.push(w),
            None => before,
        }
    }
}

/// All workers to be revived, in order.
pub open spec fn revived_workers(threads: Seq<StoredThread>, live: Set<i64>) -> Seq<WorkerTarget>
    decreases threads.len(),
{
    if threads.len() == 0 {
        seq![]
    } else {
        revived_workers(threads.drop_last(), live) + thread_workers(
            threads.last().id,
            threads.last().directions@,
            live,
        )
    }
}

fn lead_is_cut_off(t: &StoredThread, live: &HashSet<i64>) -> (r: bool)
    ensures
        r == lead_revives(*t, live@),
{
    let key: i64 = surface_key(t.id, None);
    !live.contains(&key) && t.lead_has_native && opt_is(opt_ref(&t.lead_status), "running")
}

fn cut_off_worker(thread_id: i32, d: &StoredDirection, live: &HashSet<i64>) -> (r: Option<
    WorkerTarget,
>)
    ensures
        r == worker_revives(thread_id, *d, live@),
{
    if same(d.status.as_str(), "done") {
        return None;
    }
    match &d.session {
        Some(s) => {
            if !s.has_native || !same(s.status.as_str(), "running") {
                return None;
            }
            let key: i64 = s.id as i64;
            if live.contains(&key) {
                return None;
            }
            Some(
                WorkerTarget { direction_id: d.id, repo_id: s.repo_id, thread_id, session_id: s.id },
            )
        },
        None => None,
    }
}

fn add_workers(t: &StoredThread, live: &HashSet<i64>, out: &mut Vec<WorkerTarget>)
    ensures
        final(out)@ == old(out)@ + thread_workers(t.id, t.directions@, live@),
{
    let ghost before = out@;
    let mut i: usize = 0;
    assert(before + thread_workers(t.id, t.directions@.take(0), live@) =~= before);
    while i < t.directions.len()
        invariant
            i <= t.directions@.len(),
            out@ == before + thread_workers(t.id, t.directions@.take(i as int), live@),
        decreases t.directions@.len() - i,
    {
        proof {
            assert(t.directions@.take(i + 1).drop_last() =~= t.directions@.take(i as int));
            assert(t.directions@.take(i + 1).last() == t.directions@[i as int]);
        }
        match cut_off_worker(t.id, &t.directions[i], live) {
            Some(w) => {
                assert((before + thread_workers(
                    t.id,
                    t.directions@.take(i as int),
                    live@,
                )).push(w) =~= before + thread_workers(
                    t.id,
                    t.directions@.take(i as int),
                    live@,
                ).push(w));
                out.push(w);
            },
            None => {},
        }
        i = i + 1;
    }
    assert(t.directions@.take(t.directions@.len() as int) =~= t.directions@);
}

/// Select the sessions that the restart cut off: persisted as running, with a native
/// session to resume, and not live already. Everything else stays as it is.
pub fn collect_targets(threads: &Vec<StoredThread>, live: &HashSet<i64>) -> (r: (
    Vec<i32>,
    Vec<WorkerTarget>,
))
    ensures
        r.0@ == revived_leads(threads@, live@),
        r.1@ == revived_workers(threads@, live@),
{
    let mut leads: Vec<i32> = Vec::new();
    let mut workers: Vec<WorkerTarget> = Vec::new();
    let mut i: usize = 0;
    while i < threads.len()
        invariant
            i <= threads@.len(),
            leads@ == revived_leads(threads@.take(i as int), live@),
            workers@ == revived_workers(threads@.take(i as int), live@),
        decreases threads@.len() - i,
    {
        proof {
            assert(threads@.take(i + 1).drop_last() =~= threads@.take(i as int));
            assert(threads@.take(i + 1).last() == threads@[i as int]);
        }
        if lead_is_cut_off(&threads[i], live) {
            leads.push(threads[i].id);
        }
        add_workers(&threads[i], live, &mut workers);
        i = i + 1;
    }
    assert(threads@.take(threads@.len() as int) =~= threads@);
    (leads, workers)
}

/// A hidden row that waits, as it was persisted.
pub struct PendingRow {
    pub thread_id: i32,
    pub source_kind: String,
}

/// The row's lead is not taken care of otherwise: a live engine, or one that is
/// revived anyway, picks the row up by itself.
pub open spec fn unattended(row: PendingRow, live: Set<i64>, revived: Set<i32>) -> bool {
    !live.contains((-(row.thread_id as int)) as i64) && !revived.contains(row.thread_id)
}

/// The place of a thread among the targets (their number when it is not there).
pub open spec fn target_place(targets: Seq<PendingLeadTarget>, thread_id: i32) -> nat
    decreases targets.len(),
{
    if targets.len() == 0 || targets[0].thread_id == thread_id {
        0
    } else {
        1 + target_place(targets.drop_first(), thread_id)
    }
}

/// The targets after one more row.
pub open spec fn with_row(targets: Seq<PendingLeadTarget>, row: PendingRow) -> Seq<
    PendingLeadTarget,
> {
    let i = target_place(targets, row.thread_id) as int;
    let plan = row.source_kind@ == "plan_decision"@;
    if i < targets.len() {
        targets.update(
            i,
            PendingLeadTarget {
                thread_id: row.thread_id,
                has_plan_decision: targets[i].has_plan_decision || plan,
            },
        )
    } else {
        targets.push(PendingLeadTarget { thread_id: row.thread_id, has_plan_decision: plan })
    }
}

/// The leads whose hidden rows wait, in the order of their first row.
pub open spec fn pending_targets(
    rows: Seq<PendingRow>,
    live: Set<i64>,
    revived: Set<i32>,
) -> Seq<PendingLeadTarget>
    decreases rows.len(),
{
    if rows.len() == 0 {
        seq![]
    } else {
        let before = pending_targets(rows.drop_last(), live, revived);
        if unattended(rows.last(), live, revived) {
            with_row(before, rows.last())
        } else {
            before
        }
    }
}

fn find_target(targets: &Vec<PendingLeadTarget>, thread_id: i32) -> (r: usize)
    ensures
        r == target_place(targets@, thread_id),
        r <= targets@.len(),
        r < targets@.len() ==> targets@[r as int].thread_id == thread_id,
{
    let mut i: usize = 0;
    assert(targets@.skip(0) =~= targets@);
    while i < targets.len() && targets[i].thread_id != thread_id
        invariant
            i <= targets@.len(),
            target_place(targets@, thread_id) == i + target_place(
                targets@.skip(i as int),
                thread_id,
            ),
        decreases targets@.len() - i,
    {
        proof {
            assert(targets@.skip(i as int)[0] == targets@[i as int]);
            assert(targets@.skip(i as int).drop_first() =~= targets@.skip(i + 1));
        }
        i = i + 1;
    }
    proof {
        if i < targets@.len() {
            assert(targets@.skip(i as int)[0] == targets@[i as int]);
        }
    }
    i
}

/// Select the leads whose hidden rows wait, one target for each lead.
pub fn collect_pending_lead_targets(
    rows: &Vec<PendingRow>,
    live: &HashSet<i64>,
    revived: &HashSet<i32>,
) -> (r: Vec<PendingLeadTarget>)
    ensures
        r@ == pending_targets(rows@, live@, revived@),
{
    let mut out: Vec<PendingLeadTarget> = Vec::new();
    let mut i: usize = 0;
    while i < rows.len()
        invariant
            i <= rows@.len(),
            out@ == pending_targets(rows@.take(i as int), live@, revived@),
        decreases rows@.len() - i,
    {
        proof {
            assert(rows@.take(i + 1).drop_last() =~= rows@.take(i as int));
            assert(rows@.take(i + 1).last() == rows@[i as int]);
        }
        let row = &rows[i];
        let key: i64 = surface_key(row.thread_id, None);
        if !live.contains(&key) && !revived.contains(&row.thread_id) {
            let plan = same(row.source_kind.as_str(), "plan_decision");
            let at: usize = find_target(&out, row.thread_id);
            if at < out.len() {
                let had = out[at].has_plan_decision;
                out.set(
                    at,
                    PendingLeadTarget {
                        thread_id: row.thread_id,
                        has_plan_decision: had || plan,
                    },
                );
            } else {
                out.push(
                    PendingLeadTarget { thread_id: row.thread_id, has_plan_decision: plan },
                );
            }
        }
        i = i + 1;
    }
    assert(rows@.take(rows@.len() as int) =~= rows@);
    out
}

/// Whether a lead with waiting rows may be started. A plan decision is the human's
/// word; feedback alone never wakes a stopped lead.
pub fn pending_lead_can_start(status: Option<&str>, has_plan_decision: bool) -> (r: bool)
    ensures
        r == (has_plan_decision || crate::text::opt_str_view(status) != Some("stopped"@)),
{
    has_plan_decision || !opt_is(status, "stopped")
}

/// A permission request that waits for an answer.
pub struct OpenAsk {
    pub thread: i32,
    pub dir: String,
}

/// The request belongs to this direction of this thread. A lead's may be unlabelled.
pub open spec fn blocks(ask: OpenAsk, direction: Seq<char>, thread_id: i32) -> bool {
    ask.thread == thread_id && (ask.dir@ == direction || (direction == "lead"@ && ask.dir@.len()
        == 0))
}

/// One of the requests does.
pub open spec fn held_back(asks: Seq<OpenAsk>, direction: Seq<char>, thread_id: i32) -> bool {
    exists|i: int| 0 <= i < asks.len() && blocks(#[trigger] asks[i], direction, thread_id)
}

/// Whether a permission request keeps a session from being told to go on.
pub fn has_blocking_permission(asks: &Vec<OpenAsk>, direction: &str, thread_id: i32) -> (r: bool)
    ensures
        r == exists|i: int|
            0 <= i < asks@.len() && blocks(#[trigger] asks@[i], direction@, thread_id),
        r == held_back(asks@, direction@, thread_id),
{
    let mut i: usize = 0;
    while i < asks.len()
        invariant
            i <= asks@.len(),
            forall|j: int| 0 <= j < i ==> !blocks(#[trigger] asks@[j], direction@, thread_id),
        decreases asks@.len() - i,
    {
        let a = &asks[i];
        if a.thread == thread_id && (same(a.dir.as_str(), direction) || (same(direction, "lead")
            && a.dir.as_str().is_empty())) {
            assert(blocks(asks@[i as int], direction@, thread_id));
            return true;
        }
        i = i + 1;
    }
    false
}

/// Whether a revived engine is told to go on: not if it has started a turn already.
pub fn nudge_engine_if_idle(inner: &EngineInner) -> (r: bool)
    ensures
        r == !inner.turn.busy,
{
    !inner.turn.busy
}

proof fn lemma_target_place(targets: Seq<PendingLeadTarget>, thread_id: i32)
    ensures
        target_place(targets, thread_id) <= targets.len(),
        target_place(targets, thread_id) < targets.len() ==> targets[target_place(
            targets,
            thread_id,
        ) as int].thread_id == thread_id,
        target_place(targets, thread_id) == targets.len() ==> forall|i: int|
            0 <= i < targets.len() ==> (#[trigger] targets[i]).thread_id != thread_id,
    decreases targets.len(),
{
    if targets.len() > 0 && targets[0].thread_id != thread_id {
        let rest = targets.drop_first();
        lemma_target_place(rest, thread_id);
        if target_place(targets, thread_id) == targets.len() {
            assert forall|i: int| 0 <= i < targets.len() implies (
            #[trigger] targets[i]).thread_id != thread_id by {
                if i > 0 {
                    assert(rest[i - 1] == targets[i]);
                }
            }
        }
    }
}

/// No lead is started twice for its waiting rows.
pub proof fn law_one_target_per_lead(rows: Seq<PendingRow>, live: Set<i64>, revived: Set<i32>)
    ensures
        forall|i: int, j: int|
            0 <= i < j < pending_targets(rows, live, revived).len() ==> (
            #[trigger] pending_targets(rows, live, revived)[i]).thread_id != (
            #[trigger] pending_targets(rows, live, revived)[j]).thread_id,
    decreases rows.len(),
{
    if rows.len() > 0 {
        law_one_target_per_lead(rows.drop_last(), live, revived);
        let before = pending_targets(rows.drop_last(), live, revived);
        lemma_target_place(before, rows.last().thread_id);
    }
}

/// A lead that is live, or is revived anyway, is no target.
pub proof fn law_attended_leads_are_left_alone(
    rows: Seq<PendingRow>,
    live: Set<i64>,
    revived: Set<i32>,
)
    ensures
        forall|i: int|
            0 <= i < pending_targets(rows, live, revived).len() ==> !revived.contains(
                (#[trigger] pending_targets(rows, live, revived)[i]).thread_id,
            ) && !live.contains(
                (-(pending_targets(rows, live, revived)[i].thread_id as int)) as i64,
            ),
    decreases rows.len(),
{
    if rows.len() > 0 {
        law_attended_leads_are_left_alone(rows.drop_last(), live, revived);
        let before = pending_targets(rows.drop_last(), live, revived);
        lemma_target_place(before, rows.last().thread_id);
    }
}

/// Only what was persisted as running is revived, and nothing that is live.
pub proof fn law_only_the_running_revive(
    thread_id: i32,
    directions: Seq<StoredDirection>,
    live: Set<i64>,
)
    requires
        forall|i: int|
            0 <= i < directions.len() ==> ((#[trigger] directions[i]).session is None
                || directions[i].session->0.status@ != "running"@ || live.contains(
                directions[i].session->0.id as i64,
            )),
    ensures
        thread_workers(thread_id, directions, live).len() == 0,
    decreases directions.len(),
{
    if directions.len() > 0 {
        assert forall|i: int| 0 <= i < directions.drop_last().len() implies (
        #[trigger] directions.drop_last()[i]).session is None
            || directions.drop_last()[i].session->0.status@ != "running"@ || live.contains(
            directions.drop_last()[i].session->0.id as i64,
        ) by {
            assert(directions.drop_last()[i] == directions[i]);
        }
        law_only_the_running_revive(thread_id, directions.drop_last(), live);
        assert(directions[directions.len() - 1] == directions.last());
    }
}

} // verus!
