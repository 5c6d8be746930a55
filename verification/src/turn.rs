//! Busy/queue bookkeeping of one engine: input during a turn is queued whole and
//! delivered in order once the turn ends, never dropped, never interleaved.

use std::collections::{HashMap, VecDeque};

use vstd::prelude::*;

use crate::text::{contains, occurs};

verus! {

/// The invisible prompt a bus wake delivers: tell the agent to drain its inbox.
/// One inbox read covers any number of coalesced wakes.
pub const BUS_WAKE_PROMPT: &'static str = "You have new messages on the thread bus. Call bus_inbox to read them. After incorporating any durable human answers that carry request_id, call bus_ack with those ids.";

/// How many human messages may wait behind a running turn.
pub const MAX_QUEUED: usize = 5;

/// One outbound message: text plus optional image attachments (media type,
/// base64). Queued whole while a turn is running.
#[derive(Clone)]
pub struct Outgoing {
    pub text: String,
    pub images: Vec<(String, String)>,
    /// true = backed by a queued timeline row; false = invisible plumbing.
    pub is_tracked: bool,
    /// Opaque per-turn reply target carried onto this turn's output frames.
    pub origin_tag: Option<String>,
    /// The persisted row of a queued message; `None` = sent directly.
    pub queue_id: Option<i32>,
    /// The original send carried files or images.
    pub has_attachments: bool,
}

impl Default for Outgoing {
    fn default() -> (r: Self)
        ensures
            r.text@ == Seq::<char>::empty(),
            r.images@ == Seq::<(String, String)>::empty(),
            !r.is_tracked,
            r.origin_tag is None,
            r.queue_id is None,
            !r.has_attachments,
    {
        Outgoing {
            text: String::new(),
            images: Vec::new(),
            is_tracked: false,
            origin_tag: None,
            queue_id: None,
            has_attachments: false,
        }
    }
}

/// The message is the synthesized inbox read.
pub open spec fn is_wake(o: Outgoing) -> bool {
    &&& o.text@ == BUS_WAKE_PROMPT@
    &&& o.images@ == Seq::<(String, String)>::empty()
    &&& !o.is_tracked
    &&& o.origin_tag is None
    &&& o.queue_id is None
    &&& !o.has_attachments
}

/// What the UI shows of one waiting message.
#[derive(Clone)]
pub struct QueuedItem {
    pub id: i32,
    pub text: String,
    pub images: usize,
    pub files: usize,
    /// Disables inline edit.
    pub has_attachments: bool,
}

pub struct QueuedView {
    pub id: i32,
    pub text: Seq<char>,
    pub images: nat,
    pub files: nat,
    pub has_attachments: bool,
}

impl View for QueuedItem {
    type V = QueuedView;

    open spec fn view(&self) -> QueuedView {
        QueuedView {
            id: self.id,
            text: self.text@,
            images: self.images as nat,
            files: self.files as nat,
            has_attachments: self.has_attachments,
        }
    }
}

/// The shown form of the messages that have a row, in queue order.
pub open spec fn shown_items(q: Seq<Outgoing>) -> Seq<QueuedView>
    decreases q.len(),
{
    if q.len() == 0 {
        seq![]
    } else {
        let before = shown_items(q.drop_last());
        match q.last().queue_id {
            Some(id) => before.push(
                QueuedView {
                    id,
                    text: q.last().text@,
                    images: q.last().images@.len(),
                    files: 0,
                    has_attachments: q.last().has_attachments,
                },
            ),
            None => before,
        }
    }
}

/// The row ids of the messages that have one, in queue order.
pub open spec fn tracked_ids(q: Seq<Outgoing>) -> Seq<i32>
    decreases q.len(),
{
    if q.len() == 0 {
        seq![]
    } else {
        let before = tracked_ids(q.drop_last());
        match q.last().queue_id {
            Some(id) => before.push(id),
            None => before,
        }
    }
}

/// No row stands twice in the queue.
pub open spec fn ids_distinct(q: Seq<Outgoing>) -> bool {
    forall|i: int, j: int|
        0 <= i < j < q.len() && (#[trigger] q[i]).queue_id is Some ==> q[i].queue_id != (
        #[trigger] q[j]).queue_id
}

/// The first place of the message with row `id`.
pub open spec fn first_with_id(q: Seq<Outgoing>, id: i32, i: int) -> bool {
    &&& 0 <= i < q.len()
    &&& q[i].queue_id == Some(id)
    &&& forall|j: int| 0 <= j < i ==> (#[trigger] q[j]).queue_id != Some(id)
}

/// No message has row `id`.
pub open spec fn no_id(q: Seq<Outgoing>, id: i32) -> bool {
    forall|j: int| 0 <= j < q.len() ==> (#[trigger] q[j]).queue_id != Some(id)
}

/// Busy/queue bookkeeping for one engine.
pub struct TurnState {
    pub busy: bool,
    /// A structured provider signal of exhaustion was seen during this very turn.
    pub quota_exceeded: bool,
    pub queue: VecDeque<Outgoing>,
    /// A bus wake landed while the engine was busy: the number of messages that
    /// were queued before it. The one inbox read goes there.
    pub bus_read_pos: Option<usize>,
}

/// One pending turn.
pub enum Pending {
    Message(Outgoing),
    Wake,
}

pub open spec fn messages(q: Seq<Outgoing>) -> Seq<Pending> {
    q.map_values(|o: Outgoing| Pending::Message(o))
}

impl TurnState {
    /// What a waiting wake's position may be: a place in the queue. An idle
    /// engine has nothing waiting.
    pub open spec fn wf(self) -> bool {
        &&& self.bus_read_pos matches Some(n) ==> n <= self.queue@.len()
        &&& !self.busy ==> self.queue@.len() == 0 && self.bus_read_pos is None
    }

    /// The turns that are still to come, in order.
    pub open spec fn agenda(self) -> Seq<Pending> {
        match self.bus_read_pos {
            None => messages(self.queue@),
            Some(n) => {
                let k = if n <= self.queue@.len() {
                    n as int
                } else {
                    self.queue@.len() as int
                };
                messages(self.queue@.take(k)).push(Pending::Wake) + messages(self.queue@.skip(k))
            },
        }
    }

    /// true = the caller may start a turn now; false = it must enqueue.
    pub fn try_begin_send(&mut self) -> (r: bool)
        ensures
            send_begun(*old(self), *final(self), r),
            old(self).wf() ==> final(self).wf(),
    {
        if self.busy {
            return false;
        }
        self.busy = true;
        self.quota_exceeded = false;
        true
    }

    /// A bus wake arrived. true = the caller should start a read turn right now;
    /// false = it was coalesced into the running turn and is read at its place in
    /// the queue. The earliest wake keeps its place.
    pub fn request_bus_read(&mut self) -> (r: bool)
        ensures
            wake_requested(*old(self), *final(self), r),
            old(self).wf() ==> final(self).wf(),
    {
        if self.busy {
            if self.bus_read_pos.is_none() {
                self.bus_read_pos = Some(self.queue.len());
            }
            false
        } else {
            self.busy = true;
            self.quota_exceeded = false;
            true
        }
    }

    /// Turn finished: deliver the next thing in order. Messages queued before a
    /// coalesced wake drain first; at the wake's place one invisible inbox read
    /// is synthesized; then the rest; finally the engine goes idle. A wake is
    /// never stranded behind an empty queue.
    pub fn on_turn_end(&mut self) -> (r: Option<Outgoing>)
        ensures
            turn_ended(*old(self), *final(self), r),
            old(self).wf() ==> final(self).wf(),
    {
        self.quota_exceeded = false;
        match self.bus_read_pos {
            Some(n) => {
                if n == 0 || self.queue.len() == 0 {
                    self.bus_read_pos = None;
                    return Some(wake_message());
                }
                self.bus_read_pos = Some(n - 1);
                self.queue.pop_front()
            },
            None => {
                let next = self.queue.pop_front();
                if next.is_none() {
                    self.busy = false;
                }
                next
            },
        }
    }

    /// The turn is given up: nothing runs and nothing waits in the queue. The rows
    /// of the visible messages that waited come back.
    pub fn give_up(&mut self) -> (r: Vec<i32>)
        ensures
            given_up(*old(self), *final(self)),
            r@ == tracked_ids(old(self).queue@),
    {
        self.busy = false;
        let drained = collect_ids(&self.queue);
        self.queue.clear();
        drained
    }

    /// Remove a message that is still queued; true = it was there.
    pub fn remove(&mut self, id: i32) -> (r: bool)
        ensures
            removed(*old(self), *final(self), id, r),
            old(self).wf() ==> final(self).wf(),
    {
        let mut i: usize = 0;
        while i < self.queue.len()
            invariant
                *self == *old(self),
                i <= self.queue@.len(),
                forall|j: int| 0 <= j < i ==> (#[trigger] self.queue@[j]).queue_id != Some(id),
            decreases self.queue@.len() - i,
        {
            if self.queue[i].queue_id == Some(id) {
                assert(first_with_id(self.queue@, id, i as int));
                assert(self.queue@[i as int].queue_id == Some(id));
                self.queue.remove(i);
                match self.bus_read_pos {
                    Some(n) => {
                        if i < n {
                            self.bus_read_pos = Some(n - 1);
                        }
                    },
                    None => {},
                }
                return true;
            }
            i = i + 1;
        }
        false
    }

    /// Change the text of a message that is still queued; true = it was there.
    pub fn edit(&mut self, id: i32, text: &str) -> (r: bool)
        ensures
            text_changed(*old(self), *final(self), id, text@, r),
            old(self).wf() ==> final(self).wf(),
    {
        let mut i: usize = 0;
        while i < self.queue.len()
            invariant
                *self == *old(self),
                i <= self.queue@.len(),
                forall|j: int| 0 <= j < i ==> (#[trigger] self.queue@[j]).queue_id != Some(id),
            decreases self.queue@.len() - i,
        {
            if self.queue[i].queue_id == Some(id) {
                assert(first_with_id(self.queue@, id, i as int));
                assert(self.queue@[i as int].queue_id == Some(id));
                match self.queue.remove(i) {
                    Some(mut o) => {
                        o.text = text.to_owned();
                        self.queue.insert(i, o);
                    },
                    None => {},
                }
                return true;
            }
            i = i + 1;
        }
        false
    }

    /// Put the visible messages in the order of `order`, which must be a
    /// permutation of their rows; otherwise nothing moves. Invisible deliveries
    /// keep their places. Refused while a wake waits at a place in the queue.
    pub fn reorder(&mut self, order: &[i32]) -> (r: bool)
        ensures
            reordered(*old(self), *final(self), order@, r),
    {
        broadcast use vstd::std_specs::hash::group_hash_axioms;

        if self.bus_read_pos.is_some() {
            return false;
        }
        let ids = collect_ids(&self.queue);
        if !is_permutation(order, &ids) {
            return false;
        }
        let ghost q = self.queue@;
        let n: usize = self.queue.len();
        let mut slots: Vec<bool> = Vec::new();
        let mut by_id: HashMap<i32, Outgoing> = HashMap::new();
        let mut untracked: VecDeque<Outgoing> = VecDeque::new();
        let mut i: usize = 0;
        assert(q.take(0) =~= seq![]);
        assert(untracked@ =~= loose(q.take(0)));
        assert(by_id@ =~= by_row(q.take(0)));
        while i < n
            invariant
                i <= n,
                n == q.len(),
                self.queue@ == q.skip(i as int),
                slots@.len() == i,
                forall|j: int| 0 <= j < i ==> slots@[j] == (#[trigger] q[j]).queue_id is Some,
                by_id@ == by_row(q.take(i as int)),
                untracked@ == loose(q.take(i as int)),
                self.bus_read_pos == old(self).bus_read_pos,
                self.busy == old(self).busy,
                self.quota_exceeded == old(self).quota_exceeded,
            decreases n - i,
        {
            proof {
                assert(q.take(i + 1).drop_last() =~= q.take(i as int));
                assert(q.take(i + 1).last() == q[i as int]);
                assert(q.skip(i as int)[0] == q[i as int]);
                assert(q.skip(i as int).subrange(1, q.skip(i as int).len() as int) =~= q.skip(
                    i + 1,
                ));
            }
            match self.queue.pop_front() {
                Some(o) => match o.queue_id {
                    Some(id) => {
                        slots.push(true);
                        by_id.insert(id, o);
                    },
                    None => {
                        slots.push(false);
                        untracked.push_back(o);
                    },
                },
                None => {},
            }
            i = i + 1;
        }
        assert(q.take(n as int) =~= q);
        assert(self.queue@ =~= seq![]);
        let mut next: VecDeque<Outgoing> = VecDeque::new();
        let mut taken: usize = 0;
        i = 0;
        proof {
            assert(q.skip(0) =~= q);
            assert(order@.skip(0) =~= order@);
            assert(seq![] + rebuilt(q, order@, by_id@) =~= rebuilt(q, order@, by_id@));
        }
        while i < n
            invariant
                i <= n,
                n == q.len(),
                slots@.len() == n,
                taken <= order@.len(),
                forall|j: int| 0 <= j < n ==> slots@[j] == (#[trigger] q[j]).queue_id is Some,
                untracked@ == loose(q.skip(i as int)),
                next@ + rebuilt(q.skip(i as int), order@.skip(taken as int), by_id@) == rebuilt(
                    q,
                    order@,
                    by_row(q),
                ),
                self.bus_read_pos == old(self).bus_read_pos,
                self.busy == old(self).busy,
                self.quota_exceeded == old(self).quota_exceeded,
            decreases n - i,
        {
            broadcast use vstd::std_specs::hash::group_hash_axioms;

            let ghost rest = q.skip(i as int);
            let ghost left = order@.skip(taken as int);
            proof {
                assert(rest[0] == q[i as int]);
                assert(rest.drop_first() =~= q.skip(i + 1));
                lemma_loose_first(rest);
            }
            if slots[i] {
                if taken < order.len() {
                    let id: i32 = order[taken];
                    assert(left[0] == id);
                    assert(left.drop_first() =~= order@.skip(taken + 1));
                    taken = taken + 1;
                    let ghost before = by_id@;
                    match by_id.remove(&id) {
                        Some(o) => {
                            assert(next@ + rebuilt(rest, left, before) =~= next@.push(o) + rebuilt(
                                rest.drop_first(),
                                left.drop_first(),
                                before.remove(id),
                            ));
                            assert(by_id@ =~= before.remove(id));
                            next.push_back(o);
                        },
                        None => {
                            assert(by_id@ =~= before);
                        },
                    }
                }
            } else {
                match untracked.pop_front() {
                    Some(o) => {
                        assert(next@ + rebuilt(rest, left, by_id@) =~= next@.push(o) + rebuilt(
                            rest.drop_first(),
                            left,
                            by_id@,
                        ));
                        next.push_back(o);
                    },
                    None => {},
                }
            }
            i = i + 1;
        }
        assert(q.skip(n as int) =~= seq![]);
        assert(next@ + rebuilt(seq![], order@.skip(taken as int), by_id@) =~= next@);
        self.queue = next;
        true
    }
}

/// A send found the engine as `before` and left it as `after`; `r` = it may start
/// its turn now.
pub open spec fn send_begun(before: TurnState, after: TurnState, r: bool) -> bool {
    &&& r == !before.busy
    &&& after.busy
    &&& after.quota_exceeded == (before.busy && before.quota_exceeded)
    &&& after.queue == before.queue
    &&& after.bus_read_pos == before.bus_read_pos
}

/// A bus wake found the engine as `before` and left it as `after`; `r` = a read
/// turn may start now.
pub open spec fn wake_requested(before: TurnState, after: TurnState, r: bool) -> bool {
    &&& r == !before.busy
    &&& after.busy
    &&& after.quota_exceeded == (before.busy && before.quota_exceeded)
    &&& after.queue == before.queue
    &&& after.bus_read_pos == (if before.busy && before.bus_read_pos is None {
        Some(before.queue@.len() as usize)
    } else {
        before.bus_read_pos
    })
}

/// A turn ended: `next` is the message whose turn starts now.
pub open spec fn turn_ended(before: TurnState, after: TurnState, next: Option<Outgoing>) -> bool {
    &&& !after.quota_exceeded
    &&& match before.bus_read_pos {
        Some(n) => if n == 0 || before.queue@.len() == 0 {
            &&& next is Some
            &&& is_wake(next->0)
            &&& after.queue@ == before.queue@
            &&& after.bus_read_pos is None
            &&& after.busy == before.busy
        } else {
            &&& next == Some(before.queue@[0])
            &&& after.queue@ == before.queue@.drop_first()
            &&& after.bus_read_pos == Some((n - 1) as usize)
            &&& after.busy == before.busy
        },
        None => if before.queue@.len() == 0 {
            &&& next is None
            &&& after.queue@ == before.queue@
            &&& after.bus_read_pos is None
            &&& !after.busy
        } else {
            &&& next == Some(before.queue@[0])
            &&& after.queue@ == before.queue@.drop_first()
            &&& after.bus_read_pos is None
            &&& after.busy == before.busy
        },
    }
}

/// The turn was given up; a waiting wake still waits.
pub open spec fn given_up(before: TurnState, after: TurnState) -> bool {
    &&& !after.busy
    &&& after.queue@.len() == 0
    &&& after.quota_exceeded == before.quota_exceeded
    &&& after.bus_read_pos == before.bus_read_pos
}

/// Where a waiting wake stands after the message at place `i` left the queue.
pub open spec fn wake_after_removal(pos: Option<usize>, i: int) -> Option<usize> {
    match pos {
        Some(n) => if i < n {
            Some((n - 1) as usize)
        } else {
            Some(n)
        },
        None => None,
    }
}

/// The message with row `id` left the queue; `r` = there was one.
pub open spec fn removed(before: TurnState, after: TurnState, id: i32, r: bool) -> bool {
    &&& r == !no_id(before.queue@, id)
    &&& !r ==> after == before
    &&& r ==> exists|i: int| #[trigger]
        first_with_id(before.queue@, id, i) && after.queue@ == before.queue@.remove(i)
            && after.bus_read_pos == wake_after_removal(before.bus_read_pos, i)
    &&& after.busy == before.busy
    &&& after.quota_exceeded == before.quota_exceeded
}

/// The message with row `id` has a new text; `r` = there was one.
pub open spec fn text_changed(
    before: TurnState,
    after: TurnState,
    id: i32,
    text: Seq<char>,
    r: bool,
) -> bool {
    &&& r == !no_id(before.queue@, id)
    &&& !r ==> after == before
    &&& r ==> exists|i: int| #[trigger]
        first_with_id(before.queue@, id, i) && after.queue@.len() == before.queue@.len() && edited(
            before.queue@[i],
            after.queue@[i],
            text,
        ) && after.queue@ =~= before.queue@.update(i, after.queue@[i])
    &&& after.bus_read_pos == before.bus_read_pos
    &&& after.busy == before.busy
    &&& after.quota_exceeded == before.quota_exceeded
}

/// The visible messages took the order of `order`; `r` = it was accepted.
pub open spec fn reordered(before: TurnState, after: TurnState, order: Seq<i32>, r: bool) -> bool {
    &&& r == (before.bus_read_pos is None && order.to_multiset() == tracked_ids(
        before.queue@,
    ).to_multiset())
    &&& !r ==> after == before
    &&& r ==> after.queue@ == rebuilt(before.queue@, order, by_row(before.queue@))
    &&& after.bus_read_pos == before.bus_read_pos
    &&& after.busy == before.busy
    &&& after.quota_exceeded == before.quota_exceeded
}

/// The message after its text was changed.
pub open spec fn edited(before: Outgoing, after: Outgoing, text: Seq<char>) -> bool {
    &&& after.text@ == text
    &&& after.images == before.images
    &&& after.is_tracked == before.is_tracked
    &&& after.origin_tag == before.origin_tag
    &&& after.queue_id == before.queue_id
    &&& after.has_attachments == before.has_attachments
}

/// The visible messages by row.
pub open spec fn by_row(q: Seq<Outgoing>) -> Map<i32, Outgoing>
    decreases q.len(),
{
    if q.len() == 0 {
        map![]
    } else {
        match q.last().queue_id {
            Some(id) => by_row(q.drop_last()).insert(id, q.last()),
            None => by_row(q.drop_last()),
        }
    }
}

/// The invisible deliveries, in order.
pub open spec fn loose(q: Seq<Outgoing>) -> Seq<Outgoing>
    decreases q.len(),
{
    if q.len() == 0 {
        seq![]
    } else {
        match q.last().queue_id {
            Some(_) => loose(q.drop_last()),
            None => loose(q.drop_last()).push(q.last()),
        }
    }
}

/// The queue `q` with each visible place filled by the message of the next row of
/// `order`, and the invisible deliveries where they were.
pub open spec fn rebuilt(q: Seq<Outgoing>, order: Seq<i32>, rows: Map<i32, Outgoing>) -> Seq<
    Outgoing,
>
    decreases q.len(),
{
    if q.len() == 0 {
        seq![]
    } else if q[0].queue_id is None {
        seq![q[0]] + rebuilt(q.drop_first(), order, rows)
    } else if order.len() == 0 {
        rebuilt(q.drop_first(), order, rows)
    } else if rows.dom().contains(order[0]) {
        seq![rows[order[0]]] + rebuilt(q.drop_first(), order.drop_first(), rows.remove(order[0]))
    } else {
        rebuilt(q.drop_first(), order.drop_first(), rows)
    }
}

pub proof fn lemma_loose_first(q: Seq<Outgoing>)
    requires
        q.len() > 0,
    ensures
        q[0].queue_id is Some ==> loose(q) == loose(q.drop_first()),
        q[0].queue_id is None ==> loose(q).len() > 0 && loose(q)[0] == q[0] && loose(q).subrange(
            1,
            loose(q).len() as int,
        ) == loose(q.drop_first()),
    decreases q.len(),
{
    if q.len() == 1 {
        assert(q.drop_last() =~= seq![]);
        assert(q.drop_first() =~= seq![]);
    } else {
        lemma_loose_first(q.drop_last());
        assert(q.drop_last().drop_first() =~= q.drop_first().drop_last());
        assert(q.drop_first().last() == q.last());
        assert(q.drop_last()[0] == q[0]);
    }
}

fn wake_message() -> (r: Outgoing)
    ensures
        is_wake(r),
{
    Outgoing {
        text: BUS_WAKE_PROMPT.to_owned(),
        images: Vec::new(),
        is_tracked: false,
        origin_tag: None,
        queue_id: None,
        has_attachments: false,
    }
}

/// The rows of the queued messages that have one.
pub fn collect_ids(queue: &VecDeque<Outgoing>) -> (r: Vec<i32>)
    ensures
        r@ == tracked_ids(queue@),
{
    let mut out: Vec<i32> = Vec::new();
    let mut i: usize = 0;
    while i < queue.len()
        invariant
            i <= queue@.len(),
            out@ == tracked_ids(queue@.take(i as int)),
        decreases queue@.len() - i,
    {
        assert(queue@.take(i + 1).drop_last() =~= queue@.take(i as int));
        match queue[i].queue_id {
            Some(id) => out.push(id),
            None => {},
        }
        i = i + 1;
    }
    assert(queue@.take(queue@.len() as int) =~= queue@);
    out
}

/// The two lists hold the same ids, each as often.
fn is_permutation(order: &[i32], ids: &Vec<i32>) -> (r: bool)
    ensures
        r == (order@.to_multiset() == ids@.to_multiset()),
{
    broadcast use vstd::seq_lib::group_to_multiset_ensures;

    if order.len() != ids.len() {
        assert(order@.to_multiset().len() == order@.len());
        assert(ids@.to_multiset().len() == ids@.len());
        return false;
    }
    let mut pool: Vec<i32> = Vec::new();
    let mut c: usize = 0;
    while c < ids.len()
        invariant
            c <= ids.len(),
            pool@ == ids@.take(c as int),
        decreases ids.len() - c,
    {
        pool.push(ids[c]);
        c = c + 1;
        assert(pool@ =~= ids@.take(c as int));
    }
    assert(pool@ =~= ids@);
    let mut i: usize = 0;
    assert(order@.take(0) =~= seq![]);
    assert(pool@.to_multiset().add(order@.take(0).to_multiset()) =~= ids@.to_multiset());
    while i < order.len()
        invariant
            i <= order@.len(),
            order@.len() == ids@.len(),
            pool@.len() == ids@.len() - i,
            pool@.to_multiset().add(order@.take(i as int).to_multiset()) == ids@.to_multiset(),
        decreases order@.len() - i,
    {
        broadcast use vstd::seq_lib::group_to_multiset_ensures;

        let x: i32 = order[i];
        let mut k: usize = 0;
        while k < pool.len() && pool[k] != x
            invariant
                k <= pool@.len(),
                forall|j: int| 0 <= j < k ==> pool@[j] != x,
            decreases pool@.len() - k,
        {
            k = k + 1;
        }
        assert(order@.take(i + 1) =~= order@.take(i as int).push(x));
        if k == pool.len() {
            proof {
                assert(!pool@.contains(x));
                assert(pool@.to_multiset().count(x) == 0);
                lemma_count_take(order@, i + 1, x);
                assert(order@.take(i + 1).to_multiset().count(x) == order@.take(
                    i as int,
                ).to_multiset().count(x) + 1);
                assert(ids@.to_multiset().count(x) == order@.take(i as int).to_multiset().count(
                    x,
                ));
            }
            return false;
        }
        let ghost before = pool@;
        pool.remove(k);
        proof {
            assert(before[k as int] == x);
            assert(before.contains(x));
            assert(pool@.to_multiset() =~= before.to_multiset().remove(x));
            assert(pool@.to_multiset().add(order@.take(i + 1).to_multiset())
                =~= before.to_multiset().add(order@.take(i as int).to_multiset()));
        }
        i = i + 1;
    }
    assert(order@.take(order@.len() as int) =~= order@);
    assert(pool@ =~= seq![]);
    assert(pool@.to_multiset().add(order@.to_multiset()) =~= order@.to_multiset());
    true
}

proof fn lemma_count_take(s: Seq<i32>, n: int, x: i32)
    requires
        0 <= n <= s.len(),
    ensures
        s.take(n).to_multiset().count(x) <= s.to_multiset().count(x),
    decreases s.len() - n,
{
    broadcast use vstd::seq_lib::group_to_multiset_ensures;

    if n == s.len() {
        assert(s.take(n) =~= s);
    } else {
        lemma_count_take(s, n + 1, x);
        assert(s.take(n + 1) =~= s.take(n).push(s[n]));
    }
}

/// The messages that the UI lists as waiting.
pub fn queue_items(turn: &TurnState) -> (r: Vec<QueuedItem>)
    ensures
        r@.map_values(|x: QueuedItem| x@) == shown_items(turn.queue@),
{
    let mut out: Vec<QueuedItem> = Vec::new();
    let mut i: usize = 0;
    assert(out@.map_values(|x: QueuedItem| x@) =~= shown_items(turn.queue@.take(0)));
    while i < turn.queue.len()
        invariant
            i <= turn.queue@.len(),
            out@.map_values(|x: QueuedItem| x@) == shown_items(turn.queue@.take(i as int)),
        decreases turn.queue@.len() - i,
    {
        assert(turn.queue@.take(i + 1).drop_last() =~= turn.queue@.take(i as int));
        let o = &turn.queue[i];
        match o.queue_id {
            Some(id) => {
                let item = QueuedItem {
                    id,
                    text: o.text.clone(),
                    images: o.images.len(),
                    files: 0,
                    has_attachments: o.has_attachments,
                };
                assert(out@.push(item).map_values(|x: QueuedItem| x@) =~= out@.map_values(
                    |x: QueuedItem| x@,
                ).push(item@));
                out.push(item);
            },
            None => {},
        }
        i = i + 1;
    }
    assert(turn.queue@.take(turn.queue@.len() as int) =~= turn.queue@);
    out
}

/// How many visible messages are queued: what the cap counts.
pub fn visible_queued(turn: &TurnState) -> (r: usize)
    ensures
        r == tracked_ids(turn.queue@).len(),
{
    let mut n: usize = 0;
    let mut i: usize = 0;
    while i < turn.queue.len()
        invariant
            i <= turn.queue@.len(),
            n <= i,
            n == tracked_ids(turn.queue@.take(i as int)).len(),
        decreases turn.queue@.len() - i,
    {
        assert(turn.queue@.take(i + 1).drop_last() =~= turn.queue@.take(i as int));
        if turn.queue[i].queue_id.is_some() {
            n = n + 1;
        }
        i = i + 1;
    }
    assert(turn.queue@.take(turn.queue@.len() as int) =~= turn.queue@);
    n
}

/// Nothing runs and nothing waits.
pub open spec fn turn_idle(turn: TurnState) -> bool {
    !turn.busy && turn.queue@.len() == 0 && turn.bus_read_pos is None
}

/// A plan may be approved only at a completely idle turn boundary.
pub fn plan_approval_turn_idle(turn: &TurnState) -> (r: bool)
    ensures
        r == turn_idle(*turn),
{
    !turn.busy && turn.queue.len() == 0 && turn.bus_read_pos.is_none()
}

impl Default for TurnState {
    fn default() -> (r: Self)
        ensures
            turn_idle(r),
            !r.quota_exceeded,
            r.wf(),
    {
        TurnState { busy: false, quota_exceeded: false, queue: VecDeque::new(), bus_read_pos: None }
    }
}

/// A queued message carries an edit of the test cases by the user.
pub open spec fn holds_test_update(q: Seq<Outgoing>) -> bool {
    exists|i: int|
        0 <= i < q.len() && occurs((#[trigger] q[i]).text@, "<weft:test_cases_updated>"@)
}

/// A queued, undelivered user edit of the test cases makes any in-flight emit of
/// them stale.
pub fn has_pending_user_test_update(turn: &TurnState) -> (r: bool)
    ensures
        r == holds_test_update(turn.queue@),
{
    let mut i: usize = 0;
    while i < turn.queue.len()
        invariant
            i <= turn.queue@.len(),
            forall|j: int|
                0 <= j < i ==> !occurs(
                    (#[trigger] turn.queue@[j]).text@,
                    "<weft:test_cases_updated>"@,
                ),
        decreases turn.queue@.len() - i,
    {
        if contains(turn.queue[i].text.as_str(), "<weft:test_cases_updated>") {
            assert(occurs(turn.queue@[i as int].text@, "<weft:test_cases_updated>"@));
            return true;
        }
        i = i + 1;
    }
    false
}

/// Failover is permitted only at an idle failed-turn boundary: when something
/// already owns the next turn, the engine is left alone.
pub fn should_attempt_quota_failover(
    status: &str,
    structured_exceeded: bool,
    still_busy: bool,
) -> (r: bool)
    ensures
        r == (status@ == "error"@ && structured_exceeded && !still_busy),
{
    crate::text::same(status, "error") && structured_exceeded && !still_busy
}

} // verus!
