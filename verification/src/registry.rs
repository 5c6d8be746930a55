//! The tables that outlive a single engine: which engine serves a timeline, which
//! hidden receipts are in flight, and which approval cards are open.

use vstd::prelude::*;

use crate::engine::EngineInner;

verus! {

/// The ids of hidden deliveries whose first activity has been observed and whose
/// durable consume transaction is still in flight. The table belongs to the
/// timeline, not to one engine: a reset or a replacement of the engine leaves it
/// alone.
pub struct ReceiptRegistry {
    ids: dashmap::DashSet<i32>,
}

impl View for ReceiptRegistry {
    type V = Set<i32>;

    closed spec fn view(&self) -> Set<i32> {
        held_ids(self.ids)
    }
}

impl ReceiptRegistry {
    pub fn new() -> (r: Self)
        ensures
            r@ == Set::<i32>::empty(),
    {
        ReceiptRegistry { ids: ids_new() }
    }

    /// Enter the id; false = it was already there.
    pub fn insert(&mut self, id: i32) -> (r: bool)
        ensures
            final(self)@ == old(self)@.insert(id),
            r == !old(self)@.contains(id),
    {
        ids_insert(&mut self.ids, id)
    }

    /// Take the id out; true = it was there.
    pub fn remove(&mut self, id: i32) -> (r: bool)
        ensures
            final(self)@ == old(self)@.remove(id),
            r == old(self)@.contains(id),
    {
        ids_remove(&mut self.ids, id)
    }

    pub fn contains(&self, id: i32) -> (r: bool)
        ensures
            r == self@.contains(id),
    {
        ids_contains(&self.ids, id)
    }
}

/// All live chat engines, keyed by the negated thread id (lead) or the session id
/// (worker). An engine is known here by its handle.
pub struct LeadChatState {
    engines: dashmap::DashMap<i64, u64>,
}

impl View for LeadChatState {
    type V = Map<i64, u64>;

    closed spec fn view(&self) -> Map<i64, u64> {
        held_engines(self.engines)
    }
}

impl LeadChatState {
    pub fn new() -> (r: Self)
        ensures
            r@ == Map::<i64, u64>::empty(),
    {
        LeadChatState { engines: engines_new() }
    }

    pub fn get(&self, key: i64) -> (r: Option<u64>)
        ensures
            r == (if self@.dom().contains(key) {
                Some(self@[key])
            } else {
                None
            }),
    {
        engines_get(&self.engines, key)
    }

    pub fn remove(&mut self, key: i64) -> (r: Option<u64>)
        ensures
            final(self)@ == old(self)@.remove(key),
            r == (if old(self)@.dom().contains(key) {
                Some(old(self)@[key])
            } else {
                None
            }),
    {
        engines_remove(&mut self.engines, key)
    }

    /// Get or insert: two constructors of the same timeline converge on one
    /// engine, the first to come.
    pub fn get_or_insert(&mut self, key: i64, engine: u64) -> (r: u64)
        ensures
            r == (if old(self)@.dom().contains(key) {
                old(self)@[key]
            } else {
                engine
            }),
            final(self)@ == old(self)@.insert(key, r),
    {
        let r: u64 = match engines_get(&self.engines, key) {
            Some(e) => e,
            None => {
                engines_insert(&mut self.engines, key, engine);
                engine
            },
        };
        assert(self@ =~= old(self)@.insert(key, r));
        r
    }

    /// Whether a cached worker owns an active turn. `engine` is its state, or `None`
    /// while somebody is at work on it: then it counts as running, so that no route
    /// changes under a turn that is just starting.
    pub fn worker_is_running(&self, session_id: i32, engine: Option<&EngineInner>) -> (r: bool)
        ensures
            r == (self@.dom().contains(session_id as i64) && (match engine {
                Some(e) => !e.stopped && e.turn.busy,
                None => true,
            })),
    {
        if self.get(session_id as i64).is_none() {
            return false;
        }
        match engine {
            Some(e) => !e.stopped && e.turn.busy,
            None => true,
        }
    }

    /// Remove an engine only when it is still the expected one: a failed first
    /// open must not tear down a newer engine that won the race.
    pub fn remove_if_same(&mut self, key: i64, expected: u64) -> (r: Option<u64>)
        ensures
            r == (if old(self)@.dom().contains(key) && old(self)@[key] == expected {
                Some(expected)
            } else {
                None
            }),
            final(self)@ == (if r is Some {
                old(self)@.remove(key)
            } else {
                old(self)@
            }),
    {
        match engines_get(&self.engines, key) {
            Some(e) => if e == expected {
                engines_remove(&mut self.engines, key)
            } else {
                None
            },
            None => None,
        }
    }
}

/// The open approval cards of one connection: the server's request id to the ask
/// id of its card.
pub struct PendingAsks {
    asks: crossbeam_skiplist::SkipMap<String, u64>,
}

impl View for PendingAsks {
    type V = Map<Seq<char>, u64>;

    closed spec fn view(&self) -> Map<Seq<char>, u64> {
        held_asks(self.asks)
    }
}

impl PendingAsks {
    pub fn new() -> (r: Self)
        ensures
            r@ == Map::<Seq<char>, u64>::empty(),
    {
        PendingAsks { asks: asks_new() }
    }

    /// A card was opened for the request.
    pub fn insert(&mut self, request: String, ask: u64)
        ensures
            final(self)@ == old(self)@.insert(request@, ask),
    {
        asks_insert(&mut self.asks, request, ask)
    }

    /// The request was answered or withdrawn: its card, if it is still open.
    pub fn remove(&mut self, request: &str) -> (r: Option<u64>)
        ensures
            final(self)@ == old(self)@.remove(request@),
            r == (if old(self)@.dom().contains(request@) {
                Some(old(self)@[request@])
            } else {
                None
            }),
    {
        asks_remove(&mut self.asks, request)
    }
}

/// `dashmap::DashSet`.
#[verifier::external_type_specification]
#[verifier::external_body]
#[verifier::reject_recursive_types(K)]
#[verifier::reject_recursive_types(S)]
pub struct ExDashSet<K, S>(dashmap::DashSet<K, S>);

/// `dashmap::DashMap`.
#[verifier::external_type_specification]
#[verifier::external_body]
#[verifier::reject_recursive_types(K)]
#[verifier::reject_recursive_types(V)]
#[verifier::reject_recursive_types(S)]
pub struct ExDashMap<K, V, S>(dashmap::DashMap<K, V, S>);

/// `crossbeam_skiplist::SkipMap`.
#[verifier::external_type_specification]
#[verifier::external_body]
#[verifier::reject_recursive_types(K)]
#[verifier::reject_recursive_types(V)]
pub struct ExSkipMap<K, V>(crossbeam_skiplist::SkipMap<K, V>);

/// What a `DashSet` holds.
pub uninterp spec fn held_ids(s: dashmap::DashSet<i32>) -> Set<i32>;

/// What a `DashMap` holds.
pub uninterp spec fn held_engines(m: dashmap::DashMap<i64, u64>) -> Map<i64, u64>;

/// What a `SkipMap` holds.
pub uninterp spec fn held_asks(m: crossbeam_skiplist::SkipMap<String, u64>) -> Map<Seq<char>, u64>;

/// `DashSet::new`: an empty set.
#[verifier::external_body]
fn ids_new() -> (r: dashmap::DashSet<i32>)
    ensures
        held_ids(r) =~= set![],
{
    dashmap::DashSet::new()
}

/// `DashSet::insert`: the key is in the set afterwards; true = it was not before.
#[verifier::external_body]
fn ids_insert(s: &mut dashmap::DashSet<i32>, id: i32) -> (r: bool)
    ensures
        held_ids(*final(s)) == held_ids(*old(s)).insert(id),
        r == !held_ids(*old(s)).contains(id),
{
    s.insert(id)
}

/// `DashSet::remove`: the key is not in the set afterwards; the removed key, if it
/// was there, comes back.
#[verifier::external_body]
fn ids_remove(s: &mut dashmap::DashSet<i32>, id: i32) -> (r: bool)
    ensures
        held_ids(*final(s)) == held_ids(*old(s)).remove(id),
        r == held_ids(*old(s)).contains(id),
{
    s.remove(&id).is_some()
}

/// `DashSet::contains`.
#[verifier::external_body]
fn ids_contains(s: &dashmap::DashSet<i32>, id: i32) -> (r: bool)
    ensures
        r == held_ids(*s).contains(id),
{
    s.contains(&id)
}

/// `DashMap::new`: an empty map.
#[verifier::external_body]
fn engines_new() -> (r: dashmap::DashMap<i64, u64>)
    ensures
        held_engines(r) =~= map![],
{
    dashmap::DashMap::new()
}

/// `DashMap::get`: the value under the key, if there is one.
#[verifier::external_body]
fn engines_get(m: &dashmap::DashMap<i64, u64>, key: i64) -> (r: Option<u64>)
    ensures
        r == (if held_engines(*m).dom().contains(key) {
            Some(held_engines(*m)[key])
        } else {
            None
        }),
{
    m.get(&key).map(|entry| *entry.value())
}

/// `DashMap::insert`: the key has the value afterwards.
#[verifier::external_body]
fn engines_insert(m: &mut dashmap::DashMap<i64, u64>, key: i64, engine: u64)
    ensures
        held_engines(*final(m)) == held_engines(*old(m)).insert(key, engine),
{
    m.insert(key, engine);
}

/// `DashMap::remove`: the key is gone afterwards, and its value comes back.
#[verifier::external_body]
fn engines_remove(m: &mut dashmap::DashMap<i64, u64>, key: i64) -> (r: Option<u64>)
    ensures
        held_engines(*final(m)) == held_engines(*old(m)).remove(key),
        r == (if held_engines(*old(m)).dom().contains(key) {
            Some(held_engines(*old(m))[key])
        } else {
            None
        }),
{
    m.remove(&key).map(|entry| entry.1)
}

/// `SkipMap::new`: an empty map.
#[verifier::external_body]
fn asks_new() -> (r: crossbeam_skiplist::SkipMap<String, u64>)
    ensures
        held_asks(r) =~= map![],
{
    crossbeam_skiplist::SkipMap::new()
}

/// `SkipMap::insert`: the key has the value afterwards, whatever it had before.
#[verifier::external_body]
fn asks_insert(m: &mut crossbeam_skiplist::SkipMap<String, u64>, request: String, ask: u64)
    ensures
        held_asks(*final(m)) == held_asks(*old(m)).insert(request@, ask),
{
    m.insert(request, ask);
}

/// `SkipMap::remove`: the key is gone afterwards, and its value comes back.
#[verifier::external_body]
fn asks_remove(m: &mut crossbeam_skiplist::SkipMap<String, u64>, request: &str) -> (r: Option<u64>)
    ensures
        held_asks(*final(m)) == held_asks(*old(m)).remove(request@),
        r == (if held_asks(*old(m)).dom().contains(request@) {
            Some(held_asks(*old(m))[request@])
        } else {
            None
        }),
{
    m.remove(request).map(|entry| *entry.value())
}

} // verus!
