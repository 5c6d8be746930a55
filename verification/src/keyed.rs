//! A small table keyed by text. Each key stands once; entries keep the order in
//! which they came.

use vstd::prelude::*;

use crate::text::same;

verus! {

pub struct Keyed<V> {
    pub entries: Vec<(String, V)>,
}

/// The entry for `key` is at place `i`.
pub open spec fn key_at<V>(entries: Seq<(String, V)>, key: Seq<char>, i: int) -> bool {
    0 <= i < entries.len() && entries[i].0@ == key
}

/// Some entry has the key.
pub open spec fn has_key<V>(entries: Seq<(String, V)>, key: Seq<char>) -> bool {
    exists|i: int| key_at(entries, key, i)
}

impl<V> View for Keyed<V> {
    type V = Map<Seq<char>, V>;

    /// The table as a map.
    open spec fn view(&self) -> Map<Seq<char>, V> {
        Map::new(
            |k: Seq<char>| has_key(self.entries@, k),
            |k: Seq<char>| self.entries@[choose|i: int| key_at(self.entries@, k, i)].1,
        )
    }
}

impl<V> Keyed<V> {
    /// No key stands twice.
    pub open spec fn wf(self) -> bool {
        forall|i: int, j: int|
            0 <= i < j < self.entries@.len() ==> (#[trigger] self.entries@[i]).0@ != (
            #[trigger] self.entries@[j]).0@
    }

    pub fn new() -> (r: Self)
        ensures
            r.wf(),
            r@ == Map::<Seq<char>, V>::empty(),
            r.entries@.len() == 0,
    {
        let r = Keyed { entries: Vec::new() };
        assert(r@ =~= Map::<Seq<char>, V>::empty());
        r
    }

    /// The value at a place is the value of its key.
    pub proof fn lemma_at(self, i: int)
        requires
            self.wf(),
            0 <= i < self.entries@.len(),
        ensures
            self@.dom().contains(self.entries@[i].0@),
            self@[self.entries@[i].0@] == self.entries@[i].1,
    {
        let k = self.entries@[i].0@;
        assert(key_at(self.entries@, k, i));
        let j = choose|j: int| key_at(self.entries@, k, j);
        assert(key_at(self.entries@, k, j));
        if i < j {
            assert(self.entries@[i].0@ != self.entries@[j].0@);
        } else if j < i {
            assert(self.entries@[j].0@ != self.entries@[i].0@);
        }
    }

    fn find(&self, key: &str) -> (r: Option<usize>)
        ensures
            match r {
                Some(i) => key_at(self.entries@, key@, i as int),
                None => !has_key(self.entries@, key@),
            },
    {
        let mut i: usize = 0;
        while i < self.entries.len()
            invariant
                i <= self.entries@.len(),
                forall|j: int| 0 <= j < i ==> !key_at(self.entries@, key@, j),
            decreases self.entries@.len() - i,
        {
            if same(self.entries[i].0.as_str(), key) {
                return Some(i);
            }
            i = i + 1;
        }
        None
    }

    pub fn contains_key(&self, key: &str) -> (r: bool)
        ensures
            r == self@.dom().contains(key@),
    {
        match self.find(key) {
            Some(i) => {
                assert(key_at(self.entries@, key@, i as int));
                true
            },
            None => false,
        }
    }

    pub fn get<'a>(&'a self, key: &str) -> (r: Option<&'a V>)
        requires
            self.wf(),
        ensures
            match r {
                Some(v) => self@.dom().contains(key@) && self@[key@] == *v,
                None => !self@.dom().contains(key@),
            },
    {
        match self.find(key) {
            Some(i) => {
                proof {
                    self.lemma_at(i as int);
                }
                Some(&self.entries[i].1)
            },
            None => None,
        }
    }

    /// Take the entry out.
    pub fn remove(&mut self, key: &str) -> (r: Option<V>)
        requires
            old(self).wf(),
        ensures
            final(self).wf(),
            final(self)@ == old(self)@.remove(key@),
            match r {
                Some(v) => old(self)@.dom().contains(key@) && old(self)@[key@] == v,
                None => !old(self)@.dom().contains(key@),
            },
    {
        match self.find(key) {
            Some(i) => {
                proof {
                    self.lemma_at(i as int);
                }
                let ghost before = *self;
                let (_, v) = self.entries.remove(i);
                proof {
                    assert(self.entries@ =~= before.entries@.remove(i as int));
                    assert forall|a: int, b: int| 0 <= a < b < self.entries@.len() implies (
                    #[trigger] self.entries@[a]).0@ != (#[trigger] self.entries@[b]).0@ by {
                        let a2 = if a < i {
                            a
                        } else {
                            a + 1
                        };
                        let b2 = if b < i {
                            b
                        } else {
                            b + 1
                        };
                        assert(self.entries@[a] == before.entries@[a2]);
                        assert(self.entries@[b] == before.entries@[b2]);
                    }
                    lemma_removed(before, *self, i as int);
                }
                Some(v)
            },
            None => {
                assert(self@ =~= self@.remove(key@));
                None
            },
        }
    }

    /// Enter the value under the key, in place of what was there.
    pub fn insert(&mut self, key: String, value: V)
        requires
            old(self).wf(),
        ensures
            final(self).wf(),
            final(self)@ == old(self)@.insert(key@, value),
    {
        let _ = self.remove(key.as_str());
        let ghost before = *self;
        let ghost k = key@;
        let ghost v = value;
        self.entries.push((key, value));
        proof {
            let n = before.entries@.len() as int;
            assert forall|a: int, b: int| 0 <= a < b < self.entries@.len() implies (
            #[trigger] self.entries@[a]).0@ != (#[trigger] self.entries@[b]).0@ by {
                assert(self.entries@[a] == before.entries@[a]);
                if b == n {
                    before.lemma_at(a);
                } else {
                    assert(self.entries@[b] == before.entries@[b]);
                }
            }
            assert forall|x: Seq<char>| self@.dom().contains(x) <==> before@.insert(
                k,
                v,
            ).dom().contains(x) by {
                if before@.dom().contains(x) {
                    let i = choose|i: int| key_at(before.entries@, x, i);
                    assert(key_at(self.entries@, x, i));
                }
                if x == k {
                    assert(key_at(self.entries@, x, n));
                }
                if self@.dom().contains(x) {
                    let i = choose|i: int| key_at(self.entries@, x, i);
                    if i < n {
                        assert(key_at(before.entries@, x, i));
                    }
                }
            }
            assert forall|x: Seq<char>| #[trigger] self@.dom().contains(x) implies self@[x]
                == before@.insert(k, v)[x] by {
                let i = choose|i: int| key_at(self.entries@, x, i);
                assert(key_at(self.entries@, x, i));
                self.lemma_at(i);
                if i < n {
                    before.lemma_at(i);
                    assert(self.entries@[i] == before.entries@[i]);
                }
            }
            assert(self@ =~= before@.insert(k, v));
        }
    }

    /// Empty the table, handing out what was in it.
    pub fn drain(&mut self) -> (r: Vec<(String, V)>)
        ensures
            r@ == old(self).entries@,
            final(self).entries@.len() == 0,
            final(self)@ == Map::<Seq<char>, V>::empty(),
            final(self).wf(),
    {
        let mut out: Vec<(String, V)> = Vec::new();
        std::mem::swap(&mut out, &mut self.entries);
        assert(self@ =~= Map::<Seq<char>, V>::empty());
        out
    }
}

proof fn lemma_removed<V>(before: Keyed<V>, after: Keyed<V>, i: int)
    requires
        before.wf(),
        after.wf(),
        0 <= i < before.entries@.len(),
        after.entries@ == before.entries@.remove(i),
    ensures
        after@ == before@.remove(before.entries@[i].0@),
{
    let k = before.entries@[i].0@;
    assert forall|x: Seq<char>| after@.dom().contains(x) <==> before@.remove(k).dom().contains(
        x,
    ) by {
        if after@.dom().contains(x) {
            let a = choose|a: int| key_at(after.entries@, x, a);
            let a2 = if a < i {
                a
            } else {
                a + 1
            };
            assert(after.entries@[a] == before.entries@[a2]);
            assert(key_at(before.entries@, x, a2));
        }
        if before@.remove(k).dom().contains(x) {
            let a = choose|a: int| key_at(before.entries@, x, a);
            let a2 = if a < i {
                a
            } else {
                a - 1
            };
            assert(a != i);
            assert(after.entries@[a2] == before.entries@[a]);
            assert(key_at(after.entries@, x, a2));
        }
    }
    assert forall|x: Seq<char>| #[trigger] after@.dom().contains(x) implies after@[x]
        == before@.remove(k)[x] by {
        let a = choose|a: int| key_at(after.entries@, x, a);
        assert(key_at(after.entries@, x, a));
        let a2 = if a < i {
            a
        } else {
            a + 1
        };
        assert(after.entries@[a] == before.entries@[a2]);
        after.lemma_at(a);
        before.lemma_at(a2);
    }
    assert(after@ =~= before@.remove(k));
}

} // verus!
