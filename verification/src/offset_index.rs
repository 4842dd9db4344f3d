//! An ordered, bidirectional map from record identifier to byte offset:
//! exact-string lookup by identifier, position lookup in order of first
//! discovery, and an `init` flag set once a full pre-scan has populated it.

use vstd::prelude::*;
use crate::text::{bytes_eq, sub_vec};

verus! {

/// The offset index: identifier/offset pairs in order of first discovery,
/// identifiers unique, plus a flag recording that a pre-scan populated it.
#[derive(Debug, Clone, PartialEq, Eq)]
pub struct OffsetIndex {
    pub entries: Vec<(Vec<u8>, u64)>,
    pub init: bool,
}

/// Identifiers are pairwise distinct.
pub open spec fn keys_unique(s: Seq<(Seq<u8>, u64)>) -> bool {
    forall|i: int, j: int| 0 <= i < j < s.len() ==> s[i].0 != s[j].0
}

/// The element-wise ghost content of the entries.
pub open spec fn entry_views(s: Seq<(Vec<u8>, u64)>) -> Seq<(Seq<u8>, u64)> {
    s.map_values(|e: (Vec<u8>, u64)| (e.0@, e.1))
}

/// `s` updated with `(k, off)`: the offset is overwritten in place when `k`
/// is present, and the pair is appended when it is new.
pub open spec fn index_insert(s: Seq<(Seq<u8>, u64)>, k: Seq<u8>, off: u64) -> Seq<(Seq<u8>, u64)> {
    if index_find(s, k) < s.len() {
        s.update(index_find(s, k), (k, off))
    } else {
        s.push((k, off))
    }
}

/// Position of `k` in `s`, or `s.len()` if absent.
pub open spec fn index_find(s: Seq<(Seq<u8>, u64)>, k: Seq<u8>) -> int
    decreases s.len(),
{
    if s.len() == 0 {
        0
    } else if s[0].0 == k {
        0
    } else {
        1 + index_find(s.skip(1), k)
    }
}

pub proof fn lemma_index_find(s: Seq<(Seq<u8>, u64)>, k: Seq<u8>)
    ensures
        0 <= index_find(s, k) <= s.len(),
        index_find(s, k) < s.len() ==> s[index_find(s, k)].0 == k,
        forall|i: int| 0 <= i < index_find(s, k) ==> s[i].0 != k,
    decreases s.len(),
{
    if s.len() > 0 && s[0].0 != k {
        lemma_index_find(s.skip(1), k);
        assert forall|i: int| 0 <= i < index_find(s, k) implies s[i].0 != k by {
            if i > 0 {
                assert(s.skip(1)[i - 1] == s[i]);
            }
        }
        if index_find(s, k) < s.len() {
            assert(s.skip(1)[index_find(s, k) - 1] == s[index_find(s, k)]);
        }
    }
}

/// `k` is present with a unique position: exactly when some entry carries it.
pub proof fn lemma_index_find_at(s: Seq<(Seq<u8>, u64)>, k: Seq<u8>, j: int)
    requires
        0 <= j < s.len(),
        s[j].0 == k,
        forall|i: int| 0 <= i < j ==> s[i].0 != k,
    ensures
        index_find(s, k) == j,
    decreases s.len(),
{
    if s.len() > 0 && s[0].0 != k {
        assert(s.skip(1)[j - 1] == s[j]);
        assert forall|i: int| 0 <= i < j - 1 implies s.skip(1)[i].0 != k by {
            assert(s.skip(1)[i] == s[i + 1]);
        }
        lemma_index_find_at(s.skip(1), k, j - 1);
    }
}

impl View for OffsetIndex {
    type V = Seq<(Seq<u8>, u64)>;

    open spec fn view(&self) -> Seq<(Seq<u8>, u64)> {
        entry_views(self.entries@)
    }
}

impl OffsetIndex {
    /// Identifiers are pairwise distinct; established by the constructor and
    /// preserved by `insert`.
    pub open spec fn wf(&self) -> bool {
        keys_unique(self@)
    }

    /// A new, empty, uninitialized index.
    pub fn new() -> (r: OffsetIndex)
        ensures
            r@ == Seq::<(Seq<u8>, u64)>::empty(),
            !r.init,
            r.wf(),
    {
        let r = OffsetIndex { entries: Vec::new(), init: false };
        proof {
            assert(r@ =~= Seq::<(Seq<u8>, u64)>::empty());
        }
        r
    }

    /// Stores `off` under `id`, overwriting the offset of an existing
    /// identifier and appending a new identifier at the end of the order.
    #[verifier::loop_isolation(false)]
    pub fn insert(&mut self, id: Vec<u8>, off: u64)
        requires
            old(self).wf(),
        ensures
            final(self)@ == index_insert(old(self)@, id@, off),
            final(self).wf(),
            final(self).init == old(self).init,
    {
        let ghost idv = id@;
        let ghost pre = self@;
        let n = self.entries.len();
        let mut i: usize = 0;
        while i < n
            invariant
                0 <= i <= n,
                n == self.entries@.len(),
                self.entries@ == old(self).entries@,
                self.init == old(self).init,
                forall|m: int| 0 <= m < i ==> pre[m].0 != idv,
            decreases n - i,
        {
            if bytes_eq(&self.entries[i].0, &id) {
                proof {
                    assert(pre[i as int].0 == idv);
                    lemma_index_find_at(pre, idv, i as int);
                }
                let pair = (id, off);
                self.entries[i] = pair;
                proof {
                    assert(self@ =~= pre.update(i as int, (idv, off)));
                    assert forall|a: int, b: int|
                        0 <= a < b < self@.len() implies self@[a].0 != self@[b].0 by {
                        assert(pre[a].0 != pre[b].0);
                    }
                }
                return ;
            }
            i += 1;
        }
        proof {
            lemma_index_find(pre, idv);
        }
        self.entries.push((id, off));
        proof {
            assert(self@ =~= pre.push((idv, off)));
            assert forall|a: int, b: int|
                0 <= a < b < self@.len() implies self@[a].0 != self@[b].0 by {
                if b < pre.len() {
                    assert(pre[a].0 != pre[b].0);
                } else {
                    assert(pre[a].0 != idv);
                }
            }
        }
    }

    /// The offset stored for `id`, if any.
    #[verifier::loop_isolation(false)]
    pub fn get(&self, id: &Vec<u8>) -> (r: Option<u64>)
        ensures
            r == (if index_find(self@, id@) < self@.len() {
                Some(self@[index_find(self@, id@)].1)
            } else {
                None::<u64>
            }),
    {
        let n = self.entries.len();
        let mut i: usize = 0;
        while i < n
            invariant
                0 <= i <= n,
                n == self.entries@.len(),
                forall|m: int| 0 <= m < i ==> self@[m].0 != id@,
            decreases n - i,
        {
            if bytes_eq(&self.entries[i].0, &id) {
                proof {
                    lemma_index_find_at(self@, id@, i as int);
                }
                return Some(self.entries[i].1);
            }
            i += 1;
        }
        proof {
            lemma_index_find(self@, id@);
        }
        None
    }

    /// The identifier and offset at position `i` in discovery order.
    pub fn get_index(&self, i: usize) -> (r: Option<(Vec<u8>, u64)>)
        ensures
            match r {
                Some(p) => i < self@.len() && p.0@ == self@[i as int].0 && p.1 == self@[i as int].1,
                None => i >= self@.len(),
            },
    {
        if i < self.entries.len() {
            let id = sub_vec(&self.entries[i].0, 0, self.entries[i].0.len());
            proof {
                assert(id@ =~= self@[i as int].0);
            }
            Some((id, self.entries[i].1))
        } else {
            None
        }
    }

    /// How many identifiers the index holds.
    pub fn len(&self) -> (r: usize)
        ensures
            r == self@.len(),
    {
        self.entries.len()
    }

    pub fn is_empty(&self) -> (r: bool)
        ensures
            r == (self@.len() == 0),
    {
        self.entries.len() == 0
    }

    /// Drops every entry and clears the `init` flag.
    pub fn clear(&mut self)
        ensures
            final(self)@ == Seq::<(Seq<u8>, u64)>::empty(),
            !final(self).init,
            final(self).wf(),
    {
        self.entries.clear();
        self.init = false;
        proof {
            assert(self@ =~= Seq::<(Seq<u8>, u64)>::empty());
        }
    }
}

} // verus!
