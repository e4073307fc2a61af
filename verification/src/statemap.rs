//! Keyed per-id state with default-on-first-access semantics.
//!
//! Tab and pane state are kept in tables keyed by the multiplexer's ids.
//! An id that was never written reads as the default value, matching a
//! table whose entries are created implicitly on first lookup and never
//! removed; only the stored value toggles.

use vstd::prelude::*;

verus! {

/// The first value stored under `id`, scanning from the front.
pub open spec fn spec_lookup<V>(s: Seq<(usize, V)>, id: usize) -> Option<V>
    decreases s.len(),
{
    if s.len() == 0 {
        None
    } else if s[0].0 == id {
        Some(s[0].1)
    } else {
        spec_lookup(s.skip(1), id)
    }
}

proof fn lemma_lookup_update<V>(s: Seq<(usize, V)>, idx: int, id: usize, v: V, k: usize)
    requires
        0 <= idx < s.len(),
        s[idx].0 == id,
        forall|j: int| 0 <= j < idx ==> (#[trigger] s[j]).0 != id,
    ensures
        spec_lookup(s.update(idx, (id, v)), k) == if k == id {
            Some(v)
        } else {
            spec_lookup(s, k)
        },
    decreases s.len(),
{
    let t = s.update(idx, (id, v));
    if idx == 0 {
        assert(t[0] == (id, v));
        if k != id {
            assert(t.skip(1) =~= s.skip(1));
        }
    } else {
        assert(t[0] == s[0]);
        assert(s[0].0 != id);
        if k == s[0].0 {
        } else {
            assert(t.skip(1) =~= s.skip(1).update(idx - 1, (id, v)));
            assert(forall|j: int|
                0 <= j < idx - 1 ==> (#[trigger] s.skip(1)[j]).0 != id) by {
                assert(forall|j: int| 0 <= j < idx - 1 ==> s.skip(1)[j] == s[j + 1]);
            }
            assert(s.skip(1)[idx - 1] == s[idx]);
            lemma_lookup_update(s.skip(1), idx - 1, id, v, k);
        }
    }
}

proof fn lemma_lookup_push<V>(s: Seq<(usize, V)>, id: usize, v: V, k: usize)
    requires
        spec_lookup(s, id) is None,
    ensures
        spec_lookup(s.push((id, v)), k) == if k == id {
            Some(v)
        } else {
            spec_lookup(s, k)
        },
    decreases s.len(),
{
    let t = s.push((id, v));
    if s.len() == 0 {
        assert(t[0] == (id, v));
        if k != id {
            assert(t.skip(1).len() == 0);
        }
    } else {
        assert(t[0] == s[0]);
        assert(s[0].0 != id);
        if k == s[0].0 {
        } else {
            assert(t.skip(1) =~= s.skip(1).push((id, v)));
            lemma_lookup_push(s.skip(1), id, v, k);
        }
    }
}

/// A table from ids to values of `V`.  Reading an id that was never
/// written yields the table's default value.
pub struct SlotTable<V> {
    entries: Vec<(usize, V)>,
    default: V,
}

impl<V: Copy> SlotTable<V> {
    /// The default an unwritten id reads as.
    pub closed spec fn spec_default(self) -> V {
        self.default
    }

    /// The value stored under `id`, or the default.
    pub closed spec fn spec_get(self, id: usize) -> V {
        match spec_lookup(self.entries@, id) {
            Some(v) => v,
            None => self.default,
        }
    }

    /// An empty table whose unwritten ids read as `default`.
    pub fn new(default: V) -> (r: SlotTable<V>)
        ensures
            r.spec_default() == default,
            forall|k: usize| r.spec_get(k) == default,
    {
        SlotTable { entries: Vec::new(), default }
    }

    /// Reads the state of `id`.
    pub fn get(&self, id: usize) -> (r: V)
        ensures
            r == self.spec_get(id),
    {
        let n = self.entries.len();
        let mut i: usize = 0;
        proof {
            assert(self.entries@.skip(0) =~= self.entries@);
        }
        while i < n
            invariant
                0 <= i <= self.entries@.len(),
                n == self.entries@.len(),
                spec_lookup(self.entries@, id) == spec_lookup(self.entries@.skip(i as int), id),
            decreases n - i,
        {
            proof {
                assert(self.entries@.skip(i as int)[0] == self.entries@[i as int]);
                assert(self.entries@.skip(i as int).skip(1) =~= self.entries@.skip(i + 1));
            }
            if self.entries[i].0 == id {
                return self.entries[i].1;
            }
            i = i + 1;
        }
        proof {
            assert(self.entries@.skip(i as int).len() == 0);
        }
        self.default
    }

    /// Writes the state of `id`, leaving every other id unchanged.
    pub fn set(&mut self, id: usize, v: V)
        ensures
            final(self).spec_get(id) == v,
            forall|k: usize| k != id ==> final(self).spec_get(k) == old(self).spec_get(k),
            final(self).spec_default() == old(self).spec_default(),
    {
        let n = self.entries.len();
        let mut i: usize = 0;
        proof {
            assert(self.entries@.skip(0) =~= self.entries@);
        }
        while i < n
            invariant
                0 <= i <= self.entries@.len(),
                n == self.entries@.len(),
                spec_lookup(self.entries@, id) == spec_lookup(self.entries@.skip(i as int), id),
                forall|j: int| 0 <= j < i ==> (#[trigger] self.entries@[j]).0 != id,
                *self == *old(self),
            decreases n - i,
        {
            proof {
                assert(self.entries@.skip(i as int)[0] == self.entries@[i as int]);
                assert(self.entries@.skip(i as int).skip(1) =~= self.entries@.skip(i + 1));
            }
            if self.entries[i].0 == id {
                proof {
                    lemma_lookup_update(self.entries@, i as int, id, v, id);
                    assert(forall|k: usize|
                        k != id ==> spec_lookup(
                            self.entries@.update(i as int, (id, v)),
                            k,
                        ) == spec_lookup(self.entries@, k)) by {
                        assert forall|k: usize| k != id implies spec_lookup(
                            self.entries@.update(i as int, (id, v)),
                            k,
                        ) == spec_lookup(self.entries@, k) by {
                            lemma_lookup_update(self.entries@, i as int, id, v, k);
                        }
                    }
                }
                self.entries.set(i, (id, v));
                return ;
            }
            i = i + 1;
        }
        proof {
            assert(self.entries@.skip(i as int).len() == 0);
            assert(spec_lookup(self.entries@, id) is None);
            lemma_lookup_push(self.entries@, id, v, id);
            assert forall|k: usize| k != id implies spec_lookup(
                self.entries@.push((id, v)),
                k,
            ) == spec_lookup(self.entries@, k) by {
                lemma_lookup_push(self.entries@, id, v, k);
            }
        }
        self.entries.push((id, v));
    }
}

} // verus!
