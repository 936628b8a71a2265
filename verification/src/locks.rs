//! The table of per-channel locks: one lock per name, kept while someone
//! holds it, counted by holders and dropped with the last one.
use vstd::prelude::*;
use crate::text::str_eq;

verus! {

/// Holder counts by name after one more holder of `name`.
pub open spec fn spec_acquire(m: Map<Seq<char>, nat>, name: Seq<char>) -> Map<Seq<char>, nat> {
    if m.contains_key(name) {
        m.insert(name, m[name] + 1)
    } else {
        m.insert(name, 1)
    }
}

/// Holder counts by name after one holder of `name` lets go: the name is
/// dropped with its last holder.
pub open spec fn spec_release(m: Map<Seq<char>, nat>, name: Seq<char>) -> Map<Seq<char>, nat> {
    if !m.contains_key(name) {
        m
    } else if m[name] <= 1 {
        m.remove(name)
    } else {
        m.insert(name, (m[name] - 1) as nat)
    }
}

/// The locks by name, each with the number of its holders.
pub struct LockByName<T> {
    entries: Vec<(String, usize, T)>,
}

impl<T> LockByName<T> {
    /// No two entries share a name and every entry has a holder.
    #[verifier::type_invariant]
    spec fn well_formed(&self) -> bool {
        &&& forall|i: int, j: int|
            0 <= i < j < self.entries@.len() ==> (#[trigger] self.entries@[i]).0@
                != (#[trigger] self.entries@[j]).0@
        &&& forall|i: int| 0 <= i < self.entries@.len() ==> (#[trigger] self.entries@[i]).1 > 0
    }

    /// Holder counts by name.
    pub closed spec fn counts(&self) -> Map<Seq<char>, nat> {
        Map::new(
            |n: Seq<char>| exists|i: int| 0 <= i < self.entries@.len() && self.entries@[i].0@ == n,
            |n: Seq<char>|
                self.entries@[choose|i: int|
                    0 <= i < self.entries@.len() && self.entries@[i].0@ == n].1 as nat,
        )
    }

    /// The lock kept for a name.
    pub closed spec fn lock_of(&self, name: Seq<char>) -> T {
        self.entries@[choose|i: int|
            0 <= i < self.entries@.len() && self.entries@[i].0@ == name].2
    }

    pub fn new() -> (r: LockByName<T>)
        ensures
            r.counts() == Map::<Seq<char>, nat>::empty(),
    {
        let r = LockByName { entries: Vec::new() };
        assert(r.counts() =~= Map::<Seq<char>, nat>::empty());
        r
    }

    fn find(&self, name: &str) -> (r: Option<usize>)
        requires
            self.well_formed(),
        ensures
            r matches Some(i) ==> i < self.entries@.len() && self.entries@[i as int].0@ == name@,
            r is None ==> forall|i: int|
                0 <= i < self.entries@.len() ==> (#[trigger] self.entries@[i]).0@ != name@,
    {
        let mut i: usize = 0;
        while i < self.entries.len()
            invariant
                i <= self.entries@.len(),
                forall|k: int| 0 <= k < i ==> (#[trigger] self.entries@[k]).0@ != name@,
            decreases self.entries@.len() - i,
        {
            if str_eq(self.entries[i].0.as_str(), name) {
                return Some(i);
            }
            i += 1;
        }
        None
    }

    proof fn lemma_counts_at(&self, i: int)
        requires
            self.well_formed(),
            0 <= i < self.entries@.len(),
        ensures
            self.counts().contains_key(self.entries@[i].0@),
            self.counts()[self.entries@[i].0@] == self.entries@[i].1 as nat,
            self.lock_of(self.entries@[i].0@) == self.entries@[i].2,
    {
        let n = self.entries@[i].0@;
        assert(exists|k: int| 0 <= k < self.entries@.len() && self.entries@[k].0@ == n);
        let k = choose|k: int| 0 <= k < self.entries@.len() && self.entries@[k].0@ == n;
        if k != i {
            if k < i {
                assert(self.entries@[k].0@ != self.entries@[i].0@);
            } else {
                assert(self.entries@[i].0@ != self.entries@[k].0@);
            }
        }
    }

    /// One more holder of the lock of `name`: the lock is created from
    /// `fresh` when the name has none, and kept otherwise. Returns whether
    /// it was created.
    pub fn acquire(&mut self, name: &str, fresh: T) -> (created: bool)
        requires
            old(self).counts().contains_key(name@) ==> old(self).counts()[name@] < usize::MAX,
        ensures
            acquired(*old(self), *final(self), name@, fresh),
            final(self).counts() == spec_acquire(old(self).counts(), name@),
            created == !old(self).counts().contains_key(name@),
            created ==> final(self).lock_of(name@) == fresh,
            !created ==> final(self).lock_of(name@) == old(self).lock_of(name@),
            forall|n: Seq<char>|
                n != name@ && old(self).counts().contains_key(n) ==> #[trigger] final(self).lock_of(n)
                    == old(self).lock_of(n),
    {
        proof {
            use_type_invariant(&*self);
        }
        let ghost pre = *self;
        let found = self.find(name);
        let mut entries: Vec<(String, usize, T)> = Vec::new();
        std::mem::swap(&mut entries, &mut self.entries);
        match found {
            Some(i) => {
                proof {
                    pre.lemma_counts_at(i as int);
                }
                let (n, c, t) = entries.remove(i);
                entries.insert(i, (n, c + 1, t));
                proof {
                    let cur = LockByName { entries: entries };
                    cur.lemma_frame_update(pre, i as int);
                }
                self.entries = entries;
                false
            },
            None => {
                proof {
                    assert(!pre.counts().contains_key(name@));
                }
                entries.push((crate::text::to_owned_string(name), 1, fresh));
                proof {
                    let cur = LockByName { entries: entries };
                    cur.lemma_frame_push(pre);
                }
                self.entries = entries;
                true
            },
        }
    }

    proof fn lemma_frame_update(&self, pre: LockByName<T>, i: int)
        requires
            pre.well_formed(),
            0 <= i < pre.entries@.len(),
            self.entries@.len() == pre.entries@.len(),
            self.entries@[i].0@ == pre.entries@[i].0@,
            self.entries@[i].1 == pre.entries@[i].1 + 1,
            self.entries@[i].2 == pre.entries@[i].2,
            forall|k: int| 0 <= k < pre.entries@.len() && k != i ==> self.entries@[k] == pre.entries@[k],
        ensures
            self.well_formed(),
            self.counts() == spec_acquire(pre.counts(), pre.entries@[i].0@),
            self.lock_of(pre.entries@[i].0@) == pre.lock_of(pre.entries@[i].0@),
            forall|n: Seq<char>|
                n != pre.entries@[i].0@ && pre.counts().contains_key(n) ==> #[trigger] self.lock_of(n)
                    == pre.lock_of(n),
    {
        let name = pre.entries@[i].0@;
        assert forall|a: int, b: int|
            0 <= a < b < self.entries@.len() implies (#[trigger] self.entries@[a]).0@
            != (#[trigger] self.entries@[b]).0@ by {
            assert(pre.entries@[a].0@ != pre.entries@[b].0@);
        }
        assert forall|k: int| 0 <= k < self.entries@.len() implies (#[trigger] self.entries@[k]).1
            > 0 by {
            assert(pre.entries@[k].1 > 0);
        }
        pre.lemma_counts_at(i);
        self.lemma_counts_at(i);
        assert forall|n: Seq<char>|
            n != name && pre.counts().contains_key(n) implies #[trigger] self.lock_of(n)
            == pre.lock_of(n) by {
            let k = choose|k: int| 0 <= k < pre.entries@.len() && pre.entries@[k].0@ == n;
            pre.lemma_counts_at(k);
            self.lemma_counts_at(k);
        }
        let target = spec_acquire(pre.counts(), name);
        assert forall|n: Seq<char>| #[trigger] self.counts().contains_key(n) == target.contains_key(n) by {
            if self.counts().contains_key(n) {
                let k = choose|k: int| 0 <= k < self.entries@.len() && self.entries@[k].0@ == n;
                assert(pre.entries@[k].0@ == n);
            }
            if pre.counts().contains_key(n) {
                let k = choose|k: int| 0 <= k < pre.entries@.len() && pre.entries@[k].0@ == n;
                assert(self.entries@[k].0@ == n);
            }
        }
        assert forall|n: Seq<char>| #[trigger] self.counts().contains_key(n) implies self.counts()[n]
            == target[n] by {
            let k = choose|k: int| 0 <= k < self.entries@.len() && self.entries@[k].0@ == n;
            self.lemma_counts_at(k);
            pre.lemma_counts_at(k);
        }
        assert(self.counts() =~= target);
    }

    proof fn lemma_frame_push(&self, pre: LockByName<T>)
        requires
            pre.well_formed(),
            self.entries@.len() == pre.entries@.len() + 1,
            self.entries@[pre.entries@.len() as int].1 == 1,
            forall|k: int| 0 <= k < pre.entries@.len() ==> self.entries@[k] == pre.entries@[k],
            !pre.counts().contains_key(self.entries@[pre.entries@.len() as int].0@),
        ensures
            self.well_formed(),
            self.counts() == spec_acquire(
                pre.counts(),
                self.entries@[pre.entries@.len() as int].0@,
            ),
            self.lock_of(self.entries@[pre.entries@.len() as int].0@)
                == self.entries@[pre.entries@.len() as int].2,
            forall|n: Seq<char>|
                n != self.entries@[pre.entries@.len() as int].0@ && pre.counts().contains_key(n)
                    ==> #[trigger] self.lock_of(n) == pre.lock_of(n),
    {
        let last = pre.entries@.len() as int;
        let name = self.entries@[last].0@;
        assert forall|a: int, b: int|
            0 <= a < b < self.entries@.len() implies (#[trigger] self.entries@[a]).0@
            != (#[trigger] self.entries@[b]).0@ by {
            if b == last {
                if pre.entries@[a].0@ == name {
                    assert(pre.counts().contains_key(name));
                }
            } else {
                assert(pre.entries@[a].0@ != pre.entries@[b].0@);
            }
        }
        assert forall|k: int| 0 <= k < self.entries@.len() implies (#[trigger] self.entries@[k]).1
            > 0 by {
            if k < last {
                assert(pre.entries@[k].1 > 0);
            }
        }
        self.lemma_counts_at(last);
        assert forall|n: Seq<char>|
            n != name && pre.counts().contains_key(n) implies #[trigger] self.lock_of(n)
            == pre.lock_of(n) by {
            let k = choose|k: int| 0 <= k < pre.entries@.len() && pre.entries@[k].0@ == n;
            pre.lemma_counts_at(k);
            self.lemma_counts_at(k);
        }
        let target = spec_acquire(pre.counts(), name);
        assert forall|n: Seq<char>| #[trigger] self.counts().contains_key(n) == target.contains_key(n) by {
            if self.counts().contains_key(n) && n != name {
                let k = choose|k: int| 0 <= k < self.entries@.len() && self.entries@[k].0@ == n;
                assert(k != last);
                assert(pre.entries@[k].0@ == n);
            }
            if pre.counts().contains_key(n) {
                let k = choose|k: int| 0 <= k < pre.entries@.len() && pre.entries@[k].0@ == n;
                assert(self.entries@[k].0@ == n);
            }
        }
        assert forall|n: Seq<char>| #[trigger] self.counts().contains_key(n) implies self.counts()[n]
            == target[n] by {
            let k = choose|k: int| 0 <= k < self.entries@.len() && self.entries@[k].0@ == n;
            self.lemma_counts_at(k);
            if k < last {
                pre.lemma_counts_at(k);
            }
        }
        assert(self.counts() =~= target);
    }

    /// The lock kept for `name`, if it has one.
    pub fn get(&self, name: &str) -> (r: Option<&T>)
        ensures
            r is None <==> !self.counts().contains_key(name@),
            r matches Some(t) ==> *t == self.lock_of(name@),
    {
        proof {
            use_type_invariant(self);
        }
        match self.find(name) {
            Some(i) => {
                proof {
                    self.lemma_counts_at(i as int);
                }
                Some(&self.entries[i].2)
            },
            None => None,
        }
    }

    /// The number of holders of the lock of `name`: 0 when it has none.
    pub fn holders(&self, name: &str) -> (r: usize)
        ensures
            r == (if self.counts().contains_key(name@) {
                self.counts()[name@]
            } else {
                0
            }),
    {
        proof {
            use_type_invariant(self);
        }
        match self.find(name) {
            Some(i) => {
                proof {
                    self.lemma_counts_at(i as int);
                }
                self.entries[i].1
            },
            None => 0,
        }
    }

    /// One holder of the lock of `name` lets go; the lock is dropped with its
    /// last holder. Returns whether it was dropped.
    pub fn release(&mut self, name: &str) -> (dropped: bool)
        ensures
            final(self).counts() == spec_release(old(self).counts(), name@),
            dropped == (old(self).counts().contains_key(name@) && old(self).counts()[name@] == 1),
            forall|n: Seq<char>|
                #[trigger] final(self).counts().contains_key(n) ==> final(self).lock_of(n)
                    == old(self).lock_of(n),
    {
        proof {
            use_type_invariant(&*self);
        }
        let ghost pre = *self;
        match self.find(name) {
            None => {
                proof {
                    if pre.counts().contains_key(name@) {
                        let k = choose|k: int|
                            0 <= k < pre.entries@.len() && pre.entries@[k].0@ == name@;
                        assert(pre.entries@[k].0@ != name@);
                    }
                    assert(spec_release(pre.counts(), name@) == pre.counts());
                }
                false
            },
            Some(i) => {
                proof {
                    pre.lemma_counts_at(i as int);
                }
                let mut entries: Vec<(String, usize, T)> = Vec::new();
                std::mem::swap(&mut entries, &mut self.entries);
                let (n, c, t) = entries.remove(i);
                if c > 1 {
                    entries.insert(i, (n, c - 1, t));
                    proof {
                        let cur = LockByName { entries: entries };
                        cur.lemma_frame_decrement(pre, i as int);
                    }
                    self.entries = entries;
                    false
                } else {
                    proof {
                        let cur = LockByName { entries: entries };
                        cur.lemma_frame_remove(pre, i as int);
                    }
                    self.entries = entries;
                    true
                }
            },
        }
    }

    proof fn lemma_frame_decrement(&self, pre: LockByName<T>, i: int)
        requires
            pre.well_formed(),
            0 <= i < pre.entries@.len(),
            pre.entries@[i].1 > 1,
            self.entries@.len() == pre.entries@.len(),
            self.entries@[i].0@ == pre.entries@[i].0@,
            self.entries@[i].1 == pre.entries@[i].1 - 1,
            self.entries@[i].2 == pre.entries@[i].2,
            forall|k: int| 0 <= k < pre.entries@.len() && k != i ==> self.entries@[k] == pre.entries@[k],
        ensures
            self.well_formed(),
            self.counts() == spec_release(pre.counts(), pre.entries@[i].0@),
            forall|n: Seq<char>|
                #[trigger] self.counts().contains_key(n) ==> self.lock_of(n) == pre.lock_of(n),
    {
        let name = pre.entries@[i].0@;
        assert forall|a: int, b: int|
            0 <= a < b < self.entries@.len() implies (#[trigger] self.entries@[a]).0@
            != (#[trigger] self.entries@[b]).0@ by {
            assert(pre.entries@[a].0@ != pre.entries@[b].0@);
        }
        assert forall|k: int| 0 <= k < self.entries@.len() implies (#[trigger] self.entries@[k]).1
            > 0 by {
            assert(pre.entries@[k].1 > 0);
        }
        pre.lemma_counts_at(i);
        let target = spec_release(pre.counts(), name);
        assert forall|n: Seq<char>| #[trigger] self.counts().contains_key(n) == target.contains_key(n) by {
            if self.counts().contains_key(n) {
                let k = choose|k: int| 0 <= k < self.entries@.len() && self.entries@[k].0@ == n;
                assert(pre.entries@[k].0@ == n);
            }
            if pre.counts().contains_key(n) {
                let k = choose|k: int| 0 <= k < pre.entries@.len() && pre.entries@[k].0@ == n;
                assert(self.entries@[k].0@ == n);
            }
        }
        assert forall|n: Seq<char>| #[trigger] self.counts().contains_key(n) implies self.counts()[n]
            == target[n] && self.lock_of(n) == pre.lock_of(n) by {
            let k = choose|k: int| 0 <= k < self.entries@.len() && self.entries@[k].0@ == n;
            self.lemma_counts_at(k);
            pre.lemma_counts_at(k);
        }
        assert(self.counts() =~= target);
    }

    proof fn lemma_frame_remove(&self, pre: LockByName<T>, i: int)
        requires
            pre.well_formed(),
            0 <= i < pre.entries@.len(),
            pre.entries@[i].1 <= 1,
            self.entries@ == pre.entries@.remove(i),
        ensures
            self.well_formed(),
            self.counts() == spec_release(pre.counts(), pre.entries@[i].0@),
            forall|n: Seq<char>|
                #[trigger] self.counts().contains_key(n) ==> self.lock_of(n) == pre.lock_of(n),
    {
        let name = pre.entries@[i].0@;
        let old_index = |k: int| if k < i { k } else { k + 1 };
        assert forall|a: int, b: int|
            0 <= a < b < self.entries@.len() implies (#[trigger] self.entries@[a]).0@
            != (#[trigger] self.entries@[b]).0@ by {
            assert(pre.entries@[old_index(a)].0@ != pre.entries@[old_index(b)].0@);
        }
        assert forall|k: int| 0 <= k < self.entries@.len() implies (#[trigger] self.entries@[k]).1
            > 0 by {
            assert(pre.entries@[old_index(k)].1 > 0);
        }
        pre.lemma_counts_at(i);
        let target = spec_release(pre.counts(), name);
        assert forall|n: Seq<char>| #[trigger] self.counts().contains_key(n) == target.contains_key(n) by {
            if self.counts().contains_key(n) {
                let k = choose|k: int| 0 <= k < self.entries@.len() && self.entries@[k].0@ == n;
                assert(pre.entries@[old_index(k)].0@ == n);
                if n == name {
                    assert(pre.entries@[old_index(k)].0@ == pre.entries@[i].0@);
                    if old_index(k) < i {
                        assert(pre.entries@[old_index(k)].0@ != pre.entries@[i].0@);
                    } else {
                        assert(pre.entries@[i].0@ != pre.entries@[old_index(k)].0@);
                    }
                }
            }
            if pre.counts().contains_key(n) && n != name {
                let k = choose|k: int| 0 <= k < pre.entries@.len() && pre.entries@[k].0@ == n;
                assert(k != i);
                let j = if k < i { k } else { k - 1 };
                assert(self.entries@[j].0@ == n);
            }
        }
        assert forall|n: Seq<char>| #[trigger] self.counts().contains_key(n) implies self.counts()[n]
            == target[n] && self.lock_of(n) == pre.lock_of(n) by {
            let k = choose|k: int| 0 <= k < self.entries@.len() && self.entries@[k].0@ == n;
            self.lemma_counts_at(k);
            pre.lemma_counts_at(old_index(k));
        }
        assert(self.counts() =~= target);
    }

    /// Number of names that hold a lock.
    pub fn len(&self) -> (r: usize)
        ensures
            r == self.counts().len(),
    {
        proof {
            use_type_invariant(self);
            self.lemma_counts_len();
        }
        self.entries.len()
    }

    proof fn lemma_counts_len(&self)
        requires
            self.well_formed(),
        ensures
            self.counts().dom().finite(),
            self.counts().len() == self.entries@.len(),
    {
        let names = self.entries@.map_values(|e: (String, usize, T)| e.0@);
        assert(names.no_duplicates()) by {
            assert forall|a: int, b: int|
                0 <= a < names.len() && 0 <= b < names.len() && a != b implies names[a]
                != names[b] by {
                if a < b {
                    assert(self.entries@[a].0@ != self.entries@[b].0@);
                } else {
                    assert(self.entries@[b].0@ != self.entries@[a].0@);
                }
            }
        }
        names.unique_seq_to_set();
        assert(self.counts().dom() =~= names.to_set()) by {
            assert forall|n: Seq<char>| self.counts().dom().contains(n) == names.to_set().contains(n) by {
                if self.counts().dom().contains(n) {
                    let k = choose|k: int| 0 <= k < self.entries@.len() && self.entries@[k].0@ == n;
                    assert(names[k] == n);
                }
                if names.to_set().contains(n) {
                    let k = choose|k: int| 0 <= k < names.len() && names[k] == n;
                    assert(self.entries@[k].0@ == n);
                }
            }
        }
    }
}

impl<T> Default for LockByName<T> {
    /// An empty table, as `new` makes.
    fn default() -> (r: Self)
        ensures
            r.counts() == Map::<Seq<char>, nat>::empty(),
    {
        Self::new()
    }
}

/// Taking a lock and letting it go leaves the table's counts as they were:
/// a name whose last holder lets go leaves the table.
pub proof fn lemma_acquire_release(m: Map<Seq<char>, nat>, name: Seq<char>)
    requires
        forall|n: Seq<char>| #[trigger] m.contains_key(n) ==> m[n] > 0,
    ensures
        spec_release(spec_acquire(m, name), name) == m,
{
    if m.contains_key(name) {
        assert(spec_release(spec_acquire(m, name), name) =~= m);
    } else {
        assert(spec_release(spec_acquire(m, name), name) =~= m);
    }
}

/// Locks of other names are not touched by taking or letting go of one.
pub proof fn lemma_isolation(m: Map<Seq<char>, nat>, a: Seq<char>, b: Seq<char>)
    requires
        a != b,
    ensures
        spec_acquire(m, a).contains_key(b) == m.contains_key(b),
        spec_acquire(m, a)[b] == m[b],
        spec_release(m, a).contains_key(b) == m.contains_key(b),
        spec_release(m, a)[b] == m[b],
{
}

/// What one `acquire` of `name` with the lock `fresh` makes of a table, as
/// its contract states it.
pub open spec fn acquired<T>(
    before: LockByName<T>,
    after: LockByName<T>,
    name: Seq<char>,
    fresh: T,
) -> bool {
    &&& after.counts() == spec_acquire(before.counts(), name)
    &&& !before.counts().contains_key(name) ==> after.lock_of(name) == fresh
    &&& before.counts().contains_key(name) ==> after.lock_of(name) == before.lock_of(name)
    &&& forall|n: Seq<char>|
        n != name && before.counts().contains_key(n) ==> #[trigger] after.lock_of(n)
            == before.lock_of(n)
}

/// After `k` acquisitions of a name that held no lock, the name has `k`
/// holders, all sharing the lock of the first acquisition, while every other
/// name keeps its holders and its lock. `tables` are the table before and
/// after each acquisition, `fresh` the lock offered to each.
pub proof fn lemma_acquire_many<T>(tables: Seq<LockByName<T>>, name: Seq<char>, fresh: Seq<T>)
    requires
        fresh.len() + 1 == tables.len(),
        !tables[0].counts().contains_key(name),
        forall|i: int|
            0 <= i < fresh.len() ==> acquired(tables[i], tables[i + 1], name, #[trigger] fresh[i]),
    ensures
        forall|j: int|
            1 <= j < tables.len() ==> {
                &&& (#[trigger] tables[j]).counts().contains_key(name)
                &&& tables[j].counts()[name] == j
                &&& tables[j].lock_of(name) == fresh[0]
                &&& tables[j].counts().remove(name) == tables[0].counts()
                &&& forall|n: Seq<char>|
                    n != name && tables[0].counts().contains_key(n) ==> #[trigger] tables[j].lock_of(n)
                        == tables[0].lock_of(n)
            },
{
    assert forall|j: int| 1 <= j < tables.len() implies {
        &&& (#[trigger] tables[j]).counts().contains_key(name)
        &&& tables[j].counts()[name] == j
        &&& tables[j].lock_of(name) == fresh[0]
        &&& tables[j].counts().remove(name) == tables[0].counts()
        &&& forall|n: Seq<char>|
            n != name && tables[0].counts().contains_key(n) ==> #[trigger] tables[j].lock_of(n)
                == tables[0].lock_of(n)
    } by {
        lemma_acquire_prefix(tables, name, fresh, j);
    }
}

proof fn lemma_acquire_prefix<T>(tables: Seq<LockByName<T>>, name: Seq<char>, fresh: Seq<T>, j: int)
    requires
        fresh.len() + 1 == tables.len(),
        !tables[0].counts().contains_key(name),
        forall|i: int|
            0 <= i < fresh.len() ==> acquired(tables[i], tables[i + 1], name, #[trigger] fresh[i]),
        1 <= j < tables.len(),
    ensures
        tables[j].counts().contains_key(name),
        tables[j].counts()[name] == j,
        tables[j].lock_of(name) == fresh[0],
        tables[j].counts().remove(name) == tables[0].counts(),
        forall|n: Seq<char>|
            n != name && tables[0].counts().contains_key(n) ==> #[trigger] tables[j].lock_of(n)
                == tables[0].lock_of(n),
    decreases j,
{
    let f = fresh[j - 1];
    assert(acquired(tables[j - 1], tables[j], name, f));
    let before = tables[j - 1].counts();
    if j == 1 {
        assert(tables[1].counts().remove(name) =~= tables[0].counts());
    } else {
        lemma_acquire_prefix(tables, name, fresh, j - 1);
        assert(before.contains_key(name));
        assert(tables[j].counts().remove(name) =~= before.remove(name));
        assert forall|n: Seq<char>|
            n != name && tables[0].counts().contains_key(n) implies #[trigger] tables[j].lock_of(n)
            == tables[0].lock_of(n) by {
            assert(before.remove(name).contains_key(n));
            assert(tables[j - 1].lock_of(n) == tables[0].lock_of(n));
        }
    }
}

} // verus!
