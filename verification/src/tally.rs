//! Counters keyed by a size, or by a (size, span) pair.

use vstd::prelude::*;

verus! {

/// Sum of the counts stored under key `k`.
pub open spec fn size_sum(entries: Seq<(usize, usize)>, k: usize) -> nat
    decreases entries.len(),
{
    if entries.len() == 0 {
        0
    } else {
        size_sum(entries.drop_last(), k) + if entries.last().0 == k {
            entries.last().1 as nat
        } else {
            0nat
        }
    }
}

/// Sum of the counts stored under key `k`.
pub open spec fn pair_sum(entries: Seq<((usize, usize), usize)>, k: (usize, usize)) -> nat
    decreases entries.len(),
{
    if entries.len() == 0 {
        0
    } else {
        pair_sum(entries.drop_last(), k) + if entries.last().0 == k {
            entries.last().1 as nat
        } else {
            0nat
        }
    }
}

proof fn lemma_size_sum_push(entries: Seq<(usize, usize)>, e: (usize, usize), k: usize)
    ensures
        size_sum(entries.push(e), k) == size_sum(entries, k) + if e.0 == k {
            e.1 as nat
        } else {
            0nat
        },
{
    assert(entries.push(e).drop_last() =~= entries);
}

proof fn lemma_size_sum_update(entries: Seq<(usize, usize)>, i: int, c: usize, k: usize)
    requires
        0 <= i < entries.len(),
        c == entries[i].1 + 1,
    ensures
        size_sum(entries.update(i, (entries[i].0, c)), k) == size_sum(entries, k) + if entries[i].0
            == k {
            1nat
        } else {
            0nat
        },
    decreases entries.len(),
{
    let u = entries.update(i, (entries[i].0, c));
    if i == entries.len() - 1 {
        assert(u.drop_last() =~= entries.drop_last());
    } else {
        lemma_size_sum_update(entries.drop_last(), i, c, k);
        assert(u.drop_last() =~= entries.drop_last().update(i, (entries[i].0, c)));
    }
}

proof fn lemma_size_sum_zero(entries: Seq<(usize, usize)>, k: usize)
    requires
        forall|j: int| 0 <= j < entries.len() ==> entries[j].0 != k,
    ensures
        size_sum(entries, k) == 0,
    decreases entries.len(),
{
    if entries.len() > 0 {
        lemma_size_sum_zero(entries.drop_last(), k);
    }
}

proof fn lemma_size_sum_pos(entries: Seq<(usize, usize)>, k: usize, j: int)
    requires
        0 <= j < entries.len(),
        entries[j].0 == k,
        forall|x: int| 0 <= x < entries.len() ==> entries[x].1 > 0,
    ensures
        size_sum(entries, k) > 0,
    decreases entries.len(),
{
    if j < entries.len() - 1 {
        lemma_size_sum_pos(entries.drop_last(), k, j);
    }
}

proof fn lemma_pair_sum_push(entries: Seq<((usize, usize), usize)>, e: ((usize, usize), usize), k: (usize, usize))
    ensures
        pair_sum(entries.push(e), k) == pair_sum(entries, k) + if e.0 == k {
            e.1 as nat
        } else {
            0nat
        },
{
    assert(entries.push(e).drop_last() =~= entries);
}

proof fn lemma_pair_sum_update(entries: Seq<((usize, usize), usize)>, i: int, c: usize, k: (usize, usize))
    requires
        0 <= i < entries.len(),
        c == entries[i].1 + 1,
    ensures
        pair_sum(entries.update(i, (entries[i].0, c)), k) == pair_sum(entries, k) + if entries[i].0
            == k {
            1nat
        } else {
            0nat
        },
    decreases entries.len(),
{
    let u = entries.update(i, (entries[i].0, c));
    if i == entries.len() - 1 {
        assert(u.drop_last() =~= entries.drop_last());
    } else {
        lemma_pair_sum_update(entries.drop_last(), i, c, k);
        assert(u.drop_last() =~= entries.drop_last().update(i, (entries[i].0, c)));
    }
}

proof fn lemma_pair_sum_zero(entries: Seq<((usize, usize), usize)>, k: (usize, usize))
    requires
        forall|j: int| 0 <= j < entries.len() ==> entries[j].0 != k,
    ensures
        pair_sum(entries, k) == 0,
    decreases entries.len(),
{
    if entries.len() > 0 {
        lemma_pair_sum_zero(entries.drop_last(), k);
    }
}

proof fn lemma_pair_sum_pos(entries: Seq<((usize, usize), usize)>, k: (usize, usize), j: int)
    requires
        0 <= j < entries.len(),
        entries[j].0 == k,
        forall|x: int| 0 <= x < entries.len() ==> entries[x].1 > 0,
    ensures
        pair_sum(entries, k) > 0,
    decreases entries.len(),
{
    if j < entries.len() - 1 {
        lemma_pair_sum_pos(entries.drop_last(), k, j);
    }
}

/// Counts keyed by a size. Keys are listed in order of first insertion.
pub struct SizeTally {
    entries: Vec<(usize, usize)>,
}

impl SizeTally {
    #[verifier::type_invariant]
    spec fn positive(&self) -> bool {
        &&& forall|x: int| 0 <= x < self.entries.len() ==> self.entries[x].1 > 0
        &&& forall|x: int, y: int|
            0 <= x < y < self.entries.len() ==> self.entries[x].0 != self.entries[y].0
    }

    /// The count stored for `k` (0 when `k` was never counted).
    pub closed spec fn count_of(&self, k: usize) -> nat {
        size_sum(self.entries@, k)
    }

    pub fn new() -> (t: Self)
        ensures
            forall|k: usize| t.count_of(k) == 0,
    {
        SizeTally { entries: Vec::new() }
    }

    /// The (key, count) entries.
    pub fn entries(&self) -> (r: &Vec<(usize, usize)>)
        ensures
            forall|k: usize| self.count_of(k) == size_sum(r@, k),
    {
        &self.entries
    }

    /// Whether no key has been counted.
    pub fn is_empty(&self) -> (b: bool)
        ensures
            b == forall|k: usize| self.count_of(k) == 0,
    {
        proof {
            use_type_invariant(self);
            if self.entries.len() > 0 {
                lemma_size_sum_pos(self.entries@, self.entries[0].0, 0);
                assert(self.count_of(self.entries[0].0) > 0);
            } else {
                assert forall|k: usize| self.count_of(k) == 0 by {
                    lemma_size_sum_zero(self.entries@, k);
                }
            }
        }
        self.entries.len() == 0
    }

    /// The count for `k`, or `None` when `k` was never counted.
    pub fn get(&self, k: usize) -> (r: Option<usize>)
        ensures
            r == if self.count_of(k) > 0 {
                Some(self.count_of(k) as usize)
            } else {
                None
            },
    {
        proof {
            use_type_invariant(self);
        }
        let mut i: usize = 0;
        while i < self.entries.len()
            invariant
                i <= self.entries.len(),
                forall|j: int| 0 <= j < i ==> self.entries[j].0 != k,
                forall|x: int| 0 <= x < self.entries.len() ==> self.entries[x].1 > 0,
                forall|x: int, y: int|
                    0 <= x < y < self.entries.len() ==> self.entries[x].0 != self.entries[y].0,
            decreases self.entries.len() - i,
        {
            if self.entries[i].0 == k {
                proof {
                    lemma_size_sum_pos(self.entries@, k, i as int);
                    lemma_first_key_sum(self.entries@, k, i as int);
                }
                return Some(self.entries[i].1);
            }
            i = i + 1;
        }
        proof {
            lemma_size_sum_zero(self.entries@, k);
        }
        None
    }

    /// Add one to the count of `k`.
    pub fn bump(&mut self, k: usize)
        requires
            old(self).count_of(k) < usize::MAX,
        ensures
            forall|k2: usize| #[trigger] final(self).count_of(k2) == old(self).count_of(k2) + if k2
                == k {
                1nat
            } else {
                0nat
            },
    {
        proof {
            use_type_invariant(&*self);
        }
        let mut i: usize = 0;
        while i < self.entries.len()
            invariant
                i <= self.entries.len(),
                self.entries@ == old(self).entries@,
                old(self).count_of(k) < usize::MAX,
                forall|j: int| 0 <= j < i ==> self.entries[j].0 != k,
                forall|x: int| 0 <= x < self.entries.len() ==> self.entries[x].1 > 0,
                forall|x: int, y: int|
                    0 <= x < y < self.entries.len() ==> self.entries[x].0 != self.entries[y].0,
            decreases self.entries.len() - i,
        {
            if self.entries[i].0 == k {
                let ghost e0 = self.entries@;
                proof {
                    lemma_first_key_sum(e0, k, i as int);
                    lemma_size_sum_pos(e0, k, i as int);
                }
                let c = self.entries[i].1 + 1;
                let mut entries = Vec::new();
                std::mem::swap(&mut entries, &mut self.entries);
                entries.set(i, (k, c));
                proof {
                    assert forall|k2: usize| #[trigger] size_sum(entries@, k2) == size_sum(e0, k2) + if k2 == k {
                        1nat
                    } else {
                        0nat
                    } by {
                        lemma_size_sum_update(e0, i as int, c, k2);
                        assert(entries@ == e0.update(i as int, (e0[i as int].0, c)));
                    }
                }
                self.entries = entries;
                return;
            }
            i = i + 1;
        }
        let ghost e0 = self.entries@;
        let mut entries = Vec::new();
        std::mem::swap(&mut entries, &mut self.entries);
        entries.push((k, 1));
        proof {
            assert forall|k2: usize| #[trigger] size_sum(entries@, k2) == size_sum(e0, k2) + if k2 == k {
                1nat
            } else {
                0nat
            } by {
                lemma_size_sum_push(e0, (k, 1), k2);
            }
        }
        self.entries = entries;
    }
}

/// When `j` is the only entry with key `k`, the sum under `k` is its count.
proof fn lemma_first_key_sum(entries: Seq<(usize, usize)>, k: usize, j: int)
    requires
        0 <= j < entries.len(),
        entries[j].0 == k,
        forall|x: int| 0 <= x < entries.len() && x != j ==> entries[x].0 != k,
    ensures
        size_sum(entries, k) == entries[j].1,
    decreases entries.len(),
{
    if j < entries.len() - 1 {
        lemma_first_key_sum(entries.drop_last(), k, j);
        assert(entries.last().0 != k);
    } else {
        lemma_size_sum_zero(entries.drop_last(), k);
    }
}

/// Counts keyed by a (size, span) pair. Keys are listed in order of first
/// insertion.
pub struct PairTally {
    entries: Vec<((usize, usize), usize)>,
}

impl PairTally {
    #[verifier::type_invariant]
    spec fn positive(&self) -> bool {
        &&& forall|x: int| 0 <= x < self.entries.len() ==> self.entries[x].1 > 0
        &&& forall|x: int, y: int|
            0 <= x < y < self.entries.len() ==> self.entries[x].0 != self.entries[y].0
    }

    /// The count stored for `k` (0 when `k` was never counted).
    pub closed spec fn count_of(&self, k: (usize, usize)) -> nat {
        pair_sum(self.entries@, k)
    }

    pub fn new() -> (t: Self)
        ensures
            forall|k: (usize, usize)| t.count_of(k) == 0,
    {
        PairTally { entries: Vec::new() }
    }

    /// The (key, count) entries.
    pub fn entries(&self) -> (r: &Vec<((usize, usize), usize)>)
        ensures
            forall|k: (usize, usize)| self.count_of(k) == pair_sum(r@, k),
    {
        &self.entries
    }

    /// Whether no key has been counted.
    pub fn is_empty(&self) -> (b: bool)
        ensures
            b == forall|k: (usize, usize)| self.count_of(k) == 0,
    {
        proof {
            use_type_invariant(self);
            if self.entries.len() > 0 {
                lemma_pair_sum_pos(self.entries@, self.entries[0].0, 0);
                assert(self.count_of(self.entries[0].0) > 0);
            } else {
                assert forall|k: (usize, usize)| self.count_of(k) == 0 by {
                    lemma_pair_sum_zero(self.entries@, k);
                }
            }
        }
        self.entries.len() == 0
    }

    /// The count for `k`, or `None` when `k` was never counted.
    pub fn get(&self, k: (usize, usize)) -> (r: Option<usize>)
        ensures
            r == if self.count_of(k) > 0 {
                Some(self.count_of(k) as usize)
            } else {
                None
            },
    {
        proof {
            use_type_invariant(self);
        }
        let mut i: usize = 0;
        while i < self.entries.len()
            invariant
                i <= self.entries.len(),
                forall|j: int| 0 <= j < i ==> self.entries[j].0 != k,
                forall|x: int| 0 <= x < self.entries.len() ==> self.entries[x].1 > 0,
                forall|x: int, y: int|
                    0 <= x < y < self.entries.len() ==> self.entries[x].0 != self.entries[y].0,
            decreases self.entries.len() - i,
        {
            let e = self.entries[i].0;
            if e.0 == k.0 && e.1 == k.1 {
                proof {
                    lemma_pair_sum_pos(self.entries@, k, i as int);
                    lemma_first_pair_sum(self.entries@, k, i as int);
                }
                return Some(self.entries[i].1);
            }
            i = i + 1;
        }
        proof {
            lemma_pair_sum_zero(self.entries@, k);
        }
        None
    }

    /// Add one to the count of `k`.
    pub fn bump(&mut self, k: (usize, usize))
        requires
            old(self).count_of(k) < usize::MAX,
        ensures
            forall|k2: (usize, usize)| #[trigger] final(self).count_of(k2) == old(self).count_of(k2)
                + if k2 == k {
                1nat
            } else {
                0nat
            },
    {
        proof {
            use_type_invariant(&*self);
        }
        let mut i: usize = 0;
        while i < self.entries.len()
            invariant
                i <= self.entries.len(),
                self.entries@ == old(self).entries@,
                old(self).count_of(k) < usize::MAX,
                forall|j: int| 0 <= j < i ==> self.entries[j].0 != k,
                forall|x: int| 0 <= x < self.entries.len() ==> self.entries[x].1 > 0,
                forall|x: int, y: int|
                    0 <= x < y < self.entries.len() ==> self.entries[x].0 != self.entries[y].0,
            decreases self.entries.len() - i,
        {
            let e = self.entries[i].0;
            if e.0 == k.0 && e.1 == k.1 {
                let ghost e0 = self.entries@;
                proof {
                    lemma_first_pair_sum(e0, k, i as int);
                    lemma_pair_sum_pos(e0, k, i as int);
                }
                let c = self.entries[i].1 + 1;
                let mut entries = Vec::new();
                std::mem::swap(&mut entries, &mut self.entries);
                entries.set(i, (k, c));
                proof {
                    assert forall|k2: (usize, usize)| #[trigger] pair_sum(entries@, k2) == pair_sum(e0, k2)
                        + if k2 == k {
                        1nat
                    } else {
                        0nat
                    } by {
                        lemma_pair_sum_update(e0, i as int, c, k2);
                        assert(entries@ == e0.update(i as int, (e0[i as int].0, c)));
                    }
                }
                self.entries = entries;
                return;
            }
            i = i + 1;
        }
        let ghost e0 = self.entries@;
        let mut entries = Vec::new();
        std::mem::swap(&mut entries, &mut self.entries);
        entries.push((k, 1));
        proof {
            assert forall|k2: (usize, usize)| #[trigger] pair_sum(entries@, k2) == pair_sum(e0, k2) + if k2
                == k {
                1nat
            } else {
                0nat
            } by {
                lemma_pair_sum_push(e0, (k, 1), k2);
            }
        }
        self.entries = entries;
    }
}

proof fn lemma_first_pair_sum(entries: Seq<((usize, usize), usize)>, k: (usize, usize), j: int)
    requires
        0 <= j < entries.len(),
        entries[j].0 == k,
        forall|x: int| 0 <= x < entries.len() && x != j ==> entries[x].0 != k,
    ensures
        pair_sum(entries, k) == entries[j].1,
    decreases entries.len(),
{
    if j < entries.len() - 1 {
        lemma_first_pair_sum(entries.drop_last(), k, j);
        assert(entries.last().0 != k);
    } else {
        lemma_pair_sum_zero(entries.drop_last(), k);
    }
}

} // verus!
