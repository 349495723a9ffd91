//! Disjoint-set union over person handles.

use vstd::prelude::*;
use crate::handles::{find_string, strings_view};

verus! {

/// Every element's representative is an element that represents itself.
pub open spec fn dsu_wf(m: Map<Seq<char>, Seq<char>>) -> bool {
    forall|k: Seq<char>| #[trigger] m.contains_key(k) ==> m.contains_key(m[k]) && m[m[k]] == m[k]
}

/// The partition after `make_set(h)`: `h` gets its own set unless present.
pub open spec fn dsu_make_set(m: Map<Seq<char>, Seq<char>>, h: Seq<char>) -> Map<Seq<char>, Seq<char>> {
    if m.contains_key(h) {
        m
    } else {
        m.insert(h, h)
    }
}

/// The representative `find(h)` returns: `h` itself when `h` is unknown.
pub open spec fn dsu_find(m: Map<Seq<char>, Seq<char>>, h: Seq<char>) -> Seq<char> {
    if m.contains_key(h) {
        m[h]
    } else {
        h
    }
}

/// The partition after `union(a, b)`: both get a set, then every element
/// represented by `b`'s representative is represented by `a`'s.
pub open spec fn dsu_union(m: Map<Seq<char>, Seq<char>>, a: Seq<char>, b: Seq<char>) -> Map<Seq<char>, Seq<char>> {
    let m1 = dsu_make_set(dsu_make_set(m, a), b);
    let ra = m1[a];
    let rb = m1[b];
    Map::new(|k: Seq<char>| m1.contains_key(k), |k: Seq<char>| if m1[k] == rb { ra } else { m1[k] })
}

/// Disjoint-set union over person handles. Its view maps each known handle
/// to the representative of its set.
pub struct Dsu {
    names: Vec<String>,
    rep: Vec<usize>,
}

impl Dsu {
    #[verifier::type_invariant]
    spec fn inv(&self) -> bool {
        &&& strings_view(self.names@).no_duplicates()
        &&& self.rep.len() == self.names.len()
        &&& forall|i: int| 0 <= i < self.rep.len() ==> #[trigger] self.rep[i] < self.rep.len()
        &&& forall|i: int| 0 <= i < self.rep.len() ==> self.rep[self.rep[i] as int] == self.rep[i]
    }

    spec fn index_of(&self, k: Seq<char>) -> int {
        choose|i: int| 0 <= i < self.names.len() && self.names[i]@ == k
    }

    /// Handle to representative.
    pub closed spec fn view(&self) -> Map<Seq<char>, Seq<char>> {
        Map::new(
            |k: Seq<char>| strings_view(self.names@).contains(k),
            |k: Seq<char>| self.names[self.rep[self.index_of(k)] as int]@,
        )
    }

    proof fn lemma_view_at(&self, i: int)
        requires
            self.inv(),
            0 <= i < self.names.len(),
        ensures
            self.view().contains_key(self.names[i]@),
            self.view()[self.names[i]@] == self.names[self.rep[i] as int]@,
    {
        assert(strings_view(self.names@)[i] == self.names[i]@);
        let j = self.index_of(self.names[i]@);
        assert(0 <= j < self.names.len() && self.names[j]@ == self.names[i]@);
        assert(strings_view(self.names@)[j] == strings_view(self.names@)[i]);
    }

    proof fn lemma_wf(&self)
        requires
            self.inv(),
        ensures
            dsu_wf(self.view()),
    {
        assert forall|k: Seq<char>| #[trigger] self.view().contains_key(k) implies self.view().contains_key(self.view()[k])
            && self.view()[self.view()[k]] == self.view()[k] by {
            let i = choose|i: int| 0 <= i < strings_view(self.names@).len() && strings_view(self.names@)[i] == k;
            assert(self.names[i]@ == k);
            self.lemma_view_at(i);
            self.lemma_view_at(self.rep[i] as int);
        }
    }

    /// An empty partition.
    pub fn new() -> (d: Self)
        ensures
            d.view() == Map::<Seq<char>, Seq<char>>::empty(),
            dsu_wf(d.view()),
    {
        let d = Dsu { names: Vec::new(), rep: Vec::new() };
        proof {
            assert(strings_view(d.names@) =~= Seq::<Seq<char>>::empty());
            assert(d.view() =~= Map::<Seq<char>, Seq<char>>::empty());
            use_type_invariant(&d);
            d.lemma_wf();
        }
        d
    }

    fn lookup(&self, h: &String) -> (r: Option<usize>)
        ensures
            match r {
                Some(i) => i < self.names.len() && self.names[i as int]@ == h@ && self.view().contains_key(h@)
                    && self.view()[h@] == self.names[self.rep[i as int] as int]@ && self.rep[i as int] < self.names.len(),
                None => !self.view().contains_key(h@),
            },
    {
        proof {
            use_type_invariant(self);
        }
        let r = find_string(&self.names, h);
        proof {
            if let Some(i) = r {
                self.lemma_view_at(i as int);
            }
        }
        r
    }

    /// Ensure `handle` has a set; a new handle gets its own singleton set.
    pub fn make_set(&mut self, handle: &str)
        ensures
            final(self).view() == dsu_make_set(old(self).view(), handle@),
            dsu_wf(final(self).view()),
    {
        let h = handle.to_owned();
        match self.lookup(&h) {
            Some(_) => {},
            None => {
                proof {
                    use_type_invariant(&*self);
                }
                let ghost old_view = self.view();
                let ghost names0 = self.names@;
                let ghost rep0 = self.rep@;
                let n = self.names.len();
                let mut taken = Dsu { names: Vec::new(), rep: Vec::new() };
                proof {
                    assert(strings_view(taken.names@) =~= Seq::<Seq<char>>::empty());
                }
                std::mem::swap(&mut taken, self);
                let Dsu { mut names, mut rep } = taken;
                assert(names@ == names0 && rep@ == rep0);
                names.push(h);
                rep.push(n);
                proof {
                    assert(strings_view(names@) =~= strings_view(names0).push(handle@));
                    assert(forall|i: int| 0 <= i < rep.len() ==> #[trigger] rep[i] < rep.len());
                }
                *self = Dsu { names, rep };
                proof {
                    use_type_invariant(&*self);
                    assert(self.view() =~= old_view.insert(handle@, handle@)) by {
                        assert forall|k: Seq<char>| #[trigger] self.view().contains_key(k) implies self.view()[k]
                            == old_view.insert(handle@, handle@)[k] by {
                            let i = choose|i: int| 0 <= i < strings_view(self.names@).len() && strings_view(self.names@)[i] == k;
                            assert(self.names[i]@ == k);
                            self.lemma_view_at(i);
                            if i < n {
                                assert(names0[i]@ == k);
                                assert(old_view.contains_key(k));
                                assert(old_view[k] == names0[rep0[i] as int]@) by {
                                    let j = choose|j: int| 0 <= j < names0.len() && names0[j]@ == k;
                                    assert(strings_view(names0)[j] == strings_view(names0)[i]);
                                }
                            }
                        }
                        assert forall|k: Seq<char>| old_view.insert(handle@, handle@).contains_key(k) implies #[trigger] self.view().contains_key(k) by {
                            if k != handle@ {
                                let i = choose|i: int| 0 <= i < strings_view(names0).len() && strings_view(names0)[i] == k;
                                assert(strings_view(self.names@)[i] == k);
                            } else {
                                assert(strings_view(self.names@)[n as int] == k);
                            }
                        }
                    }
                }
            },
        }
        proof {
            use_type_invariant(&*self);
            self.lemma_wf();
        }
    }

    /// The representative of `handle`'s set; `handle` itself when it has no
    /// set. The partition is unchanged.
    pub fn find(&mut self, handle: &str) -> (r: String)
        ensures
            final(self).view() == old(self).view(),
            r@ == dsu_find(old(self).view(), handle@),
            dsu_wf(final(self).view()),
    {
        proof {
            use_type_invariant(&*self);
            self.lemma_wf();
        }
        let h = handle.to_owned();
        match self.lookup(&h) {
            Some(i) => self.names[self.rep[i]].clone(),
            None => h,
        }
    }

    /// Merge the sets of `a` and `b` (creating them when needed). The
    /// merged set is represented by `a`'s representative.
    #[verifier::rlimit(40)]
    pub fn union(&mut self, a: &str, b: &str)
        ensures
            final(self).view() == dsu_union(old(self).view(), a@, b@),
            dsu_wf(final(self).view()),
    {
        self.make_set(a);
        self.make_set(b);
        let ha = a.to_owned();
        let hb = b.to_owned();
        let ia = self.lookup(&ha);
        let ib = self.lookup(&hb);
        proof {
            use_type_invariant(&*self);
        }
        match (ia, ib) {
            (Some(ia), Some(ib)) => {
                let ra = self.rep[ia];
                let rb = self.rep[ib];
                if ra != rb {
                    let ghost v0 = self.view();
                    let ghost rep0 = self.rep@;
                    let ghost names0 = self.names@;
                    let mut taken = Dsu { names: Vec::new(), rep: Vec::new() };
                    proof {
                        assert(strings_view(taken.names@) =~= Seq::<Seq<char>>::empty());
                    }
                    std::mem::swap(&mut taken, self);
                    let Dsu { names, mut rep } = taken;
                    assert(names@ == names0 && rep@ == rep0);
                    let mut i: usize = 0;
                    while i < rep.len()
                        invariant
                            i <= rep.len(),
                            rep.len() == rep0.len(),
                            ra < rep0.len(),
                            rb < rep0.len(),
                            rep0[ra as int] == ra,
                            forall|j: int| 0 <= j < rep.len() ==> rep[j] == if j < i && rep0[j] == rb { ra } else { rep0[j] },
                        decreases rep.len() - i,
                    {
                        if rep[i] == rb {
                            rep.set(i, ra);
                        }
                        i = i + 1;
                    }
                    proof {
                        assert forall|j: int| 0 <= j < rep.len() implies #[trigger] rep[j] < rep.len() by {
                            assert(rep0[j] < rep0.len());
                        }
                        assert forall|j: int| 0 <= j < rep.len() implies rep[rep[j] as int] == rep[j] by {
                            assert(rep0[rep0[j] as int] == rep0[j]);
                        }
                    }
                    *self = Dsu { names, rep };
                    proof {
                        use_type_invariant(&*self);
                        let m1 = v0;
                        assert forall|k: Seq<char>| #[trigger] self.view().contains_key(k) implies self.view()[k]
                            == (if m1[k] == m1[b@] { m1[a@] } else { m1[k] }) by {
                            let j = choose|j: int| 0 <= j < strings_view(self.names@).len() && strings_view(self.names@)[j] == k;
                            assert(self.names[j]@ == k);
                            self.lemma_view_at(j);
                            assert(m1[k] == self.names[rep0[j] as int]@) by {
                                let x = choose|x: int| 0 <= x < self.names.len() && self.names[x]@ == k;
                                assert(strings_view(self.names@)[x] == strings_view(self.names@)[j]);
                            }
                            // representatives are distinct names exactly when distinct positions
                            assert((self.names[rep0[j] as int]@ == self.names[rb as int]@) == (rep0[j] == rb)) by {
                                assert(strings_view(self.names@)[rep0[j] as int] == self.names[rep0[j] as int]@);
                                assert(strings_view(self.names@)[rb as int] == self.names[rb as int]@);
                            }
                        }
                        assert(self.view() =~= dsu_union(old(self).view(), a@, b@));
                    }
                }
            },
            _ => {},
        }
        proof {
            use_type_invariant(&*self);
            self.lemma_wf();
        }
    }
}

/// After `union(a, b)`, `a` and `b` have the same representative.
pub proof fn lemma_union_joins(m: Map<Seq<char>, Seq<char>>, a: Seq<char>, b: Seq<char>)
    requires
        dsu_wf(m),
    ensures
        dsu_find(dsu_union(m, a, b), a) == dsu_find(dsu_union(m, a, b), b),
{
}

/// `union` never separates elements that shared a representative.
pub proof fn lemma_union_keeps_sets(m: Map<Seq<char>, Seq<char>>, a: Seq<char>, b: Seq<char>, x: Seq<char>, y: Seq<char>)
    requires
        dsu_wf(m),
        m.contains_key(x),
        m.contains_key(y),
        m[x] == m[y],
    ensures
        dsu_find(dsu_union(m, a, b), x) == dsu_find(dsu_union(m, a, b), y),
{
}

/// `union(a, b)` joins only the sets of `a` and `b`: two elements that end
/// up together were together before, or each was with `a` or with `b`.
pub proof fn lemma_union_only_merges(m: Map<Seq<char>, Seq<char>>, a: Seq<char>, b: Seq<char>, x: Seq<char>, y: Seq<char>)
    requires
        dsu_wf(m),
        dsu_union(m, a, b).contains_key(x),
        dsu_union(m, a, b).contains_key(y),
        dsu_find(dsu_union(m, a, b), x) == dsu_find(dsu_union(m, a, b), y),
    ensures
        ({
            let m1 = dsu_make_set(dsu_make_set(m, a), b);
            m1[x] == m1[y] || ((m1[x] == m1[a] || m1[x] == m1[b]) && (m1[y] == m1[a] || m1[y] == m1[b]))
        }),
{
}

/// `union` keeps the partition well formed.
pub proof fn lemma_union_wf(m: Map<Seq<char>, Seq<char>>, a: Seq<char>, b: Seq<char>)
    requires
        dsu_wf(m),
    ensures
        dsu_wf(dsu_union(m, a, b)),
{
    let m1 = dsu_make_set(dsu_make_set(m, a), b);
    assert(dsu_wf(dsu_make_set(m, a)));
    assert(dsu_wf(m1));
}

/// `find` returns a representative: finding it again gives it back.
pub proof fn lemma_find_idempotent(m: Map<Seq<char>, Seq<char>>, h: Seq<char>)
    requires
        dsu_wf(m),
    ensures
        dsu_find(m, dsu_find(m, h)) == dsu_find(m, h),
{
}

impl Default for Dsu {
    /// An empty partition.
    fn default() -> (d: Self)
        ensures
            d.view() == Map::<Seq<char>, Seq<char>>::empty(),
            dsu_wf(d.view()),
    {
        Self::new()
    }
}

} // verus!
