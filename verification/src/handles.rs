//! A set of person handles kept in insertion order.

use vstd::prelude::*;

verus! {

/// The abstract contents of a list of strings.
pub open spec fn strings_view(v: Seq<String>) -> Seq<Seq<char>> {
    v.map_values(|s: String| s@)
}

/// Position of `h` among `v`'s strings, if present.
pub fn find_string(v: &Vec<String>, h: &String) -> (r: Option<usize>)
    ensures
        match r {
            Some(i) => i < v.len() && v[i as int]@ == h@ && forall|j: int|
                0 <= j < i ==> v[j]@ != h@,
            None => !strings_view(v@).contains(h@),
        },
{
    let mut i: usize = 0;
    while i < v.len()
        invariant
            i <= v.len(),
            forall|j: int| 0 <= j < i ==> v[j]@ != h@,
        decreases v.len() - i,
    {
        if v[i] == *h {
            return Some(i);
        }
        i = i + 1;
    }
    proof {
        if strings_view(v@).contains(h@) {
            let j = choose|j: int| 0 <= j < strings_view(v@).len() && strings_view(v@)[j] == h@;
            assert(v[j]@ == h@);
        }
    }
    None
}

/// The predicate "differs from `h`".
pub open spec fn other_than(h: Seq<char>) -> spec_fn(Seq<char>) -> bool {
    |x: Seq<char>| x != h
}

/// A set of person handles. Each handle occurs once; handles keep the order
/// in which they were first inserted.
pub struct HandleSet {
    items: Vec<String>,
}

impl View for HandleSet {
    type V = Seq<Seq<char>>;

    closed spec fn view(&self) -> Seq<Seq<char>> {
        strings_view(self.items@)
    }
}

impl HandleSet {
    #[verifier::type_invariant]
    spec fn distinct(&self) -> bool {
        strings_view(self.items@).no_duplicates()
    }

    /// The empty set.
    pub fn new() -> (s: Self)
        ensures
            s@ == Seq::<Seq<char>>::empty(),
    {
        let s = HandleSet { items: Vec::new() };
        proof {
            assert(strings_view(s.items@) =~= Seq::<Seq<char>>::empty());
        }
        s
    }

    /// The handles, in insertion order.
    pub fn handles(&self) -> (r: &Vec<String>)
        ensures
            strings_view(r@) == self@,
            self@.no_duplicates(),
    {
        proof {
            use_type_invariant(self);
        }
        &self.items
    }

    pub fn len(&self) -> (n: usize)
        ensures
            n == self@.len(),
    {
        self.items.len()
    }

    /// Whether `h` is in the set.
    pub fn contains(&self, h: &str) -> (b: bool)
        ensures
            b == self@.contains(h@),
    {
        let key = h.to_owned();
        match find_string(&self.items, &key) {
            Some(i) => {
                proof {
                    assert(strings_view(self.items@)[i as int] == h@);
                }
                true
            },
            None => false,
        }
    }

    /// Add `h`; returns whether it was absent. A present handle keeps its
    /// position.
    pub fn insert(&mut self, h: String) -> (added: bool)
        ensures
            added == !old(self)@.contains(h@),
            final(self)@ == if added {
                old(self)@.push(h@)
            } else {
                old(self)@
            },
    {
        proof {
            use_type_invariant(&*self);
        }
        match find_string(&self.items, &h) {
            Some(i) => {
                proof {
                    assert(strings_view(self.items@)[i as int] == h@);
                }
                false
            },
            None => {
                let ghost before = self.items@;
                let mut items = Vec::new();
                std::mem::swap(&mut items, &mut self.items);
                items.push(h);
                proof {
                    assert(strings_view(items@) =~= strings_view(before).push(h@));
                }
                self.items = items;
                true
            },
        }
    }

    /// Remove `h`; returns whether it was present. The other handles keep
    /// their order.
    pub fn remove(&mut self, h: &str) -> (removed: bool)
        ensures
            removed == old(self)@.contains(h@),
            final(self)@ == old(self)@.filter(other_than(h@)),
    {
        proof {
            use_type_invariant(&*self);
        }
        let key = h.to_owned();
        let ghost before = strings_view(self.items@);
        let mut kept: Vec<String> = Vec::new();
        let mut found = false;
        let mut i: usize = 0;
        while i < self.items.len()
            invariant
                i <= self.items.len(),
                key@ == h@,
                before == strings_view(self.items@),
                before.no_duplicates(),
                strings_view(kept@) == before.take(i as int).filter(other_than(h@)),
                found == before.take(i as int).contains(h@),
            decreases self.items.len() - i,
        {
            proof {
                assert(before.take(i as int + 1) =~= before.take(i as int).push(before[i as int]));
                before.take(i as int).lemma_filter_push(before[i as int], other_than(h@));
            }
            assert(before[i as int] == self.items@[i as int]@);
            if self.items[i] == key {
                assert(before[i as int] == h@);
                assert(before.take(i as int + 1)[i as int] == h@);
                found = true;
                proof {
                    assert(strings_view(kept@) == before.take(i as int + 1).filter(
                        other_than(h@),
                    ));
                }
            } else {
                let ghost k0 = kept@;
                kept.push(self.items[i].clone());
                proof {
                    assert(strings_view(kept@) =~= strings_view(k0).push(before[i as int]));
                    assert(before.take(i as int + 1).contains(h@) == before.take(i as int).contains(h@)) by {
                        if before.take(i as int + 1).contains(h@) {
                            let j = choose|j: int| 0 <= j < i + 1 && #[trigger] before.take(i as int + 1)[j] == h@;
                            assert(j != i);
                            assert(before.take(i as int)[j] == h@);
                        }
                    }
                }
            }
            i = i + 1;
        }
        proof {
            assert(before.take(before.len() as int) =~= before);
            lemma_filter_no_dup(before, h@);
            assert(strings_view(kept@).no_duplicates());
        }
        self.items = kept;
        found
    }
}

proof fn lemma_filter_no_dup(s: Seq<Seq<char>>, h: Seq<char>)
    requires
        s.no_duplicates(),
    ensures
        s.filter(other_than(h)).no_duplicates(),
    decreases s.len(),
{
    broadcast use vstd::seq_lib::group_filter_ensures;
    if s.len() > 0 {
        let f = other_than(h);
        lemma_filter_no_dup(s.drop_last(), h);
        s.drop_last().lemma_filter_push(s.last(), f);
        assert(s =~= s.drop_last().push(s.last()));
        if f(s.last()) {
            assert(!s.drop_last().contains(s.last()));
            if s.drop_last().filter(f).contains(s.last()) {
                s.drop_last().lemma_filter_contains_rev(f, s.last());
            }
        }
    }
}

} // verus!
