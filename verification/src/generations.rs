//! Person-graph analysis over family records: family groups (connected
//! components of the "belongs to the same family" relation) and generation
//! layering (longest parent-to-child chains, capped).

use vstd::prelude::*;
use crate::handles::{find_string, strings_view, HandleSet};
use crate::types::{records_view, FamilyRecord, FamilyRecordView};
use crate::walks::{edges_within, longest_walk_upto, longest_walks, walk_ends_at};
use crate::tally::{PairTally, SizeTally};
use crate::text::{decimal, push_decimal, push_str};

verus! {

/// Maximum generation depth. Generation levels are capped at this bound so
/// that a cycle in the family graph cannot produce unbounded layering.
pub const MAX_GENERATION: usize = 50;

// ---------------------------------------------------------------------------
// Specification
// ---------------------------------------------------------------------------

/// `h` is a parent or a child in the family record.
pub open spec fn is_member(rec: FamilyRecordView, h: Seq<char>) -> bool {
    rec.0.contains(h) || rec.1.contains(h)
}

/// `label` gives the same value to any two existing persons (members of
/// `hs`) who belong to one family record.
pub open spec fn respects_families(
    recs: Seq<FamilyRecordView>,
    hs: Seq<Seq<char>>,
    label: spec_fn(Seq<char>) -> int,
) -> bool {
    forall|r: int, x: Seq<char>, y: Seq<char>|
        #![trigger is_member(recs[r], x), is_member(recs[r], y)]
        0 <= r < recs.len() && is_member(recs[r], x) && is_member(recs[r], y) && hs.contains(x)
            && hs.contains(y) ==> label(x) == label(y)
}

/// `x` and `y` are in one family group: every labelling that keeps the
/// members of each family together gives them the same label. This is the
/// connected-component relation of the person graph restricted to `hs`.
pub open spec fn same_family_group(
    recs: Seq<FamilyRecordView>,
    hs: Seq<Seq<char>>,
    x: Seq<char>,
    y: Seq<char>,
) -> bool {
    forall|label: spec_fn(Seq<char>) -> int|
        #[trigger] respects_families(recs, hs, label) ==> label(x) == label(y)
}

/// Person `hs[i]` is a parent and person `hs[j]` a child in some record.
pub open spec fn is_parent_of(recs: Seq<FamilyRecordView>, hs: Seq<Seq<char>>, i: int, j: int) -> bool {
    exists|r: int| 0 <= r < recs.len() && (#[trigger] recs[r]).0.contains(hs[i]) && recs[r].1.contains(hs[j])
}

/// There is a chain of `k` parent-to-child steps among existing persons that
/// ends at person `hs[j]`.
pub open spec fn ancestor_chain(recs: Seq<FamilyRecordView>, hs: Seq<Seq<char>>, j: int, k: nat) -> bool
    decreases k,
{
    if k == 0 {
        true
    } else {
        exists|i: int|
            0 <= i < hs.len() && #[trigger] is_parent_of(recs, hs, i, j) && ancestor_chain(
                recs,
                hs,
                i,
                (k - 1) as nat,
            )
    }
}

/// The generation level of person `hs[j]`: the length of the longest
/// ancestor chain ending at it, capped at `bound`.
pub open spec fn generation(recs: Seq<FamilyRecordView>, hs: Seq<Seq<char>>, j: int, bound: nat) -> nat
    decreases bound,
{
    if bound == 0 {
        0
    } else if ancestor_chain(recs, hs, j, bound) {
        bound
    } else {
        generation(recs, hs, j, (bound - 1) as nat)
    }
}

/// Number of indices `i < m` satisfying `p`.
pub open spec fn count_upto(m: nat, p: spec_fn(int) -> bool) -> nat
    decreases m,
{
    if m == 0 {
        0
    } else {
        count_upto((m - 1) as nat, p) + if p(m - 1) {
            1nat
        } else {
            0nat
        }
    }
}

/// Largest `v(i)` over indices `i < m` satisfying `p` (0 if there is none).
pub open spec fn max_upto(m: nat, p: spec_fn(int) -> bool, v: spec_fn(int) -> nat) -> nat
    decreases m,
{
    if m == 0 {
        0
    } else {
        let r = max_upto((m - 1) as nat, p, v);
        if p(m - 1) && v(m - 1) > r {
            v(m - 1)
        } else {
            r
        }
    }
}

/// Persons in the family group of `hs[i]`.
pub open spec fn in_group_of(recs: Seq<FamilyRecordView>, hs: Seq<Seq<char>>, i: int) -> spec_fn(int) -> bool {
    |j: int| same_family_group(recs, hs, hs[i], hs[j])
}

/// Size of the family group of `hs[i]`.
pub open spec fn group_size(recs: Seq<FamilyRecordView>, hs: Seq<Seq<char>>, i: int) -> nat {
    count_upto(hs.len(), in_group_of(recs, hs, i))
}

/// Generation levels as a function of the person's position.
pub open spec fn generation_levels(recs: Seq<FamilyRecordView>, hs: Seq<Seq<char>>) -> spec_fn(int) -> nat {
    |j: int| generation(recs, hs, j, MAX_GENERATION as nat)
}

/// Generation span of the family group of `hs[i]`: its largest generation
/// level plus one.
pub open spec fn group_span(recs: Seq<FamilyRecordView>, hs: Seq<Seq<char>>, i: int) -> nat {
    1 + max_upto(hs.len(), in_group_of(recs, hs, i), generation_levels(recs, hs))
}

/// `hs[i]` is the first person of its family group.
pub open spec fn leads_group(recs: Seq<FamilyRecordView>, hs: Seq<Seq<char>>, i: int) -> bool {
    forall|j: int| 0 <= j < i ==> !same_family_group(recs, hs, hs[j], hs[i])
}

/// Some member of the group of `hs[i]` ends an ancestor chain longer than
/// the number of persons, that is, the group's parent-to-child graph has a
/// cycle.
pub open spec fn group_has_cycle(recs: Seq<FamilyRecordView>, hs: Seq<Seq<char>>, i: int) -> bool {
    exists|j: int|
        0 <= j < hs.len() && #[trigger] same_family_group(recs, hs, hs[i], hs[j]) && ancestor_chain(
            recs,
            hs,
            j,
            hs.len(),
        )
}

// ---------------------------------------------------------------------------
// Family groups
// ---------------------------------------------------------------------------

proof fn lemma_same_group_symm(recs: Seq<FamilyRecordView>, hs: Seq<Seq<char>>, x: Seq<char>, y: Seq<char>)
    requires
        same_family_group(recs, hs, x, y),
    ensures
        same_family_group(recs, hs, y, x),
{
}

proof fn lemma_same_group_trans(
    recs: Seq<FamilyRecordView>,
    hs: Seq<Seq<char>>,
    x: Seq<char>,
    y: Seq<char>,
    z: Seq<char>,
)
    requires
        same_family_group(recs, hs, x, y),
        same_family_group(recs, hs, y, z),
    ensures
        same_family_group(recs, hs, x, z),
{
    assert forall|label: spec_fn(Seq<char>) -> int|
        #[trigger] respects_families(recs, hs, label) implies label(x) == label(z) by {
        assert(label(x) == label(y));
        assert(label(y) == label(z));
    }
}

/// Two existing members of one family record are in one group.
proof fn lemma_same_group_from_record(
    recs: Seq<FamilyRecordView>,
    hs: Seq<Seq<char>>,
    r: int,
    x: Seq<char>,
    y: Seq<char>,
)
    requires
        0 <= r < recs.len(),
        is_member(recs[r], x),
        is_member(recs[r], y),
        hs.contains(x),
        hs.contains(y),
    ensures
        same_family_group(recs, hs, x, y),
{
    assert forall|label: spec_fn(Seq<char>) -> int|
        #[trigger] respects_families(recs, hs, label) implies label(x) == label(y) by {
        assert(is_member(recs[r], x) && is_member(recs[r], y));
    }
}

/// Indices into `hs` of the handles of `v` that `hs` holds, in `v`'s order.
fn present_indices(v: &Vec<String>, hs: &Vec<String>) -> (idx: Vec<usize>)
    requires
        strings_view(hs@).no_duplicates(),
    ensures
        forall|k: int|
            0 <= k < idx.len() ==> idx[k] < hs.len() && strings_view(v@).contains(
                strings_view(hs@)[idx[k] as int],
            ),
        forall|i: int|
            0 <= i < hs.len() && strings_view(v@).contains(#[trigger] strings_view(hs@)[i])
                ==> idx@.contains(i as usize),
{
    let ghost hv = strings_view(hs@);
    let ghost vv = strings_view(v@);
    let mut idx: Vec<usize> = Vec::new();
    let mut a: usize = 0;
    while a < v.len()
        invariant
            hv == strings_view(hs@),
            vv == strings_view(v@),
            hv.no_duplicates(),
            a <= v.len(),
            forall|k: int| 0 <= k < idx.len() ==> idx[k] < hs.len() && vv.contains(hv[idx[k] as int]),
            forall|i: int, b: int|
                #![trigger vv[b], hv[i]]
                0 <= i < hs.len() && 0 <= b < a && vv[b] == hv[i] ==> idx@.contains(
                    i as usize,
                ),
        decreases v.len() - a,
    {
        match find_string(hs, &v[a]) {
            Some(i) => {
                proof {
                    assert(vv[a as int] == v[a as int]@);
                    assert(hv[i as int] == vv[a as int]);
                }
                let ghost idx0 = idx@;
                idx.push(i);
                proof {
                    assert(idx@ == idx0.push(i));
                    assert(idx@[idx.len() - 1] == i);
                    assert forall|i2: int, b: int|
                        #![trigger vv[b], hv[i2]]
                        0 <= i2 < hs.len() && 0 <= b < a + 1 && vv[b] == hv[i2] implies idx@.contains(
                        i2 as usize,
                    ) by {
                        if b == a {
                            assert(hv[i2] == hv[i as int]);
                            assert(i2 == i);
                        } else {
                            assert(idx0.contains(i2 as usize));
                            let k = choose|k: int| 0 <= k < idx0.len() && idx0[k] == i2 as usize;
                            assert(idx@[k] == i2 as usize);
                        }
                    }
                }
            },
            None => {
                proof {
                    assert(vv[a as int] == v[a as int]@);
                    assert forall|i2: int, b: int|
                        #![trigger vv[b], hv[i2]]
                        0 <= i2 < hs.len() && 0 <= b < a + 1 && vv[b] == hv[i2] implies idx@.contains(
                        i2 as usize,
                    ) by {
                        if b == a {
                            assert(hv.contains(hv[i2]));
                        }
                    }
                }
            },
        }
        a = a + 1;
    }
    proof {
        assert forall|i: int| 0 <= i < hs.len() && vv.contains(#[trigger] hv[i]) implies idx@.contains(
            i as usize,
        ) by {
            let b = choose|b: int| 0 <= b < vv.len() && vv[b] == hv[i];
            assert(vv[b] == hv[i]);
        }
    }
    idx
}

/// Relabel every position labelled `drop` with `keep`.
fn relabel(comp: &mut Vec<usize>, keep: usize, drop: usize)
    ensures
        final(comp).len() == old(comp).len(),
        forall|i: int|
            0 <= i < old(comp).len() ==> final(comp)[i] == if old(comp)[i] == drop {
                keep
            } else {
                old(comp)[i]
            },
{
    let mut i: usize = 0;
    while i < comp.len()
        invariant
            i <= comp.len(),
            comp.len() == old(comp).len(),
            forall|j: int|
                0 <= j < comp.len() ==> comp[j] == if j < i && old(comp)[j] == drop {
                    keep
                } else {
                    old(comp)[j]
                },
        decreases comp.len() - i,
    {
        if comp[i] == drop {
            comp.set(i, keep);
        }
        i = i + 1;
    }
}

/// Label each person of `hs` so that two persons share a label exactly when
/// they are in one family group. Labels are positions in `hs`.
fn group_labels(records: &[FamilyRecord], hs: &Vec<String>) -> (comp: Vec<usize>)
    requires
        strings_view(hs@).no_duplicates(),
    ensures
        comp.len() == hs.len(),
        forall|i: int| 0 <= i < comp.len() ==> comp[i] < hs.len(),
        forall|i: int, j: int|
            0 <= i < hs.len() && 0 <= j < hs.len() ==> (comp[i] == comp[j]) == same_family_group(
                records_view(records@),
                strings_view(hs@),
                strings_view(hs@)[i],
                strings_view(hs@)[j],
            ),
{
    let ghost recs = records_view(records@);
    let ghost hv = strings_view(hs@);
    let n = hs.len();
    let mut comp: Vec<usize> = Vec::new();
    let mut i: usize = 0;
    while i < n
        invariant
            n == hs.len(),
            i <= n,
            comp.len() == i,
            forall|j: int| 0 <= j < i ==> comp[j] == j,
        decreases n - i,
    {
        comp.push(i);
        i = i + 1;
    }
    let mut r: usize = 0;
    while r < records.len()
        invariant
            n == hs.len(),
            recs == records_view(records@),
            hv == strings_view(hs@),
            hv.no_duplicates(),
            r <= records.len(),
            comp.len() == n,
            forall|j: int| 0 <= j < n ==> comp[j] < n,
            forall|a: int, b: int|
                0 <= a < n && 0 <= b < n && comp[a] == comp[b] ==> same_family_group(
                    recs,
                    hv,
                    hv[a],
                    hv[b],
                ),
            forall|r2: int, a: int, b: int|
                #![trigger is_member(recs[r2], hv[a]), is_member(recs[r2], hv[b])]
                0 <= r2 < r && 0 <= a < n && 0 <= b < n && is_member(recs[r2], hv[a])
                    && is_member(recs[r2], hv[b]) ==> comp[a] == comp[b],
        decreases records.len() - r,
    {
        let rec = &records[r];
        assert(recs[r as int] == rec@);
        let mut members = present_indices(&rec.parent_handles, hs);
        let mut children = present_indices(&rec.child_handles, hs);
        let ghost m_par = members@;
        let ghost m_chi = children@;
        members.append(&mut children);
        assert(members@ == m_par + m_chi);
        assert forall|k: int| 0 <= k < members.len() implies members[k] < n && is_member(
            recs[r as int],
            #[trigger] hv[members[k] as int],
        ) by {
            if k >= m_par.len() {
                assert(members[k] == m_chi[k - m_par.len()]);
            }
        }
        assert forall|a: int| 0 <= a < n && is_member(recs[r as int], #[trigger] hv[a]) implies members@.contains(
            a as usize,
        ) by {
            if rec@.0.contains(hv[a]) {
                assert(m_par.contains(a as usize));
                let k = choose|k: int| 0 <= k < m_par.len() && m_par[k] == a as usize;
                assert(members@[k] == a as usize);
            } else {
                assert(m_chi.contains(a as usize));
                let k = choose|k: int| 0 <= k < m_chi.len() && m_chi[k] == a as usize;
                assert(members@[m_par.len() + k] == a as usize);
            }
        }
        if members.len() > 0 {
            let first = members[0];
            assert(first < n && is_member(recs[r as int], hv[members[0] as int]));
            let mut k: usize = 1;
            while k < members.len()
                invariant
                    n == hs.len(),
                    recs == records_view(records@),
                    hv == strings_view(hs@),
                    hv.no_duplicates(),
                    r < records.len(),
                    comp.len() == n,
                    first == members[0],
                    first < n,
                    1 <= k <= members.len(),
                    forall|k2: int|
                        0 <= k2 < members.len() ==> #[trigger] members[k2] < n && is_member(
                            recs[r as int],
                            hv[members[k2] as int],
                        ),
                    forall|j: int| 0 <= j < n ==> comp[j] < n,
                    forall|a: int, b: int|
                        0 <= a < n && 0 <= b < n && comp[a] == comp[b] ==> same_family_group(
                            recs,
                            hv,
                            hv[a],
                            hv[b],
                        ),
                    forall|r2: int, a: int, b: int|
                #![trigger is_member(recs[r2], hv[a]), is_member(recs[r2], hv[b])]
                        0 <= r2 < r && 0 <= a < n && 0 <= b < n && is_member(recs[r2], hv[a]) && is_member(recs[r2], hv[b]) ==> comp[a] == comp[b],
                    forall|k2: int| 0 <= k2 < k ==> comp[#[trigger] members[k2] as int] == comp[first as int],
                decreases members.len() - k,
            {
                let ghost c0 = comp@;
                let mk = members[k];
                assert(mk < n && is_member(recs[r as int], hv[members[k as int] as int]));
                let keep = comp[first];
                let drop = comp[mk];
                relabel(&mut comp, keep, drop);
                proof {
                    assert(hv.contains(hv[first as int]));
                    assert(hv.contains(hv[mk as int]));
                    lemma_same_group_from_record(recs, hv, r as int, hv[first as int], hv[mk as int]);
                    assert forall|a: int, b: int|
                        0 <= a < n && 0 <= b < n && comp[a] == comp[b] implies same_family_group(
                            recs,
                            hv,
                            hv[a],
                            hv[b],
                        ) by {
                        if c0[a] == c0[b] {
                        } else if c0[a] == drop {
                            // b had `keep`
                            assert(c0[b] == keep);
                            assert(same_family_group(recs, hv, hv[a], hv[mk as int]));
                            lemma_same_group_symm(recs, hv, hv[first as int], hv[mk as int]);
                            assert(same_family_group(recs, hv, hv[first as int], hv[b]));
                            lemma_same_group_trans(recs, hv, hv[a], hv[mk as int], hv[first as int]);
                            lemma_same_group_trans(recs, hv, hv[a], hv[first as int], hv[b]);
                        } else {
                            assert(c0[b] == drop);
                            assert(c0[a] == keep);
                            assert(same_family_group(recs, hv, hv[mk as int], hv[b]));
                            assert(same_family_group(recs, hv, hv[a], hv[first as int]));
                            lemma_same_group_trans(recs, hv, hv[a], hv[first as int], hv[mk as int]);
                            lemma_same_group_trans(recs, hv, hv[a], hv[mk as int], hv[b]);
                        }
                    }
                    assert forall|k2: int| 0 <= k2 < k + 1 implies comp[#[trigger] members[k2] as int]
                        == comp[first as int] by {
                        if k2 < k {
                            assert(c0[members[k2] as int] == c0[first as int]);
                            assert(members[k2] < n && is_member(recs[r as int], hv[members[k2] as int]));
                        } else {
                            assert(members[k2] == mk);
                        }
                    }
                }
                k = k + 1;
            }
            proof {
                assert forall|a: int, b: int|
                    #![trigger is_member(recs[r as int], hv[a]), is_member(recs[r as int], hv[b])]
                    0 <= a < n && 0 <= b < n && is_member(recs[r as int], hv[a]) && is_member(
                        recs[r as int],
                        hv[b],
                    ) implies comp[a] == comp[b] by {
                    let ka = choose|ka: int| 0 <= ka < members.len() && members@[ka] == a as usize;
                    let kb = choose|kb: int| 0 <= kb < members.len() && members@[kb] == b as usize;
                    assert(comp[members[ka] as int] == comp[first as int]);
                    assert(comp[members[kb] as int] == comp[first as int]);
                }
            }
        } else {
            proof {
                assert forall|a: int, b: int|
                    #![trigger is_member(recs[r as int], hv[a]), is_member(recs[r as int], hv[b])]
                    0 <= a < n && 0 <= b < n && is_member(recs[r as int], hv[a]) && is_member(
                        recs[r as int],
                        hv[b],
                    ) implies comp[a] == comp[b] by {
                    assert(members@.contains(a as usize));
                }
            }
        }
        r = r + 1;
    }
    proof {
        let c = comp@;
        let label = |h: Seq<char>|
            if hv.contains(h) {
                c[hv.index_of(h)] as int
            } else {
                -1
            };
        assert forall|a: int| 0 <= a < n implies hv.index_of(#[trigger] hv[a]) == a by {
            lemma_index_unique(hv, a);
        }
        assert(respects_families(recs, hv, label)) by {
            assert forall|r2: int, x: Seq<char>, y: Seq<char>|
                #![trigger is_member(recs[r2], x), is_member(recs[r2], y)]
                0 <= r2 < recs.len() && is_member(recs[r2], x) && is_member(recs[r2], y) && hv.contains(x)
                    && hv.contains(y) implies label(x) == label(y) by {
                let a = choose|a: int| 0 <= a < hv.len() && hv[a] == x;
                let b = choose|b: int| 0 <= b < hv.len() && hv[b] == y;
                assert(hv.index_of(hv[a]) == a);
                assert(hv.index_of(hv[b]) == b);
                assert(is_member(recs[r2], hv[a]) && is_member(recs[r2], hv[b]));
            }
        }
        assert forall|a: int, b: int|
            0 <= a < n && 0 <= b < n implies (comp[a] == comp[b]) == same_family_group(
                recs,
                hv,
                hv[a],
                hv[b],
            ) by {
            if same_family_group(recs, hv, hv[a], hv[b]) {
                assert(label(hv[a]) == label(hv[b]));
                assert(hv.contains(hv[a]));
                assert(hv.contains(hv[b]));
            }
        }
    }
    comp
}

/// In a sequence without duplicates, the first index of `s[a]` is `a`.
proof fn lemma_index_unique(s: Seq<Seq<char>>, a: int)
    requires
        s.no_duplicates(),
        0 <= a < s.len(),
    ensures
        s.index_of(s[a]) == a,
{
    assert(0 <= a < s.len() && s[a] == s[a]);
    let i = s.index_of(s[a]);
    assert(0 <= i < s.len() && s[i] == s[a]);
}

// ---------------------------------------------------------------------------
// Generation layering
// ---------------------------------------------------------------------------

/// The pair `(i, j)` occurs in the edge list.
pub open spec fn has_pair(e: Seq<(usize, usize)>, i: usize, j: usize) -> bool {
    exists|t: int| 0 <= t < e.len() && #[trigger] e[t] == (i, j)
}

proof fn lemma_has_pair_push(e: Seq<(usize, usize)>, x: (usize, usize))
    ensures
        forall|i: usize, j: usize| has_pair(e, i, j) ==> #[trigger] has_pair(e.push(x), i, j),
        has_pair(e.push(x), x.0, x.1),
{
    assert forall|i: usize, j: usize| has_pair(e, i, j) implies #[trigger] has_pair(e.push(x), i, j) by {
        let t = choose|t: int| 0 <= t < e.len() && #[trigger] e[t] == (i, j);
        assert(e.push(x)[t] == (i, j));
    }
    assert(e.push(x)[e.len() as int] == x);
}

/// The parent-to-child edges between existing persons, as index pairs.
fn parent_child_edges(records: &[FamilyRecord], hs: &Vec<String>) -> (e: Vec<(usize, usize)>)
    requires
        strings_view(hs@).no_duplicates(),
    ensures
        edges_within(e@, hs.len() as nat),
        forall|i: int, j: int|
            0 <= i < hs.len() && 0 <= j < hs.len() ==> (is_parent_of(
                records_view(records@),
                strings_view(hs@),
                i,
                j,
            ) <==> exists|t: int| 0 <= t < e.len() && #[trigger] e[t] == (i as usize, j as usize)),
{
    let ghost recs = records_view(records@);
    let ghost hv = strings_view(hs@);
    let n = hs.len();
    let mut e: Vec<(usize, usize)> = Vec::new();
    let mut r: usize = 0;
    while r < records.len()
        invariant
            n == hs.len(),
            recs == records_view(records@),
            hv == strings_view(hs@),
            hv.no_duplicates(),
            r <= records.len(),
            edges_within(e@, n as nat),
            forall|t: int| 0 <= t < e.len() ==> is_parent_of(recs, hv, (#[trigger] e[t]).0 as int, e[t].1 as int),
            forall|r2: int, i: int, j: int|
                #![trigger recs[r2].0.contains(hv[i]), recs[r2].1.contains(hv[j])]
                0 <= r2 < r && 0 <= i < n && 0 <= j < n && recs[r2].0.contains(hv[i])
                    && recs[r2].1.contains(hv[j]) ==> has_pair(e@, i as usize, j as usize),
        decreases records.len() - r,
    {
        let rec = &records[r];
        assert(recs[r as int] == rec@);
        let pi = present_indices(&rec.parent_handles, hs);
        let ci = present_indices(&rec.child_handles, hs);
        let mut a: usize = 0;
        while a < pi.len()
            invariant
                n == hs.len(),
                recs == records_view(records@),
                hv == strings_view(hs@),
                r < records.len(),
                recs[r as int] == rec@,
                a <= pi.len(),
                forall|k: int| 0 <= k < pi.len() ==> (#[trigger] pi[k]) < n && rec@.0.contains(hv[pi[k] as int]),
                forall|k: int| 0 <= k < ci.len() ==> (#[trigger] ci[k]) < n && rec@.1.contains(hv[ci[k] as int]),
                edges_within(e@, n as nat),
                forall|t: int| 0 <= t < e.len() ==> is_parent_of(recs, hv, (#[trigger] e[t]).0 as int, e[t].1 as int),
                forall|r2: int, i: int, j: int|
                    #![trigger recs[r2].0.contains(hv[i]), recs[r2].1.contains(hv[j])]
                    0 <= r2 < r && 0 <= i < n && 0 <= j < n && recs[r2].0.contains(hv[i])
                        && recs[r2].1.contains(hv[j]) ==> has_pair(e@, i as usize, j as usize),
                forall|a2: int, b2: int|
                    0 <= a2 < a && 0 <= b2 < ci.len() ==> has_pair(e@, #[trigger] pi[a2], #[trigger] ci[b2]),
            decreases pi.len() - a,
        {
            let mut b: usize = 0;
            while b < ci.len()
                invariant
                    n == hs.len(),
                    recs == records_view(records@),
                    hv == strings_view(hs@),
                    r < records.len(),
                    recs[r as int] == rec@,
                    a < pi.len(),
                    b <= ci.len(),
                    forall|k: int| 0 <= k < pi.len() ==> (#[trigger] pi[k]) < n && rec@.0.contains(hv[pi[k] as int]),
                    forall|k: int| 0 <= k < ci.len() ==> (#[trigger] ci[k]) < n && rec@.1.contains(hv[ci[k] as int]),
                    edges_within(e@, n as nat),
                    forall|t: int| 0 <= t < e.len() ==> is_parent_of(recs, hv, (#[trigger] e[t]).0 as int, e[t].1 as int),
                    forall|r2: int, i: int, j: int|
                        #![trigger recs[r2].0.contains(hv[i]), recs[r2].1.contains(hv[j])]
                        0 <= r2 < r && 0 <= i < n && 0 <= j < n && recs[r2].0.contains(hv[i])
                            && recs[r2].1.contains(hv[j]) ==> has_pair(e@, i as usize, j as usize),
                    forall|a2: int, b2: int|
                        0 <= a2 < a && 0 <= b2 < ci.len() ==> has_pair(e@, #[trigger] pi[a2], #[trigger] ci[b2]),
                    forall|b2: int| 0 <= b2 < b ==> has_pair(e@, pi[a as int], #[trigger] ci[b2]),
                decreases ci.len() - b,
            {
                let ghost e0 = e@;
                assert(pi[a as int] < n && ci[b as int] < n);
                e.push((pi[a], ci[b]));
                proof {
                    lemma_has_pair_push(e0, (pi[a as int], ci[b as int]));
                    assert(e@ == e0.push((pi[a as int], ci[b as int])));
                    assert(is_parent_of(recs, hv, pi[a as int] as int, ci[b as int] as int)) by {
                        assert(recs[r as int].0.contains(hv[pi[a as int] as int]));
                        assert(recs[r as int].1.contains(hv[ci[b as int] as int]));
                    }
                    assert forall|t: int| 0 <= t < e.len() implies is_parent_of(recs, hv, (#[trigger] e[t]).0 as int, e[t].1 as int) by {
                        if t < e0.len() {
                            assert(e[t] == e0[t]);
                        }
                    }
                }
                b = b + 1;
            }
            a = a + 1;
        }
        proof {
            assert forall|r2: int, i: int, j: int|
                #![trigger recs[r2].0.contains(hv[i]), recs[r2].1.contains(hv[j])]
                0 <= r2 < r + 1 && 0 <= i < n && 0 <= j < n && recs[r2].0.contains(hv[i])
                    && recs[r2].1.contains(hv[j]) implies has_pair(e@, i as usize, j as usize) by {
                if r2 == r {
                    assert(pi@.contains(i as usize));
                    assert(ci@.contains(j as usize));
                    let a2 = choose|a2: int| 0 <= a2 < pi.len() && pi[a2] == i as usize;
                    let b2 = choose|b2: int| 0 <= b2 < ci.len() && ci[b2] == j as usize;
                    assert(has_pair(e@, pi[a2], ci[b2]));
                }
            }
        }
        r = r + 1;
    }
    proof {
        assert forall|i: int, j: int|
            0 <= i < n && 0 <= j < n implies (is_parent_of(recs, hv, i, j) <==> exists|t: int|
                0 <= t < e.len() && #[trigger] e[t] == (i as usize, j as usize)) by {
            if is_parent_of(recs, hv, i, j) {
                let r2 = choose|r2: int| 0 <= r2 < recs.len() && (#[trigger] recs[r2]).0.contains(hv[i]) && recs[r2].1.contains(hv[j]);
                assert(recs[r2].0.contains(hv[i]) && recs[r2].1.contains(hv[j]));
                assert(has_pair(e@, i as usize, j as usize));
            }
            if exists|t: int| 0 <= t < e.len() && #[trigger] e[t] == (i as usize, j as usize) {
                let t = choose|t: int| 0 <= t < e.len() && #[trigger] e[t] == (i as usize, j as usize);
                assert(is_parent_of(recs, hv, e[t].0 as int, e[t].1 as int));
            }
        }
    }
    e
}

/// Walks over an edge list that holds exactly the parent-to-child pairs
/// are ancestor chains.
proof fn lemma_walks_are_chains(
    recs: Seq<FamilyRecordView>,
    hv: Seq<Seq<char>>,
    es: Seq<(usize, usize)>,
    j: int,
    k: nat,
)
    requires
        edges_within(es, hv.len() as nat),
        hv.len() <= usize::MAX,
        forall|i: int, j2: int|
            #![trigger is_parent_of(recs, hv, i, j2)]
            0 <= i < hv.len() && 0 <= j2 < hv.len() ==> (is_parent_of(recs, hv, i, j2) <==> exists|t: int|
                0 <= t < es.len() && #[trigger] es[t] == (i as usize, j2 as usize)),
        0 <= j < hv.len(),
    ensures
        walk_ends_at(es, j, k) == ancestor_chain(recs, hv, j, k),
    decreases k,
{
    if k > 0 {
        if walk_ends_at(es, j, k) {
            let t = choose|t: int|
                0 <= t < es.len() && (#[trigger] es[t]).1 == j && walk_ends_at(
                    es,
                    es[t].0 as int,
                    (k - 1) as nat,
                );
            let i = es[t].0 as int;
            assert(es[t] == (i as usize, j as usize));
            lemma_walks_are_chains(recs, hv, es, i, (k - 1) as nat);
            assert(is_parent_of(recs, hv, i, j));
        }
        if ancestor_chain(recs, hv, j, k) {
            let i = choose|i: int|
                0 <= i < hv.len() && #[trigger] is_parent_of(recs, hv, i, j) && ancestor_chain(
                    recs,
                    hv,
                    i,
                    (k - 1) as nat,
                );
            lemma_walks_are_chains(recs, hv, es, i, (k - 1) as nat);
            assert(is_parent_of(recs, hv, i, j));
            let t = choose|t: int| 0 <= t < es.len() && #[trigger] es[t] == (i as usize, j as usize);
            assert(es[t].1 == j);
            assert(es[t].0 == i);
        }
    }
}

proof fn lemma_longest_walk_is_generation(
    recs: Seq<FamilyRecordView>,
    hv: Seq<Seq<char>>,
    es: Seq<(usize, usize)>,
    j: int,
    bound: nat,
)
    requires
        edges_within(es, hv.len() as nat),
        hv.len() <= usize::MAX,
        forall|i: int, j2: int|
            #![trigger is_parent_of(recs, hv, i, j2)]
            0 <= i < hv.len() && 0 <= j2 < hv.len() ==> (is_parent_of(recs, hv, i, j2) <==> exists|t: int|
                0 <= t < es.len() && #[trigger] es[t] == (i as usize, j2 as usize)),
        0 <= j < hv.len(),
    ensures
        longest_walk_upto(es, j, bound) == generation(recs, hv, j, bound),
    decreases bound,
{
    if bound > 0 {
        lemma_walks_are_chains(recs, hv, es, j, bound);
        lemma_longest_walk_is_generation(recs, hv, es, j, (bound - 1) as nat);
    }
}

/// Generation levels of all persons of `hs` (positions as in `hs`).
fn generation_levels_of(records: &[FamilyRecord], hs: &Vec<String>, cap: usize) -> (g: Vec<usize>)
    requires
        strings_view(hs@).no_duplicates(),
    ensures
        g.len() == hs.len(),
        forall|j: int| 0 <= j < hs.len() ==> g[j] == generation(records_view(records@), strings_view(hs@), j, cap as nat),
{
    let edges = parent_child_edges(records, hs);
    let g = longest_walks(hs.len(), &edges, cap);
    proof {
        assert forall|j: int| 0 <= j < hs.len() implies g[j] == generation(records_view(records@), strings_view(hs@), j, cap as nat) by {
            lemma_longest_walk_is_generation(records_view(records@), strings_view(hs@), edges@, j, cap as nat);
        }
    }
    g
}

/// The generation level of every person in `all_handles`: the length of the
/// longest parent-to-child chain among existing persons that ends at the
/// person, capped at [`MAX_GENERATION`]. Persons in no family record are at
/// level 0; handles of family records that are not in `all_handles` are
/// skipped.
pub fn compute_generations(family_records: &[FamilyRecord], all_handles: &HandleSet) -> (r: Vec<(String, usize)>)
    ensures
        r.len() == all_handles@.len(),
        forall|j: int|
            0 <= j < r.len() ==> (#[trigger] r[j]).0@ == all_handles@[j] && r[j].1 == generation(
                records_view(family_records@),
                all_handles@,
                j,
                MAX_GENERATION as nat,
            ),
{
    let hs = all_handles.handles();
    let g = generation_levels_of(family_records, hs, MAX_GENERATION);
    let mut r: Vec<(String, usize)> = Vec::new();
    let mut j: usize = 0;
    while j < hs.len()
        invariant
            j <= hs.len(),
            g.len() == hs.len(),
            strings_view(hs@) == all_handles@,
            r.len() == j,
            forall|k: int| 0 <= k < hs.len() ==> g[k] == generation(records_view(family_records@), all_handles@, k, MAX_GENERATION as nat),
            forall|k: int|
                0 <= k < j ==> (#[trigger] r[k]).0@ == all_handles@[k] && r[k].1 == generation(
                    records_view(family_records@),
                    all_handles@,
                    k,
                    MAX_GENERATION as nat,
                ),
        decreases hs.len() - j,
    {
        r.push((hs[j].clone(), g[j]));
        j = j + 1;
    }
    r
}

// ---------------------------------------------------------------------------
// Family-group table
// ---------------------------------------------------------------------------

/// Persons counted in a (size, span) cell: group leaders whose group has
/// that size and span.
pub open spec fn cell_pred(recs: Seq<FamilyRecordView>, hs: Seq<Seq<char>>, s: nat, t: nat) -> spec_fn(int) -> bool {
    |x: int| leads_group(recs, hs, x) && group_size(recs, hs, x) == s && group_span(recs, hs, x) == t
}

/// Group leaders whose group has size `s`.
pub open spec fn size_pred(recs: Seq<FamilyRecordView>, hs: Seq<Seq<char>>, s: nat) -> spec_fn(int) -> bool {
    |x: int| leads_group(recs, hs, x) && group_size(recs, hs, x) == s
}

/// Group leaders whose group has a cycle.
pub open spec fn cyclic_pred(recs: Seq<FamilyRecordView>, hs: Seq<Seq<char>>) -> spec_fn(int) -> bool {
    |x: int| leads_group(recs, hs, x) && group_has_cycle(recs, hs, x)
}

/// Number of family groups of size `s` and generation span `t`.
pub open spec fn groups_with(recs: Seq<FamilyRecordView>, hs: Seq<Seq<char>>, s: nat, t: nat) -> nat {
    count_upto(hs.len(), cell_pred(recs, hs, s, t))
}

/// Number of family groups of size `s`.
pub open spec fn groups_of_size(recs: Seq<FamilyRecordView>, hs: Seq<Seq<char>>, s: nat) -> nat {
    count_upto(hs.len(), size_pred(recs, hs, s))
}

/// Number of family groups whose parent-to-child graph has a cycle.
pub open spec fn cyclic_groups(recs: Seq<FamilyRecordView>, hs: Seq<Seq<char>>) -> nat {
    count_upto(hs.len(), cyclic_pred(recs, hs))
}

/// The warnings of the table: one line when some family group is cyclic.
pub open spec fn cycle_warnings(recs: Seq<FamilyRecordView>, hs: Seq<Seq<char>>) -> Seq<Seq<char>> {
    if cyclic_groups(recs, hs) > 0 {
        seq![
            "WARNING: detected "@ + decimal(cyclic_groups(recs, hs)) + " cycle(s) in the family graph; generation layering may be approximate"@,
        ]
    } else {
        seq![]
    }
}

/// Cross-classification of family groups by size and generation span:
/// `cells` counts groups per (size, span), `totals` counts groups per size
/// (the row marginal).
pub struct FamilyGroupGenerationTable {
    pub cells: PairTally,
    pub totals: SizeTally,
}

impl FamilyGroupGenerationTable {
    /// Number of groups of `size` persons spanning `span` generations, or
    /// `None` when there is none.
    pub fn cell(&self, size: usize, span: usize) -> (r: Option<usize>)
        ensures
            r == if self.cells.count_of((size, span)) > 0 {
                Some(self.cells.count_of((size, span)) as usize)
            } else {
                None
            },
    {
        self.cells.get((size, span))
    }

    /// Number of groups of `size` persons, or `None` when there is none.
    pub fn row_total(&self, size: usize) -> (r: Option<usize>)
        ensures
            r == if self.totals.count_of(size) > 0 {
                Some(self.totals.count_of(size) as usize)
            } else {
                None
            },
    {
        self.totals.get(size)
    }

    /// Whether the table has no rows.
    pub fn is_empty(&self) -> (b: bool)
        ensures
            b == forall|s: usize| self.totals.count_of(s) == 0,
    {
        self.totals.is_empty()
    }
}

pub open spec fn label_is(c: Seq<usize>, l: int) -> spec_fn(int) -> bool {
    |j: int| c[j] == l
}

pub open spec fn nat_of(g: Seq<usize>) -> spec_fn(int) -> nat {
    |j: int| g[j] as nat
}

proof fn lemma_count_ext(m: nat, p: spec_fn(int) -> bool, q: spec_fn(int) -> bool)
    requires
        forall|j: int| 0 <= j < m ==> #[trigger] p(j) == q(j),
    ensures
        count_upto(m, p) == count_upto(m, q),
    decreases m,
{
    if m > 0 {
        lemma_count_ext((m - 1) as nat, p, q);
    }
}

proof fn lemma_count_le(m: nat, p: spec_fn(int) -> bool)
    ensures
        count_upto(m, p) <= m,
    decreases m,
{
    if m > 0 {
        lemma_count_le((m - 1) as nat, p);
    }
}

proof fn lemma_max_ext(m: nat, p: spec_fn(int) -> bool, q: spec_fn(int) -> bool, v: spec_fn(int) -> nat, w: spec_fn(int) -> nat)
    requires
        forall|j: int| 0 <= j < m ==> #[trigger] p(j) == q(j),
        forall|j: int| 0 <= j < m ==> #[trigger] v(j) == w(j),
    ensures
        max_upto(m, p, v) == max_upto(m, q, w),
    decreases m,
{
    if m > 0 {
        lemma_max_ext((m - 1) as nat, p, q, v, w);
    }
}

proof fn lemma_max_le(m: nat, p: spec_fn(int) -> bool, v: spec_fn(int) -> nat, b: nat)
    requires
        forall|j: int| 0 <= j < m ==> #[trigger] v(j) <= b,
    ensures
        max_upto(m, p, v) <= b,
    decreases m,
{
    if m > 0 {
        lemma_max_le((m - 1) as nat, p, v, b);
    }
}

proof fn lemma_generation_le(recs: Seq<FamilyRecordView>, hs: Seq<Seq<char>>, j: int, b: nat)
    ensures
        generation(recs, hs, j, b) <= b,
        generation(recs, hs, j, b) == b <==> ancestor_chain(recs, hs, j, b),
    decreases b,
{
    if b > 0 {
        lemma_generation_le(recs, hs, j, (b - 1) as nat);
    }
}

/// Per-label statistics: group size, largest generation level, and whether
/// some member ends an ancestor chain of length `n`.
fn label_stats(comp: &Vec<usize>, g: &Vec<usize>, deep: &Vec<usize>, n: usize) -> (r: (Vec<usize>, Vec<usize>, Vec<bool>))
    requires
        comp.len() == n,
        g.len() == n,
        deep.len() == n,
        forall|j: int| 0 <= j < n ==> comp[j] < n,
    ensures
        r.0.len() == n,
        r.1.len() == n,
        r.2.len() == n,
        forall|l: int| 0 <= l < n ==> r.0[l] == count_upto(n as nat, label_is(comp@, l)),
        forall|l: int| 0 <= l < n ==> r.1[l] == max_upto(n as nat, label_is(comp@, l), nat_of(g@)),
        forall|l: int|
            0 <= l < n ==> r.2[l] == exists|j: int| 0 <= j < n && comp[j] == l && #[trigger] deep[j] == n,
{
    let mut size_lab: Vec<usize> = Vec::new();
    let mut max_lab: Vec<usize> = Vec::new();
    let mut cyc_lab: Vec<bool> = Vec::new();
    let mut k: usize = 0;
    while k < n
        invariant
            k <= n,
            size_lab.len() == k,
            max_lab.len() == k,
            cyc_lab.len() == k,
            forall|l: int| 0 <= l < k ==> size_lab[l] == 0 && max_lab[l] == 0 && !cyc_lab[l],
        decreases n - k,
    {
        size_lab.push(0);
        max_lab.push(0);
        cyc_lab.push(false);
        k = k + 1;
    }
    let mut j: usize = 0;
    while j < n
        invariant
            comp.len() == n,
            g.len() == n,
            deep.len() == n,
            forall|x: int| 0 <= x < n ==> comp[x] < n,
            j <= n,
            size_lab.len() == n,
            max_lab.len() == n,
            cyc_lab.len() == n,
            forall|l: int| 0 <= l < n ==> size_lab[l] == count_upto(j as nat, label_is(comp@, l)),
            forall|l: int| 0 <= l < n ==> max_lab[l] == max_upto(j as nat, label_is(comp@, l), nat_of(g@)),
            forall|l: int|
                0 <= l < n ==> cyc_lab[l] == exists|x: int| 0 <= x < j && comp[x] == l && #[trigger] deep[x] == n,
        decreases n - j,
    {
        let l = comp[j];
        proof {
            lemma_count_le(j as nat, label_is(comp@, l as int));
        }
        let sz = size_lab[l] + 1;
        size_lab.set(l, sz);
        if g[j] > max_lab[l] {
            max_lab.set(l, g[j]);
        }
        if deep[j] == n {
            cyc_lab.set(l, true);
        }
        proof {
            assert forall|l2: int| 0 <= l2 < n implies cyc_lab[l2] == exists|x: int|
                0 <= x < j + 1 && comp[x] == l2 && #[trigger] deep[x] == n by {
                if l2 == l && deep[j as int] == n {
                    assert(comp[j as int] == l2 && deep[j as int] == n);
                }
            }
        }
        j = j + 1;
    }
    (size_lab, max_lab, cyc_lab)
}

/// Compute the family-group-size by generation-span table.
///
/// Family groups are the connected components of the persons of
/// `all_handles` linked by family records; handles of records that are not
/// in `all_handles` are skipped. Each group is counted once in the cell of
/// its (size, span) and in the row total of its size; the span of a group
/// is its largest generation level plus one. The second result counts
/// groups by size. The third holds one warning line when some group's
/// parent-to-child graph has a cycle, and is empty otherwise.
pub fn compute_generation_table(family_records: &[FamilyRecord], all_handles: &HandleSet) -> (r: (FamilyGroupGenerationTable, SizeTally, Vec<String>))
    ensures
        forall|s: usize, t: usize|
            #[trigger] r.0.cells.count_of((s, t)) == groups_with(
                records_view(family_records@),
                all_handles@,
                s as nat,
                t as nat,
            ),
        forall|s: usize|
            #[trigger] r.0.totals.count_of(s) == groups_of_size(records_view(family_records@), all_handles@, s as nat),
        forall|s: usize|
            #[trigger] r.1.count_of(s) == groups_of_size(records_view(family_records@), all_handles@, s as nat),
        strings_view(r.2@) == cycle_warnings(records_view(family_records@), all_handles@),
{
    let ghost recs = records_view(family_records@);
    let ghost hv = all_handles@;
    let hs = all_handles.handles();
    let n = hs.len();
    let comp = group_labels(family_records, hs);
    let g = generation_levels_of(family_records, hs, MAX_GENERATION);
    let deep = generation_levels_of(family_records, hs, n);
    let (size_lab, max_lab, cyc_lab) = label_stats(&comp, &g, &deep, n);
    proof {
        assert forall|i: int| 0 <= i < n implies group_size(recs, hv, i) == size_lab[comp[i] as int]
            && group_span(recs, hv, i) == max_lab[comp[i] as int] + 1
            && group_has_cycle(recs, hv, i) == cyc_lab[comp[i] as int]
            && max_lab[comp[i] as int] <= MAX_GENERATION
            && leads_group(recs, hv, i) == (forall|j: int| 0 <= j < i ==> comp[j] != comp[i]) by {
            lemma_count_ext(n as nat, in_group_of(recs, hv, i), label_is(comp@, comp[i] as int));
            assert forall|j: int| 0 <= j < n implies #[trigger] generation_levels(recs, hv)(j) == nat_of(g@)(j) by {}
            lemma_max_ext(n as nat, in_group_of(recs, hv, i), label_is(comp@, comp[i] as int), generation_levels(recs, hv), nat_of(g@));
            assert forall|j: int| 0 <= j < n implies #[trigger] nat_of(g@)(j) <= MAX_GENERATION by {
                lemma_generation_le(recs, hv, j, MAX_GENERATION as nat);
            }
            lemma_max_le(n as nat, label_is(comp@, comp[i] as int), nat_of(g@), MAX_GENERATION as nat);
            if group_has_cycle(recs, hv, i) {
                let j = choose|j: int|
                    0 <= j < hv.len() && #[trigger] same_family_group(recs, hv, hv[i], hv[j]) && ancestor_chain(recs, hv, j, hv.len());
                lemma_generation_le(recs, hv, j, n as nat);
                assert(comp[j] == comp[i] && deep[j] == n);
            }
            if cyc_lab[comp[i] as int] {
                let j = choose|j: int| 0 <= j < n && comp[j] == comp[i] && #[trigger] deep[j] == n;
                lemma_generation_le(recs, hv, j, n as nat);
                assert(same_family_group(recs, hv, hv[i], hv[j]));
            }
            if leads_group(recs, hv, i) {
                assert forall|j: int| 0 <= j < i implies comp[j] != comp[i] by {
                    assert(!same_family_group(recs, hv, hv[j], hv[i]));
                }
            }
        }
    }
    let mut seen: Vec<bool> = Vec::new();
    let mut k: usize = 0;
    while k < n
        invariant
            k <= n,
            seen.len() == k,
            forall|l: int| 0 <= l < k ==> !seen[l],
        decreases n - k,
    {
        seen.push(false);
        k = k + 1;
    }
    let mut cells = PairTally::new();
    let mut totals = SizeTally::new();
    let mut dist = SizeTally::new();
    let mut cycles: usize = 0;
    let mut i: usize = 0;
    while i < n
        invariant
            n == hs.len(),
            hv == strings_view(hs@),
            recs == records_view(family_records@),
            i <= n,
            comp.len() == n,
            size_lab.len() == n,
            max_lab.len() == n,
            cyc_lab.len() == n,
            seen.len() == n,
            forall|x: int| 0 <= x < n ==> comp[x] < n,
            forall|x: int| 0 <= x < n ==> group_size(recs, hv, x) == size_lab[comp[x] as int]
                && group_span(recs, hv, x) == max_lab[comp[x] as int] + 1
                && group_has_cycle(recs, hv, x) == cyc_lab[comp[x] as int]
                && max_lab[comp[x] as int] <= MAX_GENERATION
                && leads_group(recs, hv, x) == (forall|j: int| 0 <= j < x ==> comp[j] != comp[x]),
            forall|l: int| 0 <= l < n ==> seen[l] == exists|j: int| 0 <= j < i && #[trigger] comp[j] == l,
            forall|s: usize, t: usize| #[trigger] cells.count_of((s, t)) == count_upto(i as nat, cell_pred(recs, hv, s as nat, t as nat)),
            forall|s: usize| #[trigger] totals.count_of(s) == count_upto(i as nat, size_pred(recs, hv, s as nat)),
            forall|s: usize| #[trigger] dist.count_of(s) == count_upto(i as nat, size_pred(recs, hv, s as nat)),
            cycles == count_upto(i as nat, cyclic_pred(recs, hv)),
        decreases n - i,
    {
        let l = comp[i];
        proof {
            assert(leads_group(recs, hv, i as int) == !seen[l as int]) by {
                if seen[l as int] {
                    let j = choose|j: int| 0 <= j < i && #[trigger] comp[j] == l;
                    assert(comp[j] == comp[i as int]);
                } else {
                    assert forall|j: int| 0 <= j < i implies comp[j] != comp[i as int] by {
                        if comp[j] == l {
                            assert(exists|j2: int| 0 <= j2 < i && #[trigger] comp[j2] == l);
                        }
                    }
                }
            }
        }
        if !seen[l] {
            seen.set(l, true);
            let size = size_lab[l];
            let span = max_lab[l] + 1;
            proof {
                lemma_count_le(i as nat, cell_pred(recs, hv, size as nat, span as nat));
                lemma_count_le(i as nat, size_pred(recs, hv, size as nat));
                lemma_count_le(i as nat, cyclic_pred(recs, hv));
            }
            cells.bump((size, span));
            totals.bump(size);
            dist.bump(size);
            if cyc_lab[l] {
                cycles = cycles + 1;
            }
        }
        proof {
            assert forall|l2: int| 0 <= l2 < n implies seen[l2] == exists|j: int| 0 <= j < i + 1 && #[trigger] comp[j] == l2 by {
                if l2 == l {
                    assert(comp[i as int] == l2);
                }
            }
        }
        i = i + 1;
    }
    let mut warnings: Vec<String> = Vec::new();
    if cycles > 0 {
        let mut w = String::new();
        push_str(&mut w, "WARNING: detected ");
        push_decimal(&mut w, cycles as u64);
        push_str(&mut w, " cycle(s) in the family graph; generation layering may be approximate");
        warnings.push(w);
        proof {
            assert(strings_view(warnings@) =~= cycle_warnings(recs, hv));
        }
    } else {
        proof {
            assert(strings_view(warnings@) =~= cycle_warnings(recs, hv));
        }
    }
    (FamilyGroupGenerationTable { cells, totals }, dist, warnings)
}


// ---------------------------------------------------------------------------
// Laws of the layering and of the table
// ---------------------------------------------------------------------------

proof fn lemma_generation_has_chain(recs: Seq<FamilyRecordView>, hs: Seq<Seq<char>>, j: int, b: nat)
    ensures
        ancestor_chain(recs, hs, j, generation(recs, hs, j, b)),
    decreases b,
{
    if b > 0 && !ancestor_chain(recs, hs, j, b) {
        lemma_generation_has_chain(recs, hs, j, (b - 1) as nat);
    }
}

proof fn lemma_generation_at_least(recs: Seq<FamilyRecordView>, hs: Seq<Seq<char>>, j: int, k: nat, b: nat)
    requires
        ancestor_chain(recs, hs, j, k),
        k <= b,
    ensures
        generation(recs, hs, j, b) >= k,
    decreases b,
{
    if b > k && !ancestor_chain(recs, hs, j, b) {
        lemma_generation_at_least(recs, hs, j, k, (b - 1) as nat);
    }
}

/// Generation levels are capped: every level is at most
/// [`MAX_GENERATION`], so every family group spans between one and
/// `MAX_GENERATION + 1` generations.
pub proof fn lemma_generation_capped(recs: Seq<FamilyRecordView>, hs: Seq<Seq<char>>, i: int)
    ensures
        generation(recs, hs, i, MAX_GENERATION as nat) <= MAX_GENERATION,
        1 <= group_span(recs, hs, i) <= MAX_GENERATION + 1,
{
    lemma_generation_le(recs, hs, i, MAX_GENERATION as nat);
    assert forall|j: int| 0 <= j < hs.len() implies #[trigger] generation_levels(recs, hs)(j) <= MAX_GENERATION by {
        lemma_generation_le(recs, hs, j, MAX_GENERATION as nat);
    }
    lemma_max_le(hs.len(), in_group_of(recs, hs, i), generation_levels(recs, hs), MAX_GENERATION as nat);
}

/// A child sits below each of its parents: when a parent's level is under
/// the cap, the child's level is greater than the parent's.
pub proof fn lemma_child_below_parent(recs: Seq<FamilyRecordView>, hs: Seq<Seq<char>>, i: int, j: int)
    requires
        0 <= i < hs.len(),
        is_parent_of(recs, hs, i, j),
        generation(recs, hs, i, MAX_GENERATION as nat) < MAX_GENERATION,
    ensures
        generation(recs, hs, j, MAX_GENERATION as nat) > generation(recs, hs, i, MAX_GENERATION as nat),
{
    let g = generation(recs, hs, i, MAX_GENERATION as nat);
    lemma_generation_has_chain(recs, hs, i, MAX_GENERATION as nat);
    assert(ancestor_chain(recs, hs, j, g + 1));
    lemma_generation_at_least(recs, hs, j, g + 1, MAX_GENERATION as nat);
}

/// Number of groups of size `s` whose span is below `bound`, summed over the
/// spans: the cells `(s, 0)` to `(s, bound - 1)` of a table row, counted
/// among the first `m` persons.
pub open spec fn row_cells(recs: Seq<FamilyRecordView>, hs: Seq<Seq<char>>, s: nat, m: nat, bound: nat) -> nat
    decreases bound,
{
    if bound == 0 {
        0
    } else {
        row_cells(recs, hs, s, m, (bound - 1) as nat) + count_upto(m, cell_pred(recs, hs, s, (bound - 1) as nat))
    }
}

spec fn point_cells(recs: Seq<FamilyRecordView>, hs: Seq<Seq<char>>, s: nat, x: int, bound: nat) -> nat
    decreases bound,
{
    if bound == 0 {
        0
    } else {
        point_cells(recs, hs, s, x, (bound - 1) as nat) + if cell_pred(recs, hs, s, (bound - 1) as nat)(x) {
            1nat
        } else {
            0nat
        }
    }
}

proof fn lemma_point_cells(recs: Seq<FamilyRecordView>, hs: Seq<Seq<char>>, s: nat, x: int, bound: nat)
    ensures
        point_cells(recs, hs, s, x, bound) == if size_pred(recs, hs, s)(x) && group_span(recs, hs, x) < bound {
            1nat
        } else {
            0nat
        },
    decreases bound,
{
    if bound > 0 {
        lemma_point_cells(recs, hs, s, x, (bound - 1) as nat);
    }
}

proof fn lemma_row_cells_empty(recs: Seq<FamilyRecordView>, hs: Seq<Seq<char>>, s: nat, bound: nat)
    ensures
        row_cells(recs, hs, s, 0, bound) == 0,
    decreases bound,
{
    if bound > 0 {
        lemma_row_cells_empty(recs, hs, s, (bound - 1) as nat);
    }
}

proof fn lemma_row_cells_step(recs: Seq<FamilyRecordView>, hs: Seq<Seq<char>>, s: nat, m: nat, bound: nat)
    requires
        m > 0,
    ensures
        row_cells(recs, hs, s, m, bound) == row_cells(recs, hs, s, (m - 1) as nat, bound) + point_cells(
            recs,
            hs,
            s,
            m - 1,
            bound,
        ),
    decreases bound,
{
    if bound > 0 {
        lemma_row_cells_step(recs, hs, s, m, (bound - 1) as nat);
    }
}

proof fn lemma_row_split(recs: Seq<FamilyRecordView>, hs: Seq<Seq<char>>, s: nat, m: nat, bound: nat)
    requires
        forall|j: int| 0 <= j < m ==> #[trigger] group_span(recs, hs, j) < bound,
    ensures
        count_upto(m, size_pred(recs, hs, s)) == row_cells(recs, hs, s, m, bound),
    decreases m,
{
    if m == 0 {
        lemma_row_cells_empty(recs, hs, s, bound);
    } else {
        lemma_row_split(recs, hs, s, (m - 1) as nat, bound);
        lemma_row_cells_step(recs, hs, s, m, bound);
        lemma_point_cells(recs, hs, s, m - 1, bound);
        assert(group_span(recs, hs, m - 1) < bound);
    }
}

/// The total of a table row is the sum of its cells: the groups of size
/// `s` are the groups of size `s` and span `t`, summed over all spans `t`
/// up to `MAX_GENERATION + 1`.
pub proof fn lemma_row_total_is_sum_of_cells(recs: Seq<FamilyRecordView>, hs: Seq<Seq<char>>, s: nat)
    ensures
        groups_of_size(recs, hs, s) == row_cells(recs, hs, s, hs.len(), (MAX_GENERATION + 2) as nat),
{
    assert forall|j: int| 0 <= j < hs.len() implies #[trigger] group_span(recs, hs, j) < MAX_GENERATION + 2 by {
        lemma_generation_capped(recs, hs, j);
    }
    lemma_row_split(recs, hs, s, hs.len(), (MAX_GENERATION + 2) as nat);
}


/// A person who is no existing person's child is at generation level 0;
/// in particular an isolated person is.
pub proof fn lemma_no_parent_generation_zero(recs: Seq<FamilyRecordView>, hs: Seq<Seq<char>>, j: int, b: nat)
    requires
        forall|i: int| 0 <= i < hs.len() ==> !#[trigger] is_parent_of(recs, hs, i, j),
    ensures
        generation(recs, hs, j, b) == 0,
    decreases b,
{
    if b > 0 {
        assert(!ancestor_chain(recs, hs, j, b));
        lemma_no_parent_generation_zero(recs, hs, j, (b - 1) as nat);
    }
}


/// The predicate "is one of `hs`".
pub open spec fn in_handles(hs: Seq<Seq<char>>) -> spec_fn(Seq<char>) -> bool {
    |h: Seq<char>| hs.contains(h)
}

/// The family records with every handle that is not in `hs` removed.
pub open spec fn restrict_records(recs: Seq<FamilyRecordView>, hs: Seq<Seq<char>>) -> Seq<FamilyRecordView> {
    recs.map_values(|r: FamilyRecordView| (r.0.filter(in_handles(hs)), r.1.filter(in_handles(hs))))
}

proof fn lemma_filter_keeps(s: Seq<Seq<char>>, hs: Seq<Seq<char>>, x: Seq<char>)
    requires
        hs.contains(x),
    ensures
        s.filter(in_handles(hs)).contains(x) == s.contains(x),
{
    if s.filter(in_handles(hs)).contains(x) {
        s.lemma_filter_contains_rev(in_handles(hs), x);
    }
    if s.contains(x) {
        let i = choose|i: int| 0 <= i < s.len() && s[i] == x;
        s.lemma_filter_contains(in_handles(hs), i);
    }
}

proof fn lemma_restrict_parent(recs: Seq<FamilyRecordView>, hs: Seq<Seq<char>>, i: int, j: int)
    requires
        0 <= i < hs.len(),
        0 <= j < hs.len(),
    ensures
        is_parent_of(recs, hs, i, j) == is_parent_of(restrict_records(recs, hs), hs, i, j),
{
    let rr = restrict_records(recs, hs);
    assert(hs.contains(hs[i]));
    assert(hs.contains(hs[j]));
    if is_parent_of(recs, hs, i, j) {
        let r = choose|r: int| 0 <= r < recs.len() && (#[trigger] recs[r]).0.contains(hs[i]) && recs[r].1.contains(hs[j]);
        lemma_filter_keeps(recs[r].0, hs, hs[i]);
        lemma_filter_keeps(recs[r].1, hs, hs[j]);
        assert(rr[r].0.contains(hs[i]) && rr[r].1.contains(hs[j]));
    }
    if is_parent_of(rr, hs, i, j) {
        let r = choose|r: int| 0 <= r < rr.len() && (#[trigger] rr[r]).0.contains(hs[i]) && rr[r].1.contains(hs[j]);
        lemma_filter_keeps(recs[r].0, hs, hs[i]);
        lemma_filter_keeps(recs[r].1, hs, hs[j]);
        assert(recs[r].0.contains(hs[i]) && recs[r].1.contains(hs[j]));
    }
}

proof fn lemma_restrict_chain(recs: Seq<FamilyRecordView>, hs: Seq<Seq<char>>, j: int, k: nat)
    requires
        0 <= j < hs.len(),
    ensures
        ancestor_chain(recs, hs, j, k) == ancestor_chain(restrict_records(recs, hs), hs, j, k),
    decreases k,
{
    let rr = restrict_records(recs, hs);
    if k > 0 {
        if ancestor_chain(recs, hs, j, k) {
            let i = choose|i: int|
                0 <= i < hs.len() && #[trigger] is_parent_of(recs, hs, i, j) && ancestor_chain(recs, hs, i, (k - 1) as nat);
            lemma_restrict_parent(recs, hs, i, j);
            lemma_restrict_chain(recs, hs, i, (k - 1) as nat);
            assert(is_parent_of(rr, hs, i, j));
        }
        if ancestor_chain(rr, hs, j, k) {
            let i = choose|i: int|
                0 <= i < hs.len() && #[trigger] is_parent_of(rr, hs, i, j) && ancestor_chain(rr, hs, i, (k - 1) as nat);
            lemma_restrict_parent(recs, hs, i, j);
            lemma_restrict_chain(recs, hs, i, (k - 1) as nat);
            assert(is_parent_of(recs, hs, i, j));
        }
    }
}

/// Dangling references are skipped: removing from the family records every
/// handle that is not among the persons leaves every generation level as
/// it is.
pub proof fn lemma_dangling_skipped(recs: Seq<FamilyRecordView>, hs: Seq<Seq<char>>, j: int, b: nat)
    requires
        0 <= j < hs.len(),
    ensures
        generation(recs, hs, j, b) == generation(restrict_records(recs, hs), hs, j, b),
    decreases b,
{
    if b > 0 {
        lemma_restrict_chain(recs, hs, j, b);
        lemma_dangling_skipped(recs, hs, j, (b - 1) as nat);
    }
}

proof fn lemma_max_upto_props(m: nat, p: spec_fn(int) -> bool, v: spec_fn(int) -> nat)
    ensures
        forall|j: int| 0 <= j < m && #[trigger] p(j) ==> v(j) <= max_upto(m, p, v),
        max_upto(m, p, v) == 0 || exists|j: int| 0 <= j < m && #[trigger] p(j) && v(j) == max_upto(m, p, v),
    decreases m,
{
    if m > 0 {
        lemma_max_upto_props((m - 1) as nat, p, v);
    }
}

/// The span of a family group is one more than the largest generation
/// level of its members: every member's level plus one is at most the
/// span, and some member's level plus one equals it.
pub proof fn lemma_span_is_largest_generation(recs: Seq<FamilyRecordView>, hs: Seq<Seq<char>>, i: int)
    requires
        0 <= i < hs.len(),
    ensures
        forall|j: int|
            0 <= j < hs.len() && same_family_group(recs, hs, hs[i], hs[j]) ==> generation(
                recs,
                hs,
                j,
                MAX_GENERATION as nat,
            ) + 1 <= group_span(recs, hs, i),
        exists|j: int|
            0 <= j < hs.len() && same_family_group(recs, hs, hs[i], hs[j]) && generation(
                recs,
                hs,
                j,
                MAX_GENERATION as nat,
            ) + 1 == group_span(recs, hs, i),
{
    let p = in_group_of(recs, hs, i);
    let v = generation_levels(recs, hs);
    lemma_max_upto_props(hs.len(), p, v);
    assert forall|j: int|
        0 <= j < hs.len() && same_family_group(recs, hs, hs[i], hs[j]) implies generation(
        recs,
        hs,
        j,
        MAX_GENERATION as nat,
    ) + 1 <= group_span(recs, hs, i) by {
        assert(p(j));
        assert(v(j) == generation(recs, hs, j, MAX_GENERATION as nat));
    }
    if max_upto(hs.len(), p, v) == 0 {
        assert(same_family_group(recs, hs, hs[i], hs[i]));
        assert(p(i));
        assert(v(i) <= 0);
        assert(generation(recs, hs, i, MAX_GENERATION as nat) + 1 == group_span(recs, hs, i));
    } else {
        let j = choose|j: int| 0 <= j < hs.len() && #[trigger] p(j) && v(j) == max_upto(hs.len(), p, v);
        assert(same_family_group(recs, hs, hs[i], hs[j]));
    }
}


proof fn lemma_count_pos(m: nat, p: spec_fn(int) -> bool, l: int)
    requires
        0 <= l < m,
        p(l),
    ensures
        count_upto(m, p) >= 1,
    decreases m,
{
    if l < m - 1 {
        lemma_count_pos((m - 1) as nat, p, l);
    }
}

proof fn lemma_group_leader(recs: Seq<FamilyRecordView>, hs: Seq<Seq<char>>, i: int, k: int)
    requires
        0 <= k <= i < hs.len(),
        forall|j: int| 0 <= j < k ==> !same_family_group(recs, hs, hs[i], #[trigger] hs[j]),
    ensures
        exists|l: int| 0 <= l <= i && #[trigger] leads_group(recs, hs, l) && same_family_group(recs, hs, hs[i], hs[l]),
    decreases i - k,
{
    if same_family_group(recs, hs, hs[i], hs[k]) {
        assert forall|j: int| 0 <= j < k implies !same_family_group(recs, hs, hs[j], hs[k]) by {
            if same_family_group(recs, hs, hs[j], hs[k]) {
                lemma_same_group_symm(recs, hs, hs[j], hs[k]);
                lemma_same_group_trans(recs, hs, hs[i], hs[k], hs[j]);
            }
        }
        assert(leads_group(recs, hs, k));
    } else {
        assert(same_family_group(recs, hs, hs[i], hs[i]));
        lemma_group_leader(recs, hs, i, k + 1);
    }
}

/// Every family group is counted in the table under its size and its span,
/// and that span is one more than the largest generation level (as
/// `compute_generations` gives the levels) of the group's members: some
/// member's level plus one equals it and no member's exceeds it.
pub proof fn lemma_group_counted_under_span(recs: Seq<FamilyRecordView>, hs: Seq<Seq<char>>, i: int)
    requires
        0 <= i < hs.len(),
    ensures
        groups_with(recs, hs, group_size(recs, hs, i), group_span(recs, hs, i)) >= 1,
        forall|j: int|
            0 <= j < hs.len() && same_family_group(recs, hs, hs[i], hs[j]) ==> generation(
                recs,
                hs,
                j,
                MAX_GENERATION as nat,
            ) + 1 <= group_span(recs, hs, i),
        exists|j: int|
            0 <= j < hs.len() && same_family_group(recs, hs, hs[i], hs[j]) && generation(
                recs,
                hs,
                j,
                MAX_GENERATION as nat,
            ) + 1 == group_span(recs, hs, i),
{
    lemma_span_is_largest_generation(recs, hs, i);
    lemma_group_leader(recs, hs, i, 0);
    let l = choose|l: int| 0 <= l <= i && #[trigger] leads_group(recs, hs, l) && same_family_group(recs, hs, hs[i], hs[l]);
    assert forall|j: int| 0 <= j < hs.len() implies #[trigger] in_group_of(recs, hs, l)(j) == in_group_of(recs, hs, i)(j) by {
        lemma_same_group_symm(recs, hs, hs[i], hs[l]);
        if same_family_group(recs, hs, hs[l], hs[j]) {
            lemma_same_group_trans(recs, hs, hs[i], hs[l], hs[j]);
        }
        if same_family_group(recs, hs, hs[i], hs[j]) {
            lemma_same_group_trans(recs, hs, hs[l], hs[i], hs[j]);
        }
    }
    lemma_count_ext(hs.len(), in_group_of(recs, hs, l), in_group_of(recs, hs, i));
    lemma_max_ext(hs.len(), in_group_of(recs, hs, l), in_group_of(recs, hs, i), generation_levels(recs, hs), generation_levels(recs, hs));
    let s = group_size(recs, hs, i);
    let t = group_span(recs, hs, i);
    assert(cell_pred(recs, hs, s, t)(l));
    lemma_count_pos(hs.len(), cell_pred(recs, hs, s, t), l);
}

} // verus!
