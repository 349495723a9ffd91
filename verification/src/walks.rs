//! Longest-walk layering over a directed graph given as an edge list.
//!
//! Nodes are `0..n`; `edges` is a list of `(from, to)` pairs. The layering
//! of a node is the length of the longest walk that ends at it, capped at a
//! bound. Walks may repeat nodes, so a node that lies on or below a cycle
//! reaches the cap.

use vstd::prelude::*;

verus! {

/// There is a walk of exactly `k` edges ending at node `j`.
pub open spec fn walk_ends_at(edges: Seq<(usize, usize)>, j: int, k: nat) -> bool
    decreases k,
{
    if k == 0 {
        true
    } else {
        exists|t: int|
            0 <= t < edges.len() && (#[trigger] edges[t]).1 == j && walk_ends_at(
                edges,
                edges[t].0 as int,
                (k - 1) as nat,
            )
    }
}

/// The largest `k <= bound` such that a walk of `k` edges ends at `j`.
pub open spec fn longest_walk_upto(edges: Seq<(usize, usize)>, j: int, bound: nat) -> nat
    decreases bound,
{
    if bound == 0 {
        0
    } else if walk_ends_at(edges, j, bound) {
        bound
    } else {
        longest_walk_upto(edges, j, (bound - 1) as nat)
    }
}

pub open spec fn edges_within(edges: Seq<(usize, usize)>, n: nat) -> bool {
    forall|t: int| 0 <= t < edges.len() ==> (#[trigger] edges[t]).0 < n && edges[t].1 < n
}

/// One relaxation step: one more than `x`, but never above `cap`.
pub open spec fn bump(x: int, cap: int) -> int {
    if x + 1 < cap {
        x + 1
    } else {
        cap
    }
}

/// If a value `v <= bound` is witnessed by a walk and no longer walk up to
/// `bound` exists, then it is the longest walk up to `bound`.
proof fn lemma_longest_is(edges: Seq<(usize, usize)>, j: int, bound: nat, v: nat)
    requires
        v <= bound,
        walk_ends_at(edges, j, v),
        forall|k: nat| v < k <= bound ==> !walk_ends_at(edges, j, k),
    ensures
        longest_walk_upto(edges, j, bound) == v,
    decreases bound,
{
    if bound == 0 {
    } else if bound == v {
    } else {
        lemma_longest_is(edges, j, (bound - 1) as nat, v);
    }
}

/// At a fixpoint of relaxation every walk of length `k <= cap` is covered.
proof fn lemma_fixpoint_complete(edges: Seq<(usize, usize)>, g: Seq<usize>, cap: nat, j: int, k: nat)
    requires
        edges_within(edges, g.len() as nat),
        0 <= j < g.len(),
        k <= cap,
        walk_ends_at(edges, j, k),
        forall|t: int|
            0 <= t < edges.len() ==> g[(#[trigger] edges[t]).1 as int] >= bump(
                g[edges[t].0 as int] as int,
                cap as int,
            ),
    ensures
        g[j] >= k,
    decreases k,
{
    if k > 0 {
        let t = choose|t: int|
            0 <= t < edges.len() && (#[trigger] edges[t]).1 == j && walk_ends_at(
                edges,
                edges[t].0 as int,
                (k - 1) as nat,
            );
        let p = edges[t].0 as int;
        lemma_fixpoint_complete(edges, g, cap, p, (k - 1) as nat);
    }
}

/// A full relaxation round extends coverage of walks by one edge.
proof fn lemma_round_complete(
    edges: Seq<(usize, usize)>,
    g0: Seq<usize>,
    g: Seq<usize>,
    cap: nat,
    round: nat,
)
    requires
        edges_within(edges, g.len() as nat),
        g0.len() == g.len(),
        forall|j: int| 0 <= j < g.len() ==> g[j] >= g0[j],
        forall|j: int, k: nat|
            0 <= j < g.len() && k <= round && k <= cap && #[trigger] walk_ends_at(edges, j, k)
                ==> g0[j] >= k,
        forall|t: int|
            0 <= t < edges.len() ==> g[(#[trigger] edges[t]).1 as int] >= bump(
                g0[edges[t].0 as int] as int,
                cap as int,
            ),
    ensures
        forall|j: int, k: nat|
            0 <= j < g.len() && k <= round + 1 && k <= cap && #[trigger] walk_ends_at(edges, j, k)
                ==> g[j] >= k,
{
    assert forall|j: int, k: nat|
        0 <= j < g.len() && k <= round + 1 && k <= cap && #[trigger] walk_ends_at(
            edges,
            j,
            k,
        ) implies g[j] >= k by {
        if k > 0 {
            let t = choose|t: int|
                0 <= t < edges.len() && (#[trigger] edges[t]).1 == j && walk_ends_at(
                    edges,
                    edges[t].0 as int,
                    (k - 1) as nat,
                );
            let p = edges[t].0 as int;
            assert(g0[p] >= k - 1);
        } else {
            assert(g[j] >= g0[j]);
        }
    }
}

/// Every walk of `k` edges ending at `j` has a suffix of any shorter length
/// ending at `j`.
pub proof fn lemma_walk_prefix(edges: Seq<(usize, usize)>, j: int, k: nat, m: nat)
    requires
        walk_ends_at(edges, j, k),
        m <= k,
    ensures
        walk_ends_at(edges, j, m),
    decreases k,
{
    if m == 0 {
    } else if m == k {
    } else {
        let t = choose|t: int|
            0 <= t < edges.len() && (#[trigger] edges[t]).1 == j && walk_ends_at(
                edges,
                edges[t].0 as int,
                (k - 1) as nat,
            );
        lemma_walk_prefix(edges, edges[t].0 as int, (k - 1) as nat, (m - 1) as nat);
        assert(edges[t].1 == j);
    }
}

/// Longest-walk layering by iterated relaxation: at most `cap + 1` rounds
/// over the edge list, stopping early at a fixpoint. Each node gets the
/// length of the longest walk ending at it, capped at `cap`.
pub fn longest_walks(n: usize, edges: &Vec<(usize, usize)>, cap: usize) -> (g: Vec<usize>)
    requires
        edges_within(edges@, n as nat),
    ensures
        g.len() == n,
        forall|j: int| 0 <= j < n ==> g[j] == longest_walk_upto(edges@, j, cap as nat),
{
    let mut g: Vec<usize> = Vec::new();
    let mut i: usize = 0;
    while i < n
        invariant
            i <= n,
            g.len() == i,
            forall|j: int| 0 <= j < i ==> g[j] == 0,
        decreases n - i,
    {
        g.push(0);
        i = i + 1;
    }
    let ghost es = edges@;
    let mut round: u128 = 0;
    let mut done = false;
    while !done && round <= cap as u128
        invariant
            es == edges@,
            edges_within(es, n as nat),
            g.len() == n,
            forall|j: int| 0 <= j < n ==> g[j] <= cap && walk_ends_at(es, j, g[j] as nat),
            !done ==> forall|j: int, k: nat|
                0 <= j < n && k <= round && k <= cap && #[trigger] walk_ends_at(es, j, k) ==> g[j]
                    >= k,
            done ==> forall|t: int|
                0 <= t < es.len() ==> g[(#[trigger] es[t]).1 as int] >= bump(
                    g[es[t].0 as int] as int,
                    cap as int,
                ),
        decreases cap + 1 - round, if done { 0int } else { 1int },
    {
        let ghost g0 = g@;
        let mut changed = false;
        let mut t: usize = 0;
        while t < edges.len()
            invariant
                es == edges@,
                edges_within(es, n as nat),
                g.len() == n,
                g0.len() == n,
                t <= es.len(),
                forall|j: int| 0 <= j < n ==> g[j] <= cap && walk_ends_at(es, j, g[j] as nat),
                forall|j: int| 0 <= j < n ==> g[j] >= g0[j],
                !changed ==> g@ == g0,
                forall|u: int|
                    0 <= u < t ==> g[(#[trigger] es[u]).1 as int] >= bump(
                        g0[es[u].0 as int] as int,
                        cap as int,
                    ),
            decreases es.len() - t,
        {
            let (p, c) = edges[t];
            assert(es[t as int] == (p, c));
            let cand: usize = if cap > 0 && g[p] < cap - 1 {
                g[p] + 1
            } else {
                cap
            };
            if cand > g[c] {
                proof {
                    if cand == g[p as int] + 1 {
                        assert(walk_ends_at(es, p as int, (cand - 1) as nat));
                    } else {
                        lemma_walk_prefix(es, p as int, g[p as int] as nat, (cap - 1) as nat);
                    }
                    assert(walk_ends_at(es, c as int, cand as nat));
                }
                g.set(c, cand);
                changed = true;
            }
            t = t + 1;
        }
        if !changed {
            done = true;
        } else {
            proof {
                lemma_round_complete(es, g0, g@, cap as nat, round as nat);
            }
            round = round + 1;
        }
    }
    proof {
        assert forall|j: int| 0 <= j < n implies g[j] == longest_walk_upto(es, j, cap as nat) by {
            assert forall|k: nat| g[j] < k <= cap implies !walk_ends_at(es, j, k) by {
                if walk_ends_at(es, j, k) {
                    if done {
                        lemma_fixpoint_complete(es, g@, cap as nat, j, k);
                    }
                }
            }
            lemma_longest_is(es, j, cap as nat, g[j] as nat);
        }
    }
    g
}

} // verus!
