//! A verified checker for declared lock orders.
//!
//! The ordering traits in [`crate::relation`] leave one obligation with the
//! programmer: the declared edges must form a directed acyclic graph, or the
//! trait bounds will happily accept acquisitions that deadlock at run time.
//! This module walks a declared edge list as plain data — each lock level
//! named by a number — and checks that obligation. It computes the
//! transitive closure of the declared edges, rejects cycles, and validates
//! whole acquisition sequences against the closure. None of this changes the
//! run-time model of the rest of the crate; it is a diagnostic for the
//! declaration site.
//!
//! A declared edge `(a, b)` means a lock at level `a` is acquired before a
//! lock at level `b`. The full order is reachability along declared edges,
//! captured by the spec function [`reaches`].

use vstd::prelude::*;

verus! {

broadcast use vstd::seq_lib::lemma_seq_contains_after_push;

/// True when the declared edge list holds the edge from `a` to `b`.
pub open spec fn has_edge(edges: Seq<(u64, u64)>, a: u64, b: u64) -> bool {
    edges.contains((a, b))
}

/// True when `p` steps only along declared edges.
pub open spec fn is_chain(edges: Seq<(u64, u64)>, p: Seq<u64>) -> bool {
    forall|i: int| 0 <= i < p.len() - 1 ==> has_edge(edges, #[trigger] p[i], p[i + 1])
}

/// True when some chain of one or more declared edges leads from `a` to `b`.
///
/// This is the order that the declared edges induce: level `b` may be
/// acquired while level `a` is held exactly when `reaches(edges, a, b)`.
pub open spec fn reaches(edges: Seq<(u64, u64)>, a: u64, b: u64) -> bool {
    exists|p: Seq<u64>|
        #[trigger] is_chain(edges, p) && p.len() >= 2 && p.first() == a && p.last() == b
}

/// A single declared edge is an ordering fact.
pub proof fn lemma_edge_reaches(edges: Seq<(u64, u64)>, a: u64, b: u64)
    requires
        has_edge(edges, a, b),
    ensures
        reaches(edges, a, b),
{
    let p = seq![a, b];
    assert(is_chain(edges, p));
    assert(p.first() == a && p.last() == b);
}

/// The induced order is transitive: chains concatenate.
pub proof fn lemma_reaches_trans(edges: Seq<(u64, u64)>, a: u64, b: u64, c: u64)
    requires
        reaches(edges, a, b),
        reaches(edges, b, c),
    ensures
        reaches(edges, a, c),
{
    let p = choose|p: Seq<u64>|
        #[trigger] is_chain(edges, p) && p.len() >= 2 && p.first() == a && p.last() == b;
    let q = choose|q: Seq<u64>|
        #[trigger] is_chain(edges, q) && q.len() >= 2 && q.first() == b && q.last() == c;
    let r = p + q.drop_first();
    assert forall|i: int| 0 <= i < r.len() - 1 implies #[trigger] has_edge(
        edges,
        r[i],
        r[i + 1],
    ) by {
        if i < p.len() - 1 {
            assert(has_edge(edges, p[i], p[i + 1]));
        } else if i == p.len() - 1 {
            assert(r[i] == p[p.len() - 1]);
            assert(r[i + 1] == q[1]);
            assert(has_edge(edges, q[0], q[1]));
        } else {
            let j = i - p.len() + 1;
            assert(r[i] == q[j]);
            assert(r[i + 1] == q[j + 1]);
            assert(has_edge(edges, q[j], q[j + 1]));
        }
    }
    assert(r.first() == a && r.last() == c);
    assert(is_chain(edges, r) && r.len() >= 2);
}

/// Extending an ordering fact by one declared edge.
pub proof fn lemma_reaches_step(edges: Seq<(u64, u64)>, a: u64, b: u64, c: u64)
    requires
        reaches(edges, a, b),
        has_edge(edges, b, c),
    ensures
        reaches(edges, a, c),
{
    lemma_edge_reaches(edges, b, c);
    lemma_reaches_trans(edges, a, b, c);
}

/// True when `x` occurs in the declared edge list, on either side.
pub open spec fn is_endpoint(edges: Seq<(u64, u64)>, x: u64) -> bool {
    exists|j: int| 0 <= j < edges.len() && ((#[trigger] edges[j]).0 == x || edges[j].1 == x)
}

/// True when `found` cannot be left by stepping along a declared edge.
pub open spec fn closed_under(edges: Seq<(u64, u64)>, found: Seq<u64>) -> bool {
    forall|u: u64, b: u64|
        found.contains(u) && #[trigger] has_edge(edges, u, b) ==> found.contains(b)
}

/// Walking a chain from `v` never leaves a closed set that holds all of
/// `v`'s direct successors.
proof fn lemma_chain_stays_in(
    edges: Seq<(u64, u64)>,
    found: Seq<u64>,
    v: u64,
    p: Seq<u64>,
    i: int,
)
    requires
        is_chain(edges, p),
        p.len() >= 2,
        p.first() == v,
        closed_under(edges, found),
        forall|b: u64| has_edge(edges, v, b) ==> found.contains(b),
        1 <= i < p.len(),
    ensures
        found.contains(p[i]),
    decreases i,
{
    if i == 1 {
        assert(has_edge(edges, p[0], p[1]));
    } else {
        lemma_chain_stays_in(edges, found, v, p, i - 1);
        assert(has_edge(edges, p[i - 1], p[i]));
    }
}

/// A closed set holding the direct successors of `v` holds everything
/// reachable from `v`.
proof fn lemma_closed_holds_reachable(edges: Seq<(u64, u64)>, found: Seq<u64>, v: u64)
    requires
        closed_under(edges, found),
        forall|b: u64| has_edge(edges, v, b) ==> found.contains(b),
    ensures
        forall|x: u64| reaches(edges, v, x) ==> found.contains(x),
{
    assert forall|x: u64| reaches(edges, v, x) implies found.contains(x) by {
        let p = choose|p: Seq<u64>|
            #[trigger] is_chain(edges, p) && p.len() >= 2 && p.first() == v && p.last() == x;
        lemma_chain_stays_in(edges, found, v, p, p.len() - 1);
    }
}

/// Whether `x` occurs in `v`.
fn vec_holds(v: &Vec<u64>, x: u64) -> (r: bool)
    ensures
        r == v@.contains(x),
{
    let mut i: usize = 0;
    while i < v.len()
        invariant
            i <= v@.len(),
            forall|j: int| 0 <= j < i ==> v@[j] != x,
        decreases v@.len() - i,
    {
        if v[i] == x {
            return true;
        }
        i += 1;
    }
    false
}

/// Whether the edge from `a` to `b` occurs in `edges`.
fn holds_edge(edges: &Vec<(u64, u64)>, a: u64, b: u64) -> (r: bool)
    ensures
        r == has_edge(edges@, a, b),
{
    let mut i: usize = 0;
    while i < edges.len()
        invariant
            i <= edges@.len(),
            forall|j: int| 0 <= j < i ==> #[trigger] edges@[j] != (a, b),
        decreases edges@.len() - i,
    {
        let e = edges[i];
        if e.0 == a && e.1 == b {
            assert(edges@[i as int] == (a, b));
            return true;
        }
        i += 1;
    }
    assert(!edges@.contains((a, b)));
    false
}

/// Pushing a fresh element keeps a sequence free of duplicates.
proof fn lemma_push_no_dup<A>(s: Seq<A>, x: A)
    requires
        s.no_duplicates(),
        !s.contains(x),
    ensures
        s.push(x).no_duplicates(),
{
    let t = s.push(x);
    assert forall|i: int, j: int|
        0 <= i < t.len() && 0 <= j < t.len() && i != j implies t[i] != t[j] by {
        if i < s.len() && j < s.len() {
            assert(t[i] == s[i] && t[j] == s[j]);
        } else if i == s.len() && j < s.len() {
            assert(t[j] == s[j] && s.contains(s[j]));
        } else if j == s.len() && i < s.len() {
            assert(t[i] == s[i] && s.contains(s[i]));
        }
    }
}

/// Collects every level that the declared edge list mentions, once each.
fn endpoints(edges: &Vec<(u64, u64)>) -> (r: Vec<u64>)
    ensures
        r@.no_duplicates(),
        forall|x: u64| r@.contains(x) <==> is_endpoint(edges@, x),
{
    let mut r: Vec<u64> = Vec::new();
    let mut i: usize = 0;
    while i < edges.len()
        invariant
            i <= edges@.len(),
            r@.no_duplicates(),
            forall|x: u64| r@.contains(x) ==> is_endpoint(edges@, x),
            forall|j: int|
                0 <= j < i ==> r@.contains((#[trigger] edges@[j]).0) && r@.contains(edges@[j].1),
        decreases edges@.len() - i,
    {
        let e = edges[i];
        if !vec_holds(&r, e.0) {
            r.push(e.0);
        }
        if !vec_holds(&r, e.1) {
            r.push(e.1);
        }
        assert(is_endpoint(edges@, e.0) && is_endpoint(edges@, e.1));
        i += 1;
    }
    r
}

/// Collects every level reachable from `v` along declared edges, once each.
///
/// `verts` must list every level the edge list mentions; it bounds the
/// search.
fn reach_from(edges: &Vec<(u64, u64)>, verts: &Vec<u64>, v: u64) -> (r: Vec<u64>)
    requires
        verts@.no_duplicates(),
        forall|x: u64| is_endpoint(edges@, x) ==> verts@.contains(x),
    ensures
        r@.no_duplicates(),
        forall|x: u64| r@.contains(x) <==> reaches(edges@, v, x),
{
    let mut found: Vec<u64> = Vec::new();
    let mut i: usize = 0;
    while i < edges.len()
        invariant
            i <= edges@.len(),
            found@.no_duplicates(),
            forall|x: u64| found@.contains(x) ==> reaches(edges@, v, x),
            forall|x: u64| found@.contains(x) ==> is_endpoint(edges@, x),
            forall|j: int|
                0 <= j < i && (#[trigger] edges@[j]).0 == v ==> found@.contains(edges@[j].1),
        decreases edges@.len() - i,
    {
        let e = edges[i];
        if e.0 == v && !vec_holds(&found, e.1) {
            proof {
                assert(edges@[i as int] == e);
                lemma_edge_reaches(edges@, v, e.1);
                lemma_push_no_dup(found@, e.1);
            }
            found.push(e.1);
        }
        i += 1;
    }
    assert forall|b: u64| has_edge(edges@, v, b) implies found@.contains(b) by {
        let j = choose|j: int| 0 <= j < edges@.len() && edges@[j] == (v, b);
        assert((edges@[j]).0 == v);
    }
    proof {
        lemma_found_fits(found@, verts@, edges@);
    }
    loop
        invariant
            verts@.no_duplicates(),
            forall|x: u64| is_endpoint(edges@, x) ==> verts@.contains(x),
            found@.no_duplicates(),
            forall|x: u64| found@.contains(x) ==> reaches(edges@, v, x),
            forall|x: u64| found@.contains(x) ==> is_endpoint(edges@, x),
            forall|b: u64| has_edge(edges@, v, b) ==> found@.contains(b),
            found@.len() <= verts@.len(),
        decreases verts@.len() - found@.len(),
    {
        let ghost start = found@;
        let mut added = false;
        let mut i: usize = 0;
        while i < edges.len()
            invariant
                i <= edges@.len(),
                found@.no_duplicates(),
                forall|x: u64| found@.contains(x) ==> reaches(edges@, v, x),
                forall|x: u64| found@.contains(x) ==> is_endpoint(edges@, x),
                forall|b: u64| has_edge(edges@, v, b) ==> found@.contains(b),
                forall|x: u64| start.contains(x) ==> found@.contains(x),
                !added ==> found@ == start,
                added ==> start.len() < found@.len(),
                forall|j: int|
                    0 <= j < i && start.contains((#[trigger] edges@[j]).0) ==> found@.contains(
                        edges@[j].1,
                    ),
            decreases edges@.len() - i,
        {
            let e = edges[i];
            if vec_holds(&found, e.0) && !vec_holds(&found, e.1) {
                proof {
                    assert(edges@[i as int] == e);
                    lemma_reaches_step(edges@, v, e.0, e.1);
                    lemma_push_no_dup(found@, e.1);
                }
                found.push(e.1);
                added = true;
            }
            i += 1;
        }
        if !added {
            proof {
                assert forall|u: u64, b: u64|
                    found@.contains(u) && #[trigger] has_edge(edges@, u, b)
                        implies found@.contains(b) by {
                    let j = choose|j: int| 0 <= j < edges@.len() && edges@[j] == (u, b);
                    assert(start.contains((edges@[j]).0));
                }
                lemma_closed_holds_reachable(edges@, found@, v);
            }
            return found;
        }
        proof {
            lemma_found_fits(found@, verts@, edges@);
        }
    }
}

/// A duplicate-free list of endpoints is no longer than the full list of
/// levels that the edge list mentions.
proof fn lemma_found_fits(found: Seq<u64>, verts: Seq<u64>, edges: Seq<(u64, u64)>)
    requires
        found.no_duplicates(),
        verts.no_duplicates(),
        forall|x: u64| found.contains(x) ==> is_endpoint(edges, x),
        forall|x: u64| is_endpoint(edges, x) ==> verts.contains(x),
    ensures
        found.len() <= verts.len(),
{
    broadcast use vstd::seq_lib::seq_to_set_is_finite;
    broadcast use vstd::set::group_set_axioms;

    found.unique_seq_to_set();
    verts.unique_seq_to_set();
    assert(found.to_set().subset_of(verts.to_set()));
    vstd::set_lib::lemma_len_subset(found.to_set(), verts.to_set());
}

/// Computes the transitive closure of the declared edge list: one edge for
/// every ordering fact that the declared edges induce, each exactly once.
///
/// This materialises as data the same closure that the hand-written
/// transitive impls of [`crate::relation::LockAfter`] materialise as trait
/// facts.
pub fn transitive_closure(edges: &Vec<(u64, u64)>) -> (r: Vec<(u64, u64)>)
    ensures
        r@.no_duplicates(),
        forall|a: u64, b: u64| r@.contains((a, b)) <==> reaches(edges@, a, b),
{
    let verts = endpoints(edges);
    let mut r: Vec<(u64, u64)> = Vec::new();
    let mut i: usize = 0;
    while i < verts.len()
        invariant
            i <= verts@.len(),
            verts@.no_duplicates(),
            forall|x: u64| verts@.contains(x) <==> is_endpoint(edges@, x),
            r@.no_duplicates(),
            forall|a: u64, b: u64| r@.contains((a, b)) ==> reaches(edges@, a, b),
            forall|j: int, b: u64|
                0 <= j < i && #[trigger] reaches(edges@, verts@[j], b) ==> r@.contains(
                    (verts@[j], b),
                ),
        decreases verts@.len() - i,
    {
        let v = verts[i];
        let rf = reach_from(edges, &verts, v);
        let mut k: usize = 0;
        while k < rf.len()
            invariant
                k <= rf@.len(),
                rf@.no_duplicates(),
                forall|x: u64| rf@.contains(x) <==> reaches(edges@, v, x),
                r@.no_duplicates(),
                forall|a: u64, b: u64| r@.contains((a, b)) ==> reaches(edges@, a, b),
                forall|j: int, b: u64|
                    0 <= j < i && #[trigger] reaches(edges@, verts@[j], b) ==> r@.contains(
                        (verts@[j], b),
                    ),
                forall|m: int| 0 <= m < k ==> r@.contains((v, #[trigger] rf@[m])),
            decreases rf@.len() - k,
        {
            let x = rf[k];
            if !holds_edge(&r, v, x) {
                proof {
                    assert(rf@.contains(x));
                    lemma_push_no_dup(r@, (v, x));
                }
                r.push((v, x));
            }
            k += 1;
        }
        assert forall|b: u64| reaches(edges@, v, b) implies r@.contains((v, b)) by {
            assert(rf@.contains(b));
            let m = choose|m: int| 0 <= m < rf@.len() && rf@[m] == b;
            assert(r@.contains((v, rf@[m])));
        }
        i += 1;
    }
    assert forall|a: u64, b: u64| reaches(edges@, a, b) implies r@.contains((a, b)) by {
        let p = choose|p: Seq<u64>|
            #[trigger] is_chain(edges@, p) && p.len() >= 2 && p.first() == a && p.last() == b;
        assert(has_edge(edges@, p[0], p[1]));
        let j = choose|j: int| 0 <= j < edges@.len() && edges@[j] == (a, p[1]);
        assert(is_endpoint(edges@, a));
        assert(verts@.contains(a));
        let m = choose|m: int| 0 <= m < verts@.len() && verts@[m] == a;
        assert(reaches(edges@, verts@[m], b));
    }
    r
}

/// Decides whether the declared edge list is acyclic.
///
/// Declaring a cyclic order is the one programmer error the ordering traits
/// cannot reject; this check detects it.
pub fn is_acyclic(edges: &Vec<(u64, u64)>) -> (r: bool)
    ensures
        r <==> (forall|v: u64| !reaches(edges@, v, v)),
{
    let c = transitive_closure(edges);
    let mut i: usize = 0;
    while i < c.len()
        invariant
            i <= c@.len(),
            forall|a: u64, b: u64| c@.contains((a, b)) <==> reaches(edges@, a, b),
            forall|j: int| 0 <= j < i ==> (#[trigger] c@[j]).0 != c@[j].1,
        decreases c@.len() - i,
    {
        let e = c[i];
        if e.0 == e.1 {
            proof {
                assert(c@[i as int] == e);
                assert(c@.contains((e.0, e.1)));
                assert(reaches(edges@, e.0, e.0));
            }
            return false;
        }
        i += 1;
    }
    assert forall|v: u64| !reaches(edges@, v, v) by {
        if reaches(edges@, v, v) {
            assert(c@.contains((v, v)));
            let j = choose|j: int| 0 <= j < c@.len() && c@[j] == (v, v);
        }
    }
    true
}

/// Decides whether a whole acquisition sequence follows the declared order:
/// every level is ordered after the one acquired just before it.
pub fn check_acquisition_order(edges: &Vec<(u64, u64)>, levels: &Vec<u64>) -> (r: bool)
    ensures
        r <==> (forall|k: int|
            0 <= k < levels@.len() - 1 ==> reaches(edges@, #[trigger] levels@[k], levels@[k + 1])),
{
    if levels.len() < 2 {
        return true;
    }
    let c = transitive_closure(edges);
    let mut i: usize = 0;
    while i < levels.len() - 1
        invariant
            levels@.len() >= 2,
            i <= levels@.len() - 1,
            forall|a: u64, b: u64| c@.contains((a, b)) <==> reaches(edges@, a, b),
            forall|k: int| 0 <= k < i ==> reaches(edges@, #[trigger] levels@[k], levels@[k + 1]),
        decreases levels@.len() - i,
    {
        if !holds_edge(&c, levels[i], levels[i + 1]) {
            assert(!reaches(edges@, levels@[i as int], levels@[i as int + 1]));
            return false;
        }
        i += 1;
    }
    true
}

/// Monotone acquisition: in a sequence whose consecutive levels follow the
/// declared order, every earlier level is ordered before every later one.
pub proof fn lemma_monotone_acquisition(edges: Seq<(u64, u64)>, levels: Seq<u64>, i: int, j: int)
    requires
        forall|k: int|
            0 <= k < levels.len() - 1 ==> reaches(edges, #[trigger] levels[k], levels[k + 1]),
        0 <= i < j < levels.len(),
    ensures
        reaches(edges, levels[i], levels[j]),
    decreases j - i,
{
    if j == i + 1 {
        assert(reaches(edges, levels[i], levels[i + 1]));
    } else {
        lemma_monotone_acquisition(edges, levels, i, j - 1);
        assert(reaches(edges, levels[j - 1], levels[j - 1 + 1]));
        lemma_reaches_trans(edges, levels[i], levels[j - 1], levels[j]);
    }
}

/// No reentry: under an acyclic declared order, a sequence whose consecutive
/// levels follow the declared order never revisits a level, so no call tree
/// holds two locks of one level.
pub proof fn lemma_no_reentry(edges: Seq<(u64, u64)>, levels: Seq<u64>)
    requires
        forall|v: u64| !reaches(edges, v, v),
        forall|k: int|
            0 <= k < levels.len() - 1 ==> reaches(edges, #[trigger] levels[k], levels[k + 1]),
    ensures
        levels.no_duplicates(),
{
    assert forall|i: int, j: int|
        0 <= i < levels.len() && 0 <= j < levels.len() && i != j implies levels[i]
        != levels[j] by {
        if i < j {
            lemma_monotone_acquisition(edges, levels, i, j);
            if levels[i] == levels[j] {
                assert(reaches(edges, levels[i], levels[i]));
            }
        } else {
            lemma_monotone_acquisition(edges, levels, j, i);
            if levels[i] == levels[j] {
                assert(reaches(edges, levels[j], levels[j]));
            }
        }
    }
}

/// Every chain over closure edges collapses to an ordering fact over the
/// original edges.
proof fn lemma_chain_collapses(edges: Seq<(u64, u64)>, c: Seq<(u64, u64)>, p: Seq<u64>, i: int)
    requires
        forall|a: u64, b: u64| c.contains((a, b)) ==> reaches(edges, a, b),
        is_chain(c, p),
        1 <= i < p.len(),
    ensures
        reaches(edges, p[0], p[i]),
    decreases i,
{
    if i == 1 {
        assert(has_edge(c, p[0], p[1]));
    } else {
        lemma_chain_collapses(edges, c, p, i - 1);
        assert(has_edge(c, p[i - 1], p[i - 1 + 1]));
        assert(reaches(edges, p[i - 1], p[i]));
        lemma_reaches_trans(edges, p[0], p[i - 1], p[i]);
    }
}

/// Closure idempotence: taking the closure's own edges as the declared list
/// induces exactly the ordering facts of the original list, so applying the
/// closure twice yields the closure itself.
pub proof fn lemma_closure_idempotent(edges: Seq<(u64, u64)>, c: Seq<(u64, u64)>)
    requires
        forall|a: u64, b: u64| c.contains((a, b)) <==> reaches(edges, a, b),
    ensures
        forall|a: u64, b: u64| reaches(c, a, b) <==> reaches(edges, a, b),
{
    assert forall|a: u64, b: u64| reaches(c, a, b) implies reaches(edges, a, b) by {
        let p = choose|p: Seq<u64>|
            #[trigger] is_chain(c, p) && p.len() >= 2 && p.first() == a && p.last() == b;
        lemma_chain_collapses(edges, c, p, p.len() - 1);
    }
    assert forall|a: u64, b: u64| reaches(edges, a, b) implies reaches(c, a, b) by {
        assert(c.contains((a, b)));
        lemma_edge_reaches(c, a, b);
    }
}

} // verus!
