//! The mathematical model of overlap queries: how many stored intervals
//! intersect a half-open query range, and the total over a whole query set.
//!
//! Engine contents are modelled as a `Multiset` of coordinate pairs,
//! because an engine is free to store its intervals in any order.

use crate::interval::{overlaps, Interval};
use vstd::multiset::Multiset;
use vstd::prelude::*;

verus! {

/// The predicate a stored pair must satisfy to match the query `[qs, qe)`.
pub open spec fn overlap_pred(qs: u32, qe: u32) -> spec_fn((u32, u32)) -> bool {
    |p: (u32, u32)| overlaps(p.0, p.1, qs, qe)
}

/// How many stored intervals overlap the half-open query `[qs, qe)`.
pub open spec fn overlap_count(m: Multiset<(u32, u32)>, qs: u32, qe: u32) -> nat {
    m.filter(overlap_pred(qs, qe)).len()
}

/// The summed match count of one query phase: one overlap query per
/// interval of `queries`, against contents `m`.
pub open spec fn total_count(queries: Seq<Interval>, m: Multiset<(u32, u32)>) -> nat
    decreases queries.len(),
{
    if queries.len() == 0 {
        0
    } else {
        total_count(queries.drop_last(), m) + overlap_count(
            m,
            queries.last().start,
            queries.last().stop,
        )
    }
}

/// Filtering distributes over inserting one element.
pub proof fn lemma_filter_insert<V>(m: Multiset<V>, f: spec_fn(V) -> bool, v: V)
    ensures
        f(v) ==> m.insert(v).filter(f) =~= m.filter(f).insert(v),
        !f(v) ==> m.insert(v).filter(f) =~= m.filter(f),
{
    broadcast use vstd::multiset::group_multiset_axioms;

}

/// A filtered multiset is no larger than the original.
pub proof fn lemma_filter_len_le<V>(m: Multiset<V>, f: spec_fn(V) -> bool)
    ensures
        m.filter(f).len() <= m.len(),
    decreases m.len(),
{
    broadcast use vstd::multiset::group_multiset_axioms;

    if m.len() == 0 {
        assert(m.filter(f) =~= Multiset::empty());
    } else {
        let v = m.choose();
        let rest = m.remove(v);
        assert(Multiset::singleton(v).subset_of(m));
        assert(rest.len() == m.len() - 1);
        lemma_filter_len_le(rest, f);
        assert(m =~= rest.insert(v));
        lemma_filter_insert(rest, f, v);
    }
}

/// One query can match at most every stored interval.
pub proof fn lemma_overlap_count_le(m: Multiset<(u32, u32)>, qs: u32, qe: u32)
    ensures
        overlap_count(m, qs, qe) <= m.len(),
{
    lemma_filter_len_le(m, overlap_pred(qs, qe));
}

/// A stored pair that overlaps the query contributes all its occurrences
/// to the match count.
pub proof fn lemma_overlap_count_contains(m: Multiset<(u32, u32)>, p: (u32, u32), qs: u32, qe: u32)
    requires
        m.contains(p),
        overlaps(p.0, p.1, qs, qe),
    ensures
        overlap_count(m, qs, qe) >= m.count(p),
        overlap_count(m, qs, qe) >= 1,
{
    broadcast use vstd::multiset::group_multiset_axioms;

    assert(m.filter(overlap_pred(qs, qe)).count(p) == m.count(p));
}

/// When every stored interval overlaps the query, the match count is the
/// whole contents.
pub proof fn lemma_overlap_count_all(m: Multiset<(u32, u32)>, qs: u32, qe: u32)
    requires
        forall|p: (u32, u32)| m.contains(p) ==> overlaps(p.0, p.1, qs, qe),
    ensures
        overlap_count(m, qs, qe) == m.len(),
{
    broadcast use vstd::multiset::group_multiset_axioms;

    assert forall|p: (u32, u32)|
        #[trigger] m.filter(overlap_pred(qs, qe)).count(p) == m.count(p) by {
        if m.count(p) > 0 {
            assert(m.contains(p));
        }
    }
    assert(m.filter(overlap_pred(qs, qe)) =~= m);
}

/// The total of a phase grows by the last query's own count.
pub proof fn lemma_total_count_push(queries: Seq<Interval>, m: Multiset<(u32, u32)>, q: Interval)
    ensures
        total_count(queries.push(q), m) == total_count(queries, m) + overlap_count(
            m,
            q.start,
            q.stop,
        ),
{
    assert(queries.push(q).drop_last() =~= queries);
    assert(queries.push(q).last() == q);
}

/// Every query that overlaps some stored interval contributes at least one
/// match; in particular, a query set whose intervals are all themselves
/// stored yields at least one match per query.
pub proof fn lemma_total_count_lower(queries: Seq<Interval>, m: Multiset<(u32, u32)>)
    requires
        forall|i: int|
            0 <= i < queries.len() ==> m.contains(#[trigger] queries[i].pair()) && queries[i].wf(),
    ensures
        total_count(queries, m) >= queries.len(),
    decreases queries.len(),
{
    if queries.len() == 0 {
    } else {
        let q = queries.last();
        assert(q == queries[queries.len() - 1]);
        lemma_total_count_lower(queries.drop_last(), m);
        lemma_overlap_count_contains(m, q.pair(), q.start, q.stop);
    }
}

/// A phase's total is at least any single member query's own count.
pub proof fn lemma_total_count_lower_member(
    queries: Seq<Interval>,
    m: Multiset<(u32, u32)>,
    i: int,
)
    requires
        0 <= i < queries.len(),
    ensures
        total_count(queries, m) >= overlap_count(m, queries[i].start, queries[i].stop),
    decreases queries.len(),
{
    if i == queries.len() - 1 {
    } else {
        lemma_total_count_lower_member(queries.drop_last(), m, i);
    }
}

} // verus!
