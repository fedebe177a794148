//! The cache-oblivious tree engine: `coitrees`. That engine keeps
//! end-inclusive `i32` intervals, so this adapter converts the harness's
//! half-open `u32` intervals to closed form and proves that the
//! conversion preserves overlap counts.

use crate::backend::{all_stops_le, dataset_ok, IndexBackend, MAX_COORD};
use crate::counting::{lemma_filter_insert, overlap_count, overlap_pred};
use crate::interval::{all_wf, overlaps, pair_mset, pair_seq, Interval};
use vstd::multiset::Multiset;
use vstd::prelude::*;

verus! {

/// The end-inclusive form of a well-formed half-open pair.
pub open spec fn closed_pair(iv: Interval) -> (i32, i32) {
    (iv.start as i32, (iv.stop - 1) as i32)
}

/// The end-inclusive form of a whole dataset, in order.
pub open spec fn closed_seq(s: Seq<Interval>) -> Seq<(i32, i32)> {
    s.map_values(|iv: Interval| closed_pair(iv))
}

/// Non-empty intersection of the closed intervals `[p.0, p.1]` and
/// `[first, last]`.
pub open spec fn closed_overlaps(p: (i32, i32), first: i32, last: i32) -> bool {
    p.0 <= last && first <= p.1
}

pub open spec fn closed_pred(first: i32, last: i32) -> spec_fn((i32, i32)) -> bool {
    |p: (i32, i32)| closed_overlaps(p, first, last)
}

/// How many stored closed intervals intersect the closed query.
pub open spec fn closed_count(m: Multiset<(i32, i32)>, first: i32, last: i32) -> nat {
    m.filter(closed_pred(first, last)).len()
}

/// A built `coitrees` tree over the closed form of the dataset. The
/// tree type itself cannot be declared to the verifier — its index
/// parameter is bound by a trait of the engine crate — so this opaque
/// holder stands in for it, and what it stores is modelled by
/// `coitree_contents`.
#[verifier::external_body]
pub struct CoitreeInner {
    tree: coitrees::BasicCOITree<u32, u32>,
}

/// The closed coordinate pairs the wrapped tree stores.
pub uninterp spec fn coitree_contents(h: CoitreeInner) -> Multiset<(i32, i32)>;

/// Relies on coitrees::BasicCOITree::new: it stores exactly the given
/// end-inclusive intervals (reordered, which the multiset view does not
/// see), and panics only when the input size reaches its `u32` index
/// maximum.
#[verifier::external_body]
fn coitree_build(items: &Vec<(i32, i32)>) -> (r: CoitreeInner)
    requires
        items@.len() < 0xffff_ffff,
    ensures
        coitree_contents(r) == items@.to_multiset(),
{
    let nodes: Vec<coitrees::Interval<u32>> = items
        .iter()
        .map(|p| coitrees::Interval { first: p.0, last: p.1, metadata: 0 })
        .collect();
    CoitreeInner { tree: coitrees::IntervalTree::new(nodes.iter()) }
}

/// Relies on coitrees::BasicCOITree::query_count: the number of stored
/// intervals `p` with `p.0 <= last && first <= p.1`.
#[verifier::external_body]
fn coitree_query_count(h: &CoitreeInner, first: i32, last: i32) -> (r: u64)
    ensures
        r as nat == closed_count(coitree_contents(*h), first, last),
{
    coitrees::IntervalTree::query_count(&h.tree, first, last) as u64
}

/// The closed form of one more interval extends the closed dataset.
proof fn lemma_closed_seq_push(s: Seq<Interval>, iv: Interval)
    ensures
        closed_seq(s.push(iv)) =~= closed_seq(s).push(closed_pair(iv)),
{
}

/// Counting in closed form agrees with the half-open model: converting
/// the coordinates shifts both the stored stops and the query stop by
/// one, which leaves every overlap decision unchanged.
proof fn lemma_closed_count_matches(s: Seq<Interval>, qs: u32, qe: u32)
    requires
        all_wf(s),
        all_stops_le(s, MAX_COORD),
        qs < qe,
        qe <= MAX_COORD,
    ensures
        closed_count(closed_seq(s).to_multiset(), qs as i32, (qe - 1) as i32) == overlap_count(
            pair_mset(s),
            qs,
            qe,
        ),
    decreases s.len(),
{
    broadcast use vstd::multiset::group_multiset_axioms;

    let first = qs as i32;
    let last = (qe - 1) as i32;
    closed_seq(s).to_multiset_ensures();
    pair_seq(s).to_multiset_ensures();
    if s.len() == 0 {
        assert(closed_seq(s) =~= Seq::<(i32, i32)>::empty());
        assert(pair_seq(s) =~= Seq::<(u32, u32)>::empty());
        vstd::multiset::lemma_multiset_empty_len(closed_seq(s).to_multiset());
        vstd::multiset::lemma_multiset_empty_len(pair_seq(s).to_multiset());
        assert(closed_seq(s).to_multiset().filter(closed_pred(first, last)) =~= Multiset::<
            (i32, i32),
        >::empty());
        assert(pair_seq(s).to_multiset().filter(overlap_pred(qs, qe)) =~= Multiset::<
            (u32, u32),
        >::empty());
    } else {
        let rest = s.drop_last();
        let iv = s.last();
        assert(s =~= rest.push(iv));
        assert(all_wf(rest) && all_stops_le(rest, MAX_COORD)) by {
            assert(forall|i: int| 0 <= i < rest.len() ==> rest[i] == s[i]);
        }
        lemma_closed_count_matches(rest, qs, qe);
        lemma_closed_seq_push(rest, iv);
        assert(pair_seq(s) =~= pair_seq(rest).push(iv.pair()));
        closed_seq(rest).to_multiset_ensures();
        pair_seq(rest).to_multiset_ensures();
        assert(closed_seq(s).to_multiset() =~= closed_seq(rest).to_multiset().insert(
            closed_pair(iv),
        ));
        assert(pair_mset(s) =~= pair_mset(rest).insert(iv.pair()));
        assert(iv.wf() && iv.stop <= MAX_COORD) by {
            assert(iv == s[s.len() - 1]);
        }
        assert(closed_overlaps(closed_pair(iv), first, last) <==> overlaps(
            iv.start,
            iv.stop,
            qs,
            qe,
        ));
        lemma_filter_insert(
            closed_seq(rest).to_multiset(),
            closed_pred(first, last),
            closed_pair(iv),
        );
        lemma_filter_insert(pair_mset(rest), overlap_pred(qs, qe), iv.pair());
    }
}

/// The `coitrees` adapter: the wrapped tree, together with the dataset it
/// was built from as the link between the closed stored form and the
/// half-open model.
pub struct CoitreeBackend {
    inner: CoitreeInner,
    dataset: Ghost<Seq<Interval>>,
}

impl CoitreeBackend {
    /// The tree always holds exactly the closed form of a dataset every
    /// engine accepts.
    #[verifier::type_invariant]
    spec fn inv(self) -> bool {
        dataset_ok(self.dataset@) && coitree_contents(self.inner) == closed_seq(
            self.dataset@,
        ).to_multiset()
    }
}

impl IndexBackend for CoitreeBackend {
    closed spec fn contents(&self) -> Multiset<(u32, u32)> {
        pair_mset(self.dataset@)
    }

    fn build(intervals: &Vec<Interval>) -> (r: Self) {
        let n = intervals.len();
        let mut items: Vec<(i32, i32)> = Vec::with_capacity(n);
        let mut i: usize = 0;
        proof {
            assert(closed_seq(intervals@.take(0)) =~= Seq::<(i32, i32)>::empty());
        }
        while i < n
            invariant
                i <= n,
                n == intervals@.len(),
                dataset_ok(intervals@),
                items@ == closed_seq(intervals@.take(i as int)),
            decreases n - i,
        {
            let iv = intervals[i];
            proof {
                assert(intervals@[i as int].wf() && intervals@[i as int].stop <= MAX_COORD);
            }
            items.push((iv.start as i32, (iv.stop - 1) as i32));
            proof {
                assert(intervals@.take(i + 1) =~= intervals@.take(i as int).push(
                    intervals@[i as int],
                ));
                lemma_closed_seq_push(intervals@.take(i as int), intervals@[i as int]);
                assert(items@ =~= closed_seq(intervals@.take(i + 1)));
            }
            i = i + 1;
        }
        proof {
            assert(intervals@.take(n as int) =~= intervals@);
        }
        let inner = coitree_build(&items);
        CoitreeBackend { inner, dataset: Ghost(intervals@) }
    }

    fn query_overlaps(&self, start: u32, stop: u32) -> (r: u64) {
        proof {
            use_type_invariant(&*self);
        }
        let first = start as i32;
        let last = (stop - 1) as i32;
        let r = coitree_query_count(&self.inner, first, last);
        proof {
            lemma_closed_count_matches(self.dataset@, start, stop);
        }
        r
    }
}

} // verus!
