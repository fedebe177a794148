//! The balanced-tree engine: the augmented AVL interval tree of the `bio`
//! crate, filled one interval at a time.

use crate::backend::IndexBackend;
use crate::counting::overlap_count;
use crate::interval::{lemma_pair_mset_push, pair_mset, Interval};
use vstd::multiset::Multiset;
use vstd::prelude::*;

verus! {

/// bio's interval tree type, declared so a handle can hold one; what a
/// tree stores is modelled by `bio_contents`.
#[verifier::external_type_specification]
#[verifier::external_body]
#[verifier::reject_recursive_types(N)]
#[verifier::reject_recursive_types(D)]
pub struct ExIntervalTree<N: Ord + Clone, D>(
    bio::data_structures::interval_tree::IntervalTree<N, D>,
);

/// A built AVL interval tree of the `bio` crate.
pub struct BioBackend {
    inner: bio::data_structures::interval_tree::IntervalTree<u32, u32>,
}

/// The coordinate pairs a tree stores.
pub uninterp spec fn bio_contents(
    t: bio::data_structures::interval_tree::IntervalTree<u32, u32>,
) -> Multiset<(u32, u32)>;

/// Relies on bio's IntervalTree::new: an empty tree.
#[verifier::external_body]
fn bio_new() -> (r: bio::data_structures::interval_tree::IntervalTree<u32, u32>)
    ensures
        bio_contents(r) == Multiset::<(u32, u32)>::empty(),
{
    bio::data_structures::interval_tree::IntervalTree::new()
}

/// Relies on bio's IntervalTree::insert: it adds the given range to the
/// stored entries. The range conversion panics on an inverted range, so
/// the interval must be well-formed.
#[verifier::external_body]
fn bio_insert(t: &mut bio::data_structures::interval_tree::IntervalTree<u32, u32>, iv: Interval)
    requires
        iv.wf(),
    ensures
        bio_contents(*final(t)) == bio_contents(*old(t)).insert(iv.pair()),
{
    t.insert(iv.start..iv.stop, 0);
}

/// Relies on bio's IntervalTree::find: it yields exactly the stored
/// entries whose range intersects the non-empty half-open query, each
/// entry once.
#[verifier::external_body]
fn bio_find_count(
    t: &bio::data_structures::interval_tree::IntervalTree<u32, u32>,
    start: u32,
    stop: u32,
) -> (r: u64)
    requires
        start < stop,
    ensures
        r as nat == overlap_count(bio_contents(*t), start, stop),
{
    t.find(start..stop).count() as u64
}

impl IndexBackend for BioBackend {
    closed spec fn contents(&self) -> Multiset<(u32, u32)> {
        bio_contents(self.inner)
    }

    fn build(intervals: &Vec<Interval>) -> (r: Self) {
        let mut tree = bio_new();
        let n = intervals.len();
        let mut i: usize = 0;
        proof {
            assert(intervals@.take(0) =~= Seq::<Interval>::empty());
            crate::interval::lemma_pair_mset_empty();
        }
        while i < n
            invariant
                i <= n,
                n == intervals@.len(),
                crate::backend::dataset_ok(intervals@),
                bio_contents(tree) == pair_mset(intervals@.take(i as int)),
            decreases n - i,
        {
            bio_insert(&mut tree, intervals[i]);
            proof {
                assert(intervals@.take(i + 1) =~= intervals@.take(i as int).push(
                    intervals@[i as int],
                ));
                lemma_pair_mset_push(intervals@.take(i as int), intervals@[i as int]);
            }
            i = i + 1;
        }
        proof {
            assert(intervals@.take(n as int) =~= intervals@);
        }
        BioBackend { inner: tree }
    }

    fn query_overlaps(&self, start: u32, stop: u32) -> (r: u64) {
        bio_find_count(&self.inner, start, stop)
    }
}

} // verus!
