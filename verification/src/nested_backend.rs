//! The containment-index engine: the nested containment list of the
//! `nested_intervals` crate.

use crate::backend::{IndexBackend, ENGINE_CAP};
use crate::counting::overlap_count;
use crate::interval::{all_wf, pair_mset, Interval};
use vstd::multiset::Multiset;
use vstd::prelude::*;

verus! {

/// A built nested containment list. The engine's type cannot be
/// declared to the verifier — its coordinate parameter is bound by a
/// trait of a crate this library does not depend on — so this opaque
/// holder stands in for it.
#[verifier::external_body]
pub struct NestedBackend {
    inner: nested_intervals::IntervalSet,
}

/// The coordinate pairs the wrapped set stores.
pub uninterp spec fn nested_contents(h: NestedBackend) -> Multiset<(u32, u32)>;

/// Relies on nested_intervals::IntervalSet::new: it stores exactly the
/// given ranges (sorted, which the multiset view does not see) and errs
/// only on an inverted range, so well-formed input always builds. Entry
/// indices are kept in `i32`, so the input size must fit there.
#[verifier::external_body]
fn nested_build(intervals: &Vec<Interval>) -> (r: NestedBackend)
    requires
        all_wf(intervals@),
        intervals@.len() < ENGINE_CAP,
    ensures
        nested_contents(r) == pair_mset(intervals@),
{
    let ranges: Vec<std::ops::Range<u32>> =
        intervals.iter().map(|iv| iv.start..iv.stop).collect();
    NestedBackend { inner: nested_intervals::IntervalSet::new(&ranges).unwrap() }
}

/// Relies on nested_intervals::IntervalSet::query_overlapping: the
/// returned set holds exactly the stored intervals overlapping the
/// non-empty half-open query; it errs only on an inverted query.
#[verifier::external_body]
fn nested_query_count(h: &NestedBackend, start: u32, stop: u32) -> (r: u64)
    requires
        start < stop,
    ensures
        r as nat == overlap_count(nested_contents(*h), start, stop),
{
    match h.inner.query_overlapping(&(start..stop)) {
        Ok(hits) => hits.len() as u64,
        Err(_) => 0,
    }
}

impl IndexBackend for NestedBackend {
    open spec fn contents(&self) -> Multiset<(u32, u32)> {
        nested_contents(*self)
    }

    fn build(intervals: &Vec<Interval>) -> (r: Self) {
        nested_build(intervals)
    }

    fn query_overlaps(&self, start: u32, stop: u32) -> (r: u64) {
        nested_query_count(self, start, stop)
    }
}

} // verus!
