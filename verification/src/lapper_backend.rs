//! The sorted-list engine: `rust_lapper::Lapper`, a start-sorted interval
//! list queried by binary search with a max-length augmentation.

use crate::backend::IndexBackend;
use crate::counting::overlap_count;
use crate::interval::{pair_mset, Interval};
use vstd::multiset::Multiset;
use vstd::prelude::*;

verus! {

/// A built `rust_lapper::Lapper` structure. The engine's type cannot be
/// declared to the verifier — its coordinate parameter is bound by
/// traits of a crate this library does not depend on — so this opaque
/// holder stands in for it. The engine reorders its intervals, so only
/// the multiset of stored pairs is modelled.
#[verifier::external_body]
pub struct LapperBackend {
    inner: rust_lapper::Lapper<u32, u32>,
}

/// The coordinate pairs the wrapped structure stores.
pub uninterp spec fn lapper_contents(h: LapperBackend) -> Multiset<(u32, u32)>;

/// Relies on rust_lapper::Lapper::new: it keeps exactly the intervals it
/// is given, sorted by start, which the multiset view does not see.
#[verifier::external_body]
fn lapper_build(intervals: &Vec<Interval>) -> (r: LapperBackend)
    ensures
        lapper_contents(r) == pair_mset(intervals@),
{
    let items: Vec<rust_lapper::Interval<u32, u32>> = intervals
        .iter()
        .map(|iv| rust_lapper::Interval { start: iv.start, stop: iv.stop, val: 0 })
        .collect();
    LapperBackend { inner: rust_lapper::Lapper::new(items) }
}

/// Relies on rust_lapper::Lapper::find: it yields exactly the stored
/// intervals `iv` with `iv.start < stop && iv.stop > start`, each once.
#[verifier::external_body]
fn lapper_find_count(h: &LapperBackend, start: u32, stop: u32) -> (r: u64)
    requires
        start < stop,
    ensures
        r as nat == overlap_count(lapper_contents(*h), start, stop),
{
    h.inner.find(start, stop).count() as u64
}

impl IndexBackend for LapperBackend {
    open spec fn contents(&self) -> Multiset<(u32, u32)> {
        lapper_contents(*self)
    }

    fn build(intervals: &Vec<Interval>) -> (r: Self) {
        lapper_build(intervals)
    }

    fn query_overlaps(&self, start: u32, stop: u32) -> (r: u64) {
        lapper_find_count(self, start, stop)
    }
}

} // verus!
