//! The uniform capability every overlap-query engine is benchmarked
//! through: build a structure from a dataset, then count overlaps.
//!
//! Structurally different engines are substitutable behind this contract:
//! whatever an engine stores internally, its observable match counts are
//! pinned to the one mathematical model, `overlap_count` over the multiset
//! of stored coordinate pairs. That substitutability is the defining
//! correctness invariant of the harness.

use crate::counting::overlap_count;
use crate::interval::{all_wf, pair_mset, Interval};
use vstd::multiset::Multiset;
use vstd::prelude::*;

verus! {

/// The largest usable coordinate: one engine under test keeps its
/// coordinates in `i32`, so every stop must fit there.
pub const MAX_COORD: u32 = 0x7fff_ffff;

/// The largest dataset an engine accepts: one engine indexes its entries
/// with `i32`, another caps them at its index type's maximum.
pub const ENGINE_CAP: usize = 0x7fff_ffff;

/// Every stop coordinate lies at or below the bound.
pub open spec fn all_stops_le(s: Seq<Interval>, bound: u32) -> bool {
    forall|i: int| 0 <= i < s.len() ==> #[trigger] s[i].stop <= bound
}

/// What every engine asks of a dataset it is built from: non-empty
/// intervals, coordinates that fit the narrowest engine, and a size below
/// the narrowest index cap.
pub open spec fn dataset_ok(s: Seq<Interval>) -> bool {
    all_wf(s) && all_stops_le(s, MAX_COORD) && s.len() < ENGINE_CAP
}

/// One interchangeable overlap-query engine.
pub trait IndexBackend: Sized {
    /// The model of the built structure: the multiset of stored
    /// coordinate pairs.
    spec fn contents(&self) -> Multiset<(u32, u32)>;

    /// Build the engine's native structure from the dataset. The caller's
    /// set is only read, never mutated.
    fn build(intervals: &Vec<Interval>) -> (r: Self)
        requires
            dataset_ok(intervals@),
        ensures
            r.contents() == pair_mset(intervals@),
    ;

    /// Count the stored intervals whose half-open range intersects
    /// `[start, stop)`; touching endpoints do not overlap. The handle is
    /// only read, so repeated queries return the same count.
    fn query_overlaps(&self, start: u32, stop: u32) -> (r: u64)
        requires
            start < stop,
            stop <= MAX_COORD,
        ensures
            r as nat == overlap_count(self.contents(), start, stop),
    ;
}

/// The engine variants of this harness, in the fixed order reports use.
#[derive(Clone, Copy, Debug, PartialEq, Eq, Structural)]
pub enum BackendKind {
    RustLapper,
    RustBio,
    NestedInterval,
    Coitree,
}

impl BackendKind {
    /// The stable report name of the variant.
    pub open spec fn name_spec(self) -> Seq<char> {
        match self {
            BackendKind::RustLapper => "rust-lapper"@,
            BackendKind::RustBio => "rust-bio"@,
            BackendKind::NestedInterval => "nested-intervals"@,
            BackendKind::Coitree => "coitree"@,
        }
    }

    pub fn name(&self) -> (r: &'static str)
        ensures
            r@ == self.name_spec(),
    {
        match self {
            BackendKind::RustLapper => "rust-lapper",
            BackendKind::RustBio => "rust-bio",
            BackendKind::NestedInterval => "nested-intervals",
            BackendKind::Coitree => "coitree",
        }
    }

    /// Every variant, in the fixed, deterministic order a full run uses,
    /// so that reports are diff-able across runs.
    pub fn all() -> (r: Vec<BackendKind>)
        ensures
            r@ == seq![
                BackendKind::RustLapper,
                BackendKind::RustBio,
                BackendKind::NestedInterval,
                BackendKind::Coitree,
            ],
    {
        let mut v: Vec<BackendKind> = Vec::new();
        v.push(BackendKind::RustLapper);
        v.push(BackendKind::RustBio);
        v.push(BackendKind::NestedInterval);
        v.push(BackendKind::Coitree);
        proof {
            assert(v@ =~= seq![
                BackendKind::RustLapper,
                BackendKind::RustBio,
                BackendKind::NestedInterval,
                BackendKind::Coitree,
            ]);
        }
        v
    }
}

} // verus!
