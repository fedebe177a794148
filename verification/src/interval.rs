//! The primitive value type of the harness: a half-open integer range.

use vstd::multiset::Multiset;
use vstd::prelude::*;

verus! {

/// A half-open interval `[start, stop)` over `u32` coordinates, ordered
/// by `(start, stop)` for reproducible serialization.
///
/// A well-formed interval is non-empty: `stop > start`.
#[derive(Clone, Copy, PartialEq, Eq, Structural, PartialOrd, Ord, Debug)]
pub struct Interval {
    pub start: u32,
    pub stop: u32,
}

impl Interval {
    /// Non-emptiness: a zero-length interval is a generation bug, not a
    /// valid input.
    pub open spec fn wf(self) -> bool {
        self.start < self.stop
    }

    /// The interval as a plain coordinate pair, the form in which engine
    /// contents are modelled.
    pub open spec fn pair(self) -> (u32, u32) {
        (self.start, self.stop)
    }
}

/// Non-empty intersection of the half-open ranges `[s1, e1)` and `[s2, e2)`.
///
/// Touching endpoints (`e1 == s2` or `e2 == s1`) do not overlap.
pub open spec fn overlaps(s1: u32, e1: u32, s2: u32, e2: u32) -> bool {
    s1 < e2 && s2 < e1
}

/// The coordinate pairs of a sequence of intervals, in the same order.
pub open spec fn pair_seq(s: Seq<Interval>) -> Seq<(u32, u32)> {
    s.map_values(|iv: Interval| iv.pair())
}

/// The coordinate pairs of a sequence of intervals as a multiset: the
/// order-free model of what an engine stores.
pub open spec fn pair_mset(s: Seq<Interval>) -> Multiset<(u32, u32)> {
    pair_seq(s).to_multiset()
}

/// Every interval of the sequence is well-formed.
pub open spec fn all_wf(s: Seq<Interval>) -> bool {
    forall|i: int| 0 <= i < s.len() ==> #[trigger] s[i].wf()
}

/// Appending an interval inserts its pair into the multiset view.
pub proof fn lemma_pair_mset_push(s: Seq<Interval>, iv: Interval)
    ensures
        pair_mset(s.push(iv)) =~= pair_mset(s).insert(iv.pair()),
{
    assert(pair_seq(s.push(iv)) =~= pair_seq(s).push(iv.pair()));
    pair_seq(s).to_multiset_ensures();
}

/// The empty dataset's multiset view is empty.
pub proof fn lemma_pair_mset_empty()
    ensures
        pair_mset(Seq::<Interval>::empty()) =~= Multiset::<(u32, u32)>::empty(),
{
    lemma_pair_mset_len(Seq::<Interval>::empty());
    vstd::multiset::lemma_multiset_empty_len::<(u32, u32)>(
        pair_mset(Seq::<Interval>::empty()),
    );
}

/// The multiset view keeps the dataset's size.
pub proof fn lemma_pair_mset_len(s: Seq<Interval>)
    ensures
        pair_mset(s).len() == s.len(),
{
    pair_seq(s).to_multiset_ensures();
}

/// Every member interval's pair is in the multiset view.
pub proof fn lemma_pair_mset_contains(s: Seq<Interval>, i: int)
    requires
        0 <= i < s.len(),
    ensures
        pair_mset(s).contains(s[i].pair()),
{
    pair_seq(s).to_multiset_ensures();
    assert(pair_seq(s)[i] == s[i].pair());
    assert(pair_seq(s).contains(s[i].pair()));
}

/// A pair in the multiset view comes from some member interval.
pub proof fn lemma_pair_mset_member(s: Seq<Interval>, p: (u32, u32)) -> (i: int)
    requires
        pair_mset(s).contains(p),
    ensures
        0 <= i < s.len(),
        s[i].pair() == p,
{
    pair_seq(s).to_multiset_ensures();
    assert(pair_seq(s).contains(p));
    let i = choose|i: int| 0 <= i < pair_seq(s).len() && pair_seq(s)[i] == p;
    assert(pair_seq(s)[i] == s[i].pair());
    i
}

} // verus!
