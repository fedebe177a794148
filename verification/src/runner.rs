//! The benchmark runner: per backend, the strictly sequential timed
//! phases — build A, build B, query A against A, query A against B — each
//! phase emitting one immutable result record.

use crate::backend::{
    all_stops_le, dataset_ok, BackendKind, IndexBackend, ENGINE_CAP, MAX_COORD,
};
use crate::counting::{lemma_overlap_count_le, lemma_total_count_push, total_count};
use crate::interval::{all_wf, lemma_pair_mset_len, pair_mset, Interval};
use crate::timing::{elapsed_nanos, process_time_now};
use vstd::prelude::*;

verus! {

/// The phase a result record reports on.
#[derive(Clone, Copy, Debug, PartialEq, Eq, Structural)]
pub enum Phase {
    Build,
    QuerySelf,
    QueryCross,
}

/// One phase's outcome: created once, immutable, collected into the run's
/// report list. Build phases carry no match count.
#[derive(Clone, Copy, Debug)]
pub struct PhaseResult {
    pub backend: BackendKind,
    pub phase: Phase,
    pub elapsed_nanos: u64,
    pub match_count: Option<u64>,
}

/// One timed query pass: one overlap query per interval of `queries`,
/// iterated in generation order against an already built handle, counts
/// summed. The timer spans only the loop.
///
/// The handle is only read and the count is a function of its contents
/// and the query set alone, so repeating the pass reports the same count.
pub fn run_query_phase<B: IndexBackend>(handle: &B, queries: &Vec<Interval>) -> (r: (u64, u64))
    requires
        all_wf(queries@),
        all_stops_le(queries@, MAX_COORD),
        queries@.len() < ENGINE_CAP,
        handle.contents().len() < ENGINE_CAP,
    ensures
        r.1 as nat == total_count(queries@, handle.contents()),
{
    let timer = process_time_now();
    let mut count: u64 = 0;
    let n = queries.len();
    let mut i: usize = 0;
    proof {
        assert(queries@.take(0) =~= Seq::<Interval>::empty());
    }
    while i < n
        invariant
            i <= n,
            n == queries@.len(),
            all_wf(queries@),
            all_stops_le(queries@, MAX_COORD),
            n < ENGINE_CAP,
            handle.contents().len() < ENGINE_CAP,
            count as nat == total_count(queries@.take(i as int), handle.contents()),
            count as int <= i as int * 0x7fff_ffff,
        decreases n - i,
    {
        let q = queries[i];
        proof {
            assert(queries@[i as int].wf() && queries@[i as int].stop <= MAX_COORD);
        }
        let hits = handle.query_overlaps(q.start, q.stop);
        proof {
            lemma_overlap_count_le(handle.contents(), q.start, q.stop);
            lemma_total_count_push(queries@.take(i as int), handle.contents(), queries@[i as int]);
            assert(queries@.take(i + 1) =~= queries@.take(i as int).push(queries@[i as int]));
        }
        count = count + hits;
        i = i + 1;
    }
    proof {
        assert(queries@.take(n as int) =~= queries@);
    }
    let elapsed = elapsed_nanos(&timer);
    (elapsed, count)
}

/// Query idempotence witness: the handle is only read and each pass's
/// count is pinned to the handle's contents and the query set, so
/// running the same query phase twice against the same handle yields the
/// same summed count both times.
pub fn run_query_phase_twice<B: IndexBackend>(handle: &B, queries: &Vec<Interval>) -> (r: (
    u64,
    u64,
))
    requires
        all_wf(queries@),
        all_stops_le(queries@, MAX_COORD),
        queries@.len() < ENGINE_CAP,
        handle.contents().len() < ENGINE_CAP,
    ensures
        r.0 == r.1,
{
    let first = run_query_phase(handle, queries);
    let second = run_query_phase(handle, queries);
    (first.1, second.1)
}

/// What a finished four-phase run promises: the fixed phase order, the
/// variant label on every record, no match count for builds, and both
/// query counts pinned to the mathematical model of the datasets — the
/// ground of backend substitutability.
pub open spec fn results_wf(
    r: Seq<PhaseResult>,
    kind: BackendKind,
    a: Seq<Interval>,
    b: Seq<Interval>,
) -> bool {
    &&& r.len() == 4
    &&& forall|i: int| 0 <= i < r.len() ==> (#[trigger] r[i]).backend == kind
    &&& r[0].phase == Phase::Build
    &&& r[1].phase == Phase::Build
    &&& r[2].phase == Phase::QuerySelf
    &&& r[3].phase == Phase::QueryCross
    &&& r[0].match_count is None
    &&& r[1].match_count is None
    &&& r[2].match_count matches Some(c) && c as nat == total_count(a, pair_mset(a))
    &&& r[3].match_count matches Some(c) && c as nat == total_count(a, pair_mset(b))
}

/// Run the four phases of one backend variant against the dataset pair.
/// Each phase's timer is started right before its work and read right
/// after, so no phase's elapsed time includes another phase's work; the
/// two handles live only for this run.
pub fn run_backend<B: IndexBackend>(
    kind: BackendKind,
    set_a: &Vec<Interval>,
    set_b: &Vec<Interval>,
) -> (results: Vec<PhaseResult>)
    requires
        dataset_ok(set_a@),
        dataset_ok(set_b@),
    ensures
        results_wf(results@, kind, set_a@, set_b@),
{
    let mut results: Vec<PhaseResult> = Vec::new();

    let timer = process_time_now();
    let handle_a = B::build(set_a);
    let built_a = elapsed_nanos(&timer);
    results.push(
        PhaseResult { backend: kind, phase: Phase::Build, elapsed_nanos: built_a, match_count: None },
    );

    let timer = process_time_now();
    let handle_b = B::build(set_b);
    let built_b = elapsed_nanos(&timer);
    results.push(
        PhaseResult { backend: kind, phase: Phase::Build, elapsed_nanos: built_b, match_count: None },
    );

    proof {
        lemma_pair_mset_len(set_a@);
        lemma_pair_mset_len(set_b@);
    }
    let (self_elapsed, self_count) = run_query_phase::<B>(&handle_a, set_a);
    results.push(
        PhaseResult {
            backend: kind,
            phase: Phase::QuerySelf,
            elapsed_nanos: self_elapsed,
            match_count: Some(self_count),
        },
    );

    let (cross_elapsed, cross_count) = run_query_phase::<B>(&handle_b, set_a);
    results.push(
        PhaseResult {
            backend: kind,
            phase: Phase::QueryCross,
            elapsed_nanos: cross_elapsed,
            match_count: Some(cross_count),
        },
    );

    results
}

/// Run one variant chosen by its tag.
pub fn run_kind(
    kind: BackendKind,
    set_a: &Vec<Interval>,
    set_b: &Vec<Interval>,
) -> (results: Vec<PhaseResult>)
    requires
        dataset_ok(set_a@),
        dataset_ok(set_b@),
    ensures
        results_wf(results@, kind, set_a@, set_b@),
{
    match kind {
        BackendKind::RustLapper => run_backend::<crate::lapper_backend::LapperBackend>(
            kind,
            set_a,
            set_b,
        ),
        BackendKind::RustBio => run_backend::<crate::bio_backend::BioBackend>(kind, set_a, set_b),
        BackendKind::NestedInterval => run_backend::<crate::nested_backend::NestedBackend>(
            kind,
            set_a,
            set_b,
        ),
        BackendKind::Coitree => run_backend::<crate::coitree_backend::CoitreeBackend>(
            kind,
            set_a,
            set_b,
        ),
    }
}

/// Run the selected variants in the given order, one four-phase pass
/// each; the report list chains the per-variant records.
pub fn run_selected(
    kinds: &Vec<BackendKind>,
    set_a: &Vec<Interval>,
    set_b: &Vec<Interval>,
) -> (results: Vec<PhaseResult>)
    requires
        dataset_ok(set_a@),
        dataset_ok(set_b@),
    ensures
        results@.len() == 4 * kinds@.len(),
        forall|j: int|
            0 <= j < kinds@.len() ==> results_wf(
                #[trigger] results@.subrange(4 * j, 4 * j + 4),
                kinds@[j],
                set_a@,
                set_b@,
            ),
{
    let mut results: Vec<PhaseResult> = Vec::new();
    let n = kinds.len();
    let mut i: usize = 0;
    while i < n
        invariant
            i <= n,
            n == kinds@.len(),
            dataset_ok(set_a@),
            dataset_ok(set_b@),
            results@.len() == 4 * i as int,
            forall|j: int|
                0 <= j < i as int ==> results_wf(
                    #[trigger] results@.subrange(4 * j, 4 * j + 4),
                    kinds@[j],
                    set_a@,
                    set_b@,
                ),
        decreases n - i,
    {
        let ghost prev = results@;
        let mut one = run_kind(kinds[i], set_a, set_b);
        let ghost one_view = one@;
        results.append(&mut one);
        proof {
            assert(results@ == prev + one_view);
            assert forall|j: int| 0 <= j < i as int + 1 implies results_wf(
                #[trigger] results@.subrange(4 * j, 4 * j + 4),
                kinds@[j],
                set_a@,
                set_b@,
            ) by {
                if j < i as int {
                    assert(results@.subrange(4 * j, 4 * j + 4) =~= prev.subrange(4 * j, 4 * j + 4));
                } else {
                    assert(results@.subrange(4 * j, 4 * j + 4) =~= one_view);
                }
            }
        }
        i = i + 1;
    }
    results
}

/// The synthetic-data workflow: generate the dataset pair from the
/// configuration, then run the selected backends against it in order.
/// The generated sets are returned beside the records, read-only for the
/// rest of the run, so a caller can inspect or save them.
///
/// The bounds asked of the configuration keep every coordinate inside
/// the narrowest engine's `i32` space and every draw non-degenerate; a
/// zero minimum length is left out because it can draw empty intervals,
/// which the engines do not accept as valid input.
pub fn run_fake(
    config: &crate::generator::GenerationConfig,
    universe_multiplier_for_b: u32,
    kinds: &Vec<BackendKind>,
    rng: &mut crate::rng::RandomSource,
) -> (r: (Vec<Interval>, Vec<Interval>, Vec<PhaseResult>))
    requires
        config.wf(),
        config.min_len >= 1,
        universe_multiplier_for_b >= 1,
        config.universe_size as int * universe_multiplier_for_b as int + config.max_len as int
            <= MAX_COORD as int + 1,
        config.count as int + 1 < ENGINE_CAP,
    ensures
        r.1@.len() == config.count as nat,
        !config.add_spanning_interval ==> r.0@.len() == config.count as nat,
        config.add_spanning_interval ==> r.0@.len() == config.count as nat + 1 && r.0@.last()
            == (Interval { start: 0, stop: config.universe_size }),
        crate::generator::generated_set(
            r.0@.take(config.count as int),
            config.universe_size,
            config.min_len,
            config.max_len,
        ),
        crate::generator::generated_set(
            r.1@,
            (config.universe_size * universe_multiplier_for_b) as u32,
            config.min_len,
            config.max_len,
        ),
        r.2@.len() == 4 * kinds@.len(),
        forall|j: int|
            0 <= j < kinds@.len() ==> results_wf(
                #[trigger] r.2@.subrange(4 * j, 4 * j + 4),
                kinds@[j],
                r.0@,
                r.1@,
            ),
{
    proof {
        let u = config.universe_size as int;
        let m = universe_multiplier_for_b as int;
        assert(u <= u * m && u * m >= 1) by (nonlinear_arith)
            requires
                u >= 1,
                m >= 1,
        ;
    }
    let (set_a, set_b) = crate::generator::generate(config, universe_multiplier_for_b, rng);
    proof {
        let ghost ua = config.universe_size;
        let ghost ub = (config.universe_size * universe_multiplier_for_b) as u32;
        let ghost drawn = set_a@.take(config.count as int);
        crate::generator::lemma_generated_nonempty(drawn, ua, config.min_len, config.max_len);
        crate::generator::lemma_generated_nonempty(
            set_b@,
            ub,
            config.min_len,
            config.max_len,
        );
        assert forall|i: int| 0 <= i < set_a@.len() implies #[trigger] set_a@[i].wf() by {
            if i < config.count as int {
                assert(set_a@[i] == drawn[i]);
                assert(drawn[i].wf());
            } else {
                assert(set_a@[i] == (Interval { start: 0, stop: config.universe_size }));
            }
        }
        assert forall|i: int| 0 <= i < set_a@.len() implies #[trigger] set_a@[i].stop
            <= MAX_COORD by {
            if i < config.count as int {
                assert(set_a@[i] == drawn[i]);
                assert(crate::generator::generated_interval(
                    drawn[i],
                    ua,
                    config.min_len,
                    config.max_len,
                ));
            } else {
                assert(set_a@[i] == (Interval { start: 0, stop: config.universe_size }));
            }
        }
        assert forall|i: int| 0 <= i < set_b@.len() implies #[trigger] set_b@[i].stop
            <= MAX_COORD by {
            assert(crate::generator::generated_interval(
                set_b@[i],
                ub,
                config.min_len,
                config.max_len,
            ));
        }
        assert(dataset_ok(set_a@));
        assert(dataset_ok(set_b@));
    }
    let results = run_selected(kinds, &set_a, &set_b);
    (set_a, set_b, results)
}

/// Backend substitutability: two runs that meet the runner's contract on
/// the same dataset pair report numerically identical QuerySelf and
/// QueryCross match counts, whichever variants they ran — a disagreement
/// signals a bug in an adapter or in the engine itself.
pub proof fn lemma_backend_substitutability(
    r1: Seq<PhaseResult>,
    r2: Seq<PhaseResult>,
    k1: BackendKind,
    k2: BackendKind,
    a: Seq<Interval>,
    b: Seq<Interval>,
)
    requires
        results_wf(r1, k1, a, b),
        results_wf(r2, k2, a, b),
    ensures
        r1[2].match_count == r2[2].match_count,
        r1[3].match_count == r2[3].match_count,
{
}

/// An empty dataset pair: every query phase of every backend reports a
/// zero match count.
pub proof fn lemma_empty_run_counts(
    r: Seq<PhaseResult>,
    kind: BackendKind,
    a: Seq<Interval>,
    b: Seq<Interval>,
)
    requires
        results_wf(r, kind, a, b),
        a.len() == 0,
    ensures
        r[2].match_count == Some(0u64),
        r[3].match_count == Some(0u64),
{
}

/// Every interval of a well-formed query set overlaps at least its own
/// stored copy, so a QuerySelf count is at least the dataset's size; with
/// the universe-spanning interval appended, that is at least the
/// generated count.
pub proof fn lemma_query_self_lower(
    r: Seq<PhaseResult>,
    kind: BackendKind,
    a: Seq<Interval>,
    b: Seq<Interval>,
)
    requires
        results_wf(r, kind, a, b),
        all_wf(a),
    ensures
        r[2].match_count matches Some(c) && c >= a.len(),
{
    assert forall|i: int| 0 <= i < a.len() implies pair_mset(a).contains(#[trigger] a[i].pair())
        && a[i].wf() by {
        crate::interval::lemma_pair_mset_contains(a, i);
    }
    crate::counting::lemma_total_count_lower(a, pair_mset(a));
}

/// Spanning-interval stress case, cross side: when set A holds the
/// universe-spanning interval `[0, u)` and `u` covers every start of set
/// B, the QueryCross count is at least set B's size.
pub proof fn lemma_spanning_cross_lower(
    r: Seq<PhaseResult>,
    kind: BackendKind,
    a: Seq<Interval>,
    b: Seq<Interval>,
    span_at: int,
    u: u32,
)
    requires
        results_wf(r, kind, a, b),
        0 <= span_at < a.len(),
        a[span_at] == (Interval { start: 0, stop: u }),
        all_wf(b),
        forall|j: int| 0 <= j < b.len() ==> #[trigger] b[j].start < u,
    ensures
        r[3].match_count matches Some(c) && c >= b.len(),
{
    let m = pair_mset(b);
    crate::counting::lemma_total_count_lower_member(a, m, span_at);
    assert forall|p: (u32, u32)| m.contains(p) implies crate::interval::overlaps(
        p.0,
        p.1,
        0,
        u,
    ) by {
        let j = crate::interval::lemma_pair_mset_member(b, p);
        assert(b[j].wf() && b[j].start < u);
    }
    crate::counting::lemma_overlap_count_all(m, 0, u);
    lemma_pair_mset_len(b);
}

} // verus!
