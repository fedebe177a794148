//! The randomized dataset generator: two interval collections drawn from
//! controllable size and density parameters.

use crate::interval::{all_wf, Interval};
use crate::rng::RandomSource;
use vstd::prelude::*;

verus! {

/// The generation parameters of one synthetic dataset pair.
#[derive(Clone, Copy, Debug)]
pub struct GenerationConfig {
    /// How many intervals to draw into each set.
    pub count: u32,
    /// Starts are drawn uniformly from `[0, universe_size)`.
    pub universe_size: u32,
    /// Lengths are drawn uniformly from `[min_len, max_len)`.
    pub min_len: u32,
    pub max_len: u32,
    /// Append one interval `[0, universe_size)` to set A after generation.
    pub add_spanning_interval: bool,
}

/// A configuration error: surfaced before any benchmarking starts.
#[derive(Clone, Copy, Debug, PartialEq, Eq, Structural)]
pub enum ConfigError {
    /// The maximum interval length does not exceed the minimum.
    EmptyLengthRange,
    /// There is no start coordinate to draw from.
    EmptyUniverse,
}

impl ConfigError {
    pub fn describe(&self) -> (r: &'static str) {
        match self {
            ConfigError::EmptyLengthRange => "max_interval_size must exceed min_interval_size",
            ConfigError::EmptyUniverse => "universe_size must be positive",
        }
    }
}

impl GenerationConfig {
    /// The bounds a configuration must satisfy before generation starts.
    pub open spec fn wf(self) -> bool {
        self.min_len < self.max_len && self.universe_size >= 1
    }

    /// Reject malformed numeric parameters, before any generation work is
    /// spent. A universe smaller than the maximum length is accepted: it
    /// only lets intervals extend past the nominal universe, which is a
    /// property of uniform generation, not an error.
    pub fn validate(&self) -> (r: Result<(), ConfigError>)
        ensures
            r is Ok <==> self.wf(),
            r matches Err(e) ==> (e == ConfigError::EmptyLengthRange <==> self.min_len
                >= self.max_len),
    {
        if self.min_len >= self.max_len {
            Err(ConfigError::EmptyLengthRange)
        } else if self.universe_size == 0 {
            Err(ConfigError::EmptyUniverse)
        } else {
            Ok(())
        }
    }
}

/// What generation promises of each drawn interval: the start lies in the
/// universe and the length in `[size_min, size_max)`. The stop may exceed
/// the universe when `range_max <= size_max`; that degeneracy is accepted.
pub open spec fn generated_interval(iv: Interval, range_max: u32, size_min: u32, size_max: u32) -> bool {
    iv.start < range_max && iv.start + size_min <= iv.stop && iv.stop < iv.start + size_max
}

/// Every interval of the set was drawn within the given parameters.
pub open spec fn generated_set(s: Seq<Interval>, range_max: u32, size_min: u32, size_max: u32) -> bool {
    forall|i: int|
        0 <= i < s.len() ==> #[trigger] generated_interval(s[i], range_max, size_min, size_max)
}

/// The value of one seeded draw below `bound`, and the state after it.
pub open spec fn draw_below(state: u64, bound: u32) -> (u32, u64) {
    let next = crate::rng::xorshift_step(state);
    (((next % (bound as u64)) as u32), next)
}

/// The dataset a seeded generation run produces, and the state it leaves
/// behind: the generator is a deterministic function of the source's
/// state, which makes a run reproducible from a fixed seed, in
/// generation order.
pub open spec fn gen_spec(
    state: u64,
    n: nat,
    range_max: u32,
    size_min: u32,
    size_max: u32,
) -> (Seq<Interval>, u64)
    decreases n,
{
    if n == 0 {
        (Seq::<Interval>::empty(), state)
    } else {
        let (prefix, s0) = gen_spec(state, (n - 1) as nat, range_max, size_min, size_max);
        let (start, s1) = draw_below(s0, range_max);
        let (extra, s2) = draw_below(s1, (size_max - size_min) as u32);
        (prefix.push(Interval { start, stop: (start + size_min + extra) as u32 }), s2)
    }
}

/// A uniform draw from `[imin, imax)`.
pub fn randomi(rng: &mut RandomSource, imin: u32, imax: u32) -> (r: u32)
    requires
        imin < imax,
    ensures
        imin <= r < imax,
        (*old(rng)) matches RandomSource::Seeded { state } ==> *final(rng)
            == (RandomSource::Seeded { state: draw_below(state, (imax - imin) as u32).1 }) && r
            == imin + draw_below(state, (imax - imin) as u32).0,
        (*old(rng)) is Thread ==> (*final(rng)) is Thread,
{
    let d = rng.next_below(imax - imin);
    imin + d
}

/// Draw `n` intervals: a start from `[0, range_max)` and a length from
/// `[size_min, size_max)`, with `stop = start + length`.
pub fn make_random(
    rng: &mut RandomSource,
    n: u32,
    range_max: u32,
    size_min: u32,
    size_max: u32,
) -> (result: Vec<Interval>)
    requires
        range_max >= 1,
        size_min < size_max,
        range_max as int + size_max as int <= u32::MAX as int + 2,
    ensures
        result@.len() == n as nat,
        generated_set(result@, range_max, size_min, size_max),
        (*old(rng)) matches RandomSource::Seeded { state } ==> result@ == gen_spec(
            state,
            n as nat,
            range_max,
            size_min,
            size_max,
        ).0 && *final(rng) == (RandomSource::Seeded {
            state: gen_spec(state, n as nat, range_max, size_min, size_max).1,
        }),
        (*old(rng)) is Thread ==> (*final(rng)) is Thread,
{
    let ghost init = *rng;
    let mut result: Vec<Interval> = Vec::with_capacity(n as usize);
    let mut i: u32 = 0;
    while i < n
        invariant
            i <= n,
            range_max >= 1,
            size_min < size_max,
            range_max as int + size_max as int <= u32::MAX as int + 2,
            result@.len() == i as nat,
            generated_set(result@, range_max, size_min, size_max),
            init matches RandomSource::Seeded { state } ==> result@ == gen_spec(
                state,
                i as nat,
                range_max,
                size_min,
                size_max,
            ).0 && *rng == (RandomSource::Seeded {
                state: gen_spec(state, i as nat, range_max, size_min, size_max).1,
            }),
            init is Thread ==> (*rng) is Thread,
        decreases n - i,
    {
        let s = randomi(rng, 0, range_max);
        let len = randomi(rng, size_min, size_max);
        let e = s + len;
        result.push(Interval { start: s, stop: e });
        i = i + 1;
    }
    result
}

/// Every generated interval is non-empty whenever the minimum length is
/// positive. A zero minimum length admits zero-length draws, so that case
/// is left out.
pub proof fn lemma_generated_nonempty(s: Seq<Interval>, range_max: u32, size_min: u32, size_max: u32)
    requires
        generated_set(s, range_max, size_min, size_max),
        size_min >= 1,
    ensures
        all_wf(s),
{
    assert forall|i: int| 0 <= i < s.len() implies #[trigger] s[i].wf() by {
        assert(generated_interval(s[i], range_max, size_min, size_max));
    }
}

/// Draw the two benchmark sets: set A from `[0, universe_size)`, set B
/// independently from a universe ten times as large, which lowers the
/// expected overlap rate of cross queries.
pub fn make_intervals(
    rng: &mut RandomSource,
    num_intervals: u32,
    universe_size: u32,
    min_interval_size: u32,
    max_interval_size: u32,
) -> (result: (Vec<Interval>, Vec<Interval>))
    requires
        universe_size >= 1,
        min_interval_size < max_interval_size,
        10 * universe_size as int + max_interval_size as int <= u32::MAX as int + 1,
    ensures
        result.0@.len() == num_intervals as nat,
        result.1@.len() == num_intervals as nat,
        generated_set(result.0@, universe_size, min_interval_size, max_interval_size),
        generated_set(result.1@, (10 * universe_size) as u32, min_interval_size, max_interval_size),
        (*old(rng)) matches RandomSource::Seeded { state } ==> ({
            let a = gen_spec(
                state,
                num_intervals as nat,
                universe_size,
                min_interval_size,
                max_interval_size,
            );
            let b = gen_spec(
                a.1,
                num_intervals as nat,
                (10 * universe_size) as u32,
                min_interval_size,
                max_interval_size,
            );
            result.0@ == a.0 && result.1@ == b.0 && *final(rng) == (RandomSource::Seeded {
                state: b.1,
            })
        }),
{
    let set_a = make_random(
        rng,
        num_intervals,
        universe_size,
        min_interval_size,
        max_interval_size,
    );
    let set_b = make_random(
        rng,
        num_intervals,
        10 * universe_size,
        min_interval_size,
        max_interval_size,
    );
    (set_a, set_b)
}

/// Generate the dataset pair of one run from its configuration: set B's
/// universe is scaled by `universe_multiplier_for_b`, and the optional
/// universe-spanning interval is appended to set A only, after generation.
pub fn generate(
    config: &GenerationConfig,
    universe_multiplier_for_b: u32,
    rng: &mut RandomSource,
) -> (result: (Vec<Interval>, Vec<Interval>))
    requires
        config.wf(),
        universe_multiplier_for_b >= 1,
        config.universe_size as int * universe_multiplier_for_b as int + config.max_len as int
            <= u32::MAX as int + 1,
    ensures
        result.1@.len() == config.count as nat,
        generated_set(
            result.1@,
            (config.universe_size * universe_multiplier_for_b) as u32,
            config.min_len,
            config.max_len,
        ),
        generated_set(
            result.0@.take(config.count as int),
            config.universe_size,
            config.min_len,
            config.max_len,
        ),
        !config.add_spanning_interval ==> result.0@.len() == config.count as nat,
        config.add_spanning_interval ==> result.0@.len() == config.count as nat + 1
            && result.0@.last() == (Interval { start: 0, stop: config.universe_size }),
        (*old(rng)) matches RandomSource::Seeded { state } ==> ({
            let a = gen_spec(
                state,
                config.count as nat,
                config.universe_size,
                config.min_len,
                config.max_len,
            );
            let b = gen_spec(
                a.1,
                config.count as nat,
                (config.universe_size * universe_multiplier_for_b) as u32,
                config.min_len,
                config.max_len,
            );
            &&& result.1@ == b.0
            &&& *final(rng) == (RandomSource::Seeded { state: b.1 })
            &&& if config.add_spanning_interval {
                result.0@ == a.0.push(Interval { start: 0, stop: config.universe_size })
            } else {
                result.0@ == a.0
            }
        }),
{
    proof {
        let u = config.universe_size as int;
        let m = universe_multiplier_for_b as int;
        assert(u * m >= u && u * m >= 1) by (nonlinear_arith)
            requires
                u >= 1,
                m >= 1,
        ;
    }
    let mut set_a = make_random(
        rng,
        config.count,
        config.universe_size,
        config.min_len,
        config.max_len,
    );
    let set_b = make_random(
        rng,
        config.count,
        config.universe_size * universe_multiplier_for_b,
        config.min_len,
        config.max_len,
    );
    let ghost drawn_a = set_a@;
    if config.add_spanning_interval {
        set_a.push(Interval { start: 0, stop: config.universe_size });
        proof {
            assert(set_a@.take(config.count as int) =~= drawn_a);
        }
    } else {
        proof {
            assert(set_a@.take(config.count as int) =~= drawn_a);
        }
    }
    (set_a, set_b)
}

} // verus!
