use interval_bakeoff::generator::{make_intervals, make_random, ConfigError, GenerationConfig};
use interval_bakeoff::rng::RandomSource;
use interval_bakeoff::Interval;

#[test]
fn generated_intervals_are_nonempty_across_seeds_and_configs() {
    let configs: [(u32, u32, u32, u32); 4] =
        [(50, 1000, 10, 20), (100, 500, 1, 2), (25, 100, 99, 200), (10, 1, 5, 6)];
    for seed in 0..30u64 {
        for (n, universe, min_len, max_len) in configs {
            let mut rng = RandomSource::seeded(seed);
            let set = make_random(&mut rng, n, universe, min_len, max_len);
            assert_eq!(set.len(), n as usize);
            for iv in &set {
                assert!(iv.stop > iv.start);
            }
        }
    }
}

#[test]
fn generated_lengths_and_starts_stay_in_bounds() {
    let mut rng = RandomSource::seeded(42);
    let (set_a, set_b) = make_intervals(&mut rng, 100, 1000, 10, 20);
    assert_eq!(set_a.len(), 100);
    assert_eq!(set_b.len(), 100);
    for iv in &set_a {
        assert!(iv.start < 1000);
        let len = iv.stop - iv.start;
        assert!((10..20).contains(&len));
    }
    for iv in &set_b {
        assert!(iv.start < 10_000);
        let len = iv.stop - iv.start;
        assert!((10..20).contains(&len));
    }
}

#[test]
fn zero_count_generates_empty_sets() {
    let mut rng = RandomSource::seeded(7);
    let (set_a, set_b) = make_intervals(&mut rng, 0, 1000, 10, 20);
    assert!(set_a.is_empty());
    assert!(set_b.is_empty());
}

#[test]
fn same_seed_reproduces_the_same_sets_in_order() {
    let mut rng1 = RandomSource::seeded(12345);
    let mut rng2 = RandomSource::seeded(12345);
    let (a1, b1) = make_intervals(&mut rng1, 200, 5000, 3, 40);
    let (a2, b2) = make_intervals(&mut rng2, 200, 5000, 3, 40);
    assert_eq!(a1, a2);
    assert_eq!(b1, b2);
}

#[test]
fn thread_source_draws_stay_below_the_bound() {
    let mut rng = RandomSource::Thread;
    for _ in 0..200 {
        let v = rng.next_below(17);
        assert!(v < 17);
    }
}

#[test]
fn spanning_interval_is_appended_to_set_a_only() {
    let config = GenerationConfig {
        count: 20,
        universe_size: 1000,
        min_len: 10,
        max_len: 20,
        add_spanning_interval: true,
    };
    let mut rng = RandomSource::seeded(9);
    let (set_a, set_b) = interval_bakeoff::generator::generate(&config, 10, &mut rng);
    assert_eq!(set_a.len(), 21);
    assert_eq!(set_b.len(), 20);
    assert_eq!(set_a[20], Interval { start: 0, stop: 1000 });
}

#[test]
fn config_with_inverted_length_range_is_rejected() {
    let config = GenerationConfig {
        count: 10,
        universe_size: 1000,
        min_len: 20,
        max_len: 20,
        add_spanning_interval: false,
    };
    let err = config.validate().unwrap_err();
    assert_eq!(err, ConfigError::EmptyLengthRange);
    assert_eq!(err.describe(), "max_interval_size must exceed min_interval_size");
}

#[test]
fn config_with_zero_universe_is_rejected() {
    let config = GenerationConfig {
        count: 10,
        universe_size: 0,
        min_len: 10,
        max_len: 20,
        add_spanning_interval: false,
    };
    let err = config.validate().unwrap_err();
    assert_eq!(err, ConfigError::EmptyUniverse);
    assert_eq!(err.describe(), "universe_size must be positive");
}

#[test]
fn valid_config_passes_validation() {
    let config = GenerationConfig {
        count: 0,
        universe_size: 1,
        min_len: 0,
        max_len: 1,
        add_spanning_interval: false,
    };
    assert!(config.validate().is_ok());
}
