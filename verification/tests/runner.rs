use interval_bakeoff::backend::BackendKind;
use interval_bakeoff::generator::{generate, GenerationConfig};
use interval_bakeoff::lapper_backend::LapperBackend;
use interval_bakeoff::rng::RandomSource;
use interval_bakeoff::runner::{
    run_fake, run_kind, run_query_phase_twice, run_selected, Phase,
};
use interval_bakeoff::Interval;

#[test]
fn zero_count_runs_report_zero_matches_on_every_backend() {
    let config = GenerationConfig {
        count: 0,
        universe_size: 1000,
        min_len: 10,
        max_len: 20,
        add_spanning_interval: false,
    };
    let mut rng = RandomSource::seeded(1);
    let (set_a, set_b) = generate(&config, 10, &mut rng);
    assert!(set_a.is_empty() && set_b.is_empty());
    for kind in BackendKind::all() {
        let results = run_kind(kind, &set_a, &set_b);
        assert_eq!(results.len(), 4);
        assert_eq!(results[0].match_count, None);
        assert_eq!(results[1].match_count, None);
        assert_eq!(results[2].match_count, Some(0));
        assert_eq!(results[3].match_count, Some(0));
    }
}

#[test]
fn every_backend_reports_identical_counts_on_a_fixed_pair() {
    let config = GenerationConfig {
        count: 100,
        universe_size: 1000,
        min_len: 10,
        max_len: 20,
        add_spanning_interval: false,
    };
    let mut rng = RandomSource::seeded(42);
    let (set_a, set_b) = generate(&config, 10, &mut rng);
    assert_eq!(set_a.len(), 100);
    assert_eq!(set_b.len(), 100);
    let kinds = BackendKind::all();
    let results = run_selected(&kinds, &set_a, &set_b);
    assert_eq!(results.len(), 16);
    let self_counts: Vec<u64> =
        results.iter().filter(|r| r.phase == Phase::QuerySelf).map(|r| r.match_count.unwrap()).collect();
    let cross_counts: Vec<u64> =
        results.iter().filter(|r| r.phase == Phase::QueryCross).map(|r| r.match_count.unwrap()).collect();
    assert_eq!(self_counts.len(), 4);
    assert_eq!(cross_counts.len(), 4);
    for c in &self_counts {
        assert_eq!(*c, self_counts[0]);
    }
    for c in &cross_counts {
        assert_eq!(*c, cross_counts[0]);
    }
    assert!(self_counts[0] >= 100);
}

#[test]
fn phase_order_and_labels_are_fixed() {
    let set_a = vec![Interval { start: 0, stop: 10 }];
    let set_b = vec![Interval { start: 5, stop: 15 }];
    let results = run_kind(BackendKind::Coitree, &set_a, &set_b);
    assert_eq!(results.len(), 4);
    assert_eq!(results[0].phase, Phase::Build);
    assert_eq!(results[1].phase, Phase::Build);
    assert_eq!(results[2].phase, Phase::QuerySelf);
    assert_eq!(results[3].phase, Phase::QueryCross);
    for r in &results {
        assert_eq!(r.backend, BackendKind::Coitree);
    }
    assert_eq!(results[2].match_count, Some(1));
    assert_eq!(results[3].match_count, Some(1));
}

#[test]
fn spanning_run_reaches_the_count_floors() {
    let config = GenerationConfig {
        count: 50,
        universe_size: 1000,
        min_len: 10,
        max_len: 20,
        add_spanning_interval: true,
    };
    // A multiplier of one keeps set B inside the spanning interval's
    // bounds, so the cross floor applies as well.
    let mut rng = RandomSource::seeded(3);
    let kinds = BackendKind::all();
    let (set_a, set_b, results) = run_fake(&config, 1, &kinds, &mut rng);
    assert_eq!(set_a.len(), 51);
    assert_eq!(set_b.len(), 50);
    for r in &results {
        match r.phase {
            Phase::Build => assert_eq!(r.match_count, None),
            Phase::QuerySelf => assert!(r.match_count.unwrap() >= 50),
            Phase::QueryCross => assert!(r.match_count.unwrap() >= 50),
        }
    }
}

#[test]
fn query_phase_is_idempotent_on_one_handle() {
    let config = GenerationConfig {
        count: 40,
        universe_size: 500,
        min_len: 5,
        max_len: 25,
        add_spanning_interval: false,
    };
    let mut rng = RandomSource::seeded(8);
    let (set_a, _set_b) = generate(&config, 10, &mut rng);
    let handle = <LapperBackend as interval_bakeoff::backend::IndexBackend>::build(&set_a);
    let (first, second) = run_query_phase_twice(&handle, &set_a);
    assert_eq!(first, second);
}
