use interval_bakeoff::backend::IndexBackend;
use interval_bakeoff::bio_backend::BioBackend;
use interval_bakeoff::coitree_backend::CoitreeBackend;
use interval_bakeoff::lapper_backend::LapperBackend;
use interval_bakeoff::nested_backend::NestedBackend;
use interval_bakeoff::Interval;

fn iv(start: u32, stop: u32) -> Interval {
    Interval { start, stop }
}

fn query_each(data: &Vec<Interval>, start: u32, stop: u32) -> [u64; 4] {
    let lapper = LapperBackend::build(data);
    let bio = BioBackend::build(data);
    let nested = NestedBackend::build(data);
    let coitree = CoitreeBackend::build(data);
    [
        lapper.query_overlaps(start, stop),
        bio.query_overlaps(start, stop),
        nested.query_overlaps(start, stop),
        coitree.query_overlaps(start, stop),
    ]
}

#[test]
fn touching_intervals_do_not_overlap() {
    let data = vec![iv(10, 20)];
    for count in query_each(&data, 0, 10) {
        assert_eq!(count, 0);
    }
    let other = vec![iv(0, 10)];
    for count in query_each(&other, 10, 20) {
        assert_eq!(count, 0);
    }
}

#[test]
fn exact_counts_match_on_a_small_dataset() {
    let data = vec![iv(0, 10), iv(5, 15), iv(20, 30)];
    for count in query_each(&data, 0, 6) {
        assert_eq!(count, 2);
    }
    for count in query_each(&data, 9, 20) {
        assert_eq!(count, 2);
    }
    for count in query_each(&data, 10, 20) {
        assert_eq!(count, 1);
    }
    for count in query_each(&data, 30, 40) {
        assert_eq!(count, 0);
    }
}

#[test]
fn duplicate_intervals_are_counted_twice() {
    let data = vec![iv(5, 10), iv(5, 10)];
    for count in query_each(&data, 5, 6) {
        assert_eq!(count, 2);
    }
}

#[test]
fn empty_dataset_reports_zero() {
    let data: Vec<Interval> = Vec::new();
    for count in query_each(&data, 0, 100) {
        assert_eq!(count, 0);
    }
}

#[test]
fn repeated_queries_on_one_handle_report_the_same_count() {
    let data = vec![iv(0, 10), iv(3, 7), iv(9, 12)];
    let lapper = LapperBackend::build(&data);
    let bio = BioBackend::build(&data);
    let nested = NestedBackend::build(&data);
    let coitree = CoitreeBackend::build(&data);
    assert_eq!(lapper.query_overlaps(2, 10), lapper.query_overlaps(2, 10));
    assert_eq!(bio.query_overlaps(2, 10), bio.query_overlaps(2, 10));
    assert_eq!(nested.query_overlaps(2, 10), nested.query_overlaps(2, 10));
    assert_eq!(coitree.query_overlaps(2, 10), coitree.query_overlaps(2, 10));
}

#[test]
fn spanning_interval_overlaps_every_member() {
    let data = vec![iv(0, 1000), iv(10, 20), iv(500, 600), iv(990, 1000)];
    for count in query_each(&data, 0, 1000) {
        assert_eq!(count, 4);
    }
}
