use interval_bakeoff::backend::BackendKind;
use interval_bakeoff::report::{render_line, report, u64_to_string};
use interval_bakeoff::runner::{Phase, PhaseResult};

#[test]
fn numbers_render_in_plain_decimal() {
    assert_eq!(u64_to_string(0), "0");
    assert_eq!(u64_to_string(7), "7");
    assert_eq!(u64_to_string(42), "42");
    assert_eq!(u64_to_string(1000), "1000");
    assert_eq!(u64_to_string(1234567890123), "1234567890123");
    assert_eq!(u64_to_string(u64::MAX), "18446744073709551615");
}

#[test]
fn a_query_line_holds_every_field_in_order() {
    let r = PhaseResult {
        backend: BackendKind::RustLapper,
        phase: Phase::QuerySelf,
        elapsed_nanos: 1500,
        match_count: Some(42),
    };
    assert_eq!(render_line(&r), "rust-lapper\tQuerySelf\t1500\t42\n");
}

#[test]
fn a_build_line_shows_a_dash_for_the_missing_count() {
    let r = PhaseResult {
        backend: BackendKind::NestedInterval,
        phase: Phase::Build,
        elapsed_nanos: 0,
        match_count: None,
    };
    assert_eq!(render_line(&r), "nested-intervals\tBuild\t0\t-\n");
}

#[test]
fn the_report_keeps_record_order() {
    let rs = vec![
        PhaseResult {
            backend: BackendKind::RustBio,
            phase: Phase::Build,
            elapsed_nanos: 10,
            match_count: None,
        },
        PhaseResult {
            backend: BackendKind::Coitree,
            phase: Phase::QueryCross,
            elapsed_nanos: 20,
            match_count: Some(3),
        },
    ];
    assert_eq!(report(&rs), "rust-bio\tBuild\t10\t-\ncoitree\tQueryCross\t20\t3\n");
}

#[test]
fn backend_names_and_order_are_stable() {
    let kinds = BackendKind::all();
    let names: Vec<&str> = kinds.iter().map(|k| k.name()).collect();
    assert_eq!(names, vec!["rust-lapper", "rust-bio", "nested-intervals", "coitree"]);
}
