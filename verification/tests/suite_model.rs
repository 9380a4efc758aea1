use diol_cbind::args::ArgSet;
use diol_cbind::args::ArgVTable;
use diol_cbind::args::LibDiolPlotArg;
use diol_cbind::args::OpaqueArg;
use diol_cbind::bench::LibDiolBench;
use diol_cbind::bench::LibDiolBencher;
use diol_cbind::config::LibDiolConfig;
use diol_cbind::config::LibDiolMonotonicity;
use diol_cbind::config::LibDiolPlotColors;
use diol_cbind::numfmt::format_usize;
use diol_cbind::text::Utf8Text;

fn name(s: &str) -> Utf8Text {
    Utf8Text::from_bytes(s.as_bytes().to_vec()).unwrap()
}

fn vtable() -> ArgVTable {
    ArgVTable { clone_fn: 101, drop_fn: 102, print_fn: 103 }
}

#[test]
fn decimal_formatting_matches_builtin() {
    for n in [0usize, 7, 9, 10, 11, 99, 100, 409, 65535, usize::MAX] {
        assert_eq!(format_usize(n), n.to_string().into_bytes());
    }
}

#[test]
fn monotonicity_codes_round_trip() {
    for c in 0u8..=2 {
        let m = LibDiolMonotonicity::from_code(c).unwrap();
        assert_eq!(m.as_code(), c);
    }
    assert!(LibDiolMonotonicity::from_code(3).is_none());
    assert!(LibDiolMonotonicity::from_code(255).is_none());
}

#[test]
fn plot_color_codes_round_trip() {
    for c in 0u8..=9 {
        let p = LibDiolPlotColors::from_code(c).unwrap();
        assert_eq!(p.as_code(), c);
    }
    assert!(LibDiolPlotColors::from_code(10).is_none());
}

#[test]
fn metric_is_installed_and_replaced() {
    let mut config = LibDiolConfig::new();
    assert!(config.metric.is_none());
    config.set_metric(name("throughput"), LibDiolMonotonicity::HigherIsBetter, 7);
    config.set_metric(name("latency"), LibDiolMonotonicity::LowerIsBetter, 8);
    let m = config.metric.as_ref().unwrap();
    assert_eq!(m.name.bytes, b"latency".to_vec());
    assert_eq!(m.monotonicity, LibDiolMonotonicity::LowerIsBetter);
    assert_eq!(m.metric_fn, 8);
}

#[test]
fn suite_copies_config_out() {
    let mut config = LibDiolConfig::new();
    config.set_metric(name("ops"), LibDiolMonotonicity::HigherIsBetter, 1);
    let bench = LibDiolBench::from_config(&config);
    config.set_metric(name("other"), LibDiolMonotonicity::Neutral, 2);
    assert_eq!(bench.config.metric.as_ref().unwrap().name.bytes, b"ops".to_vec());
    assert_eq!(config.metric.as_ref().unwrap().name.bytes, b"other".to_vec());
}

#[test]
fn zero_functions_registers_nothing() {
    let config = LibDiolConfig::new();
    let mut bench = LibDiolBench::from_config(&config);
    let args = ArgSet::Numeric(vec![
        LibDiolPlotArg { n: 1 },
        LibDiolPlotArg { n: 3 },
        LibDiolPlotArg { n: 9 },
    ]);
    bench.register(Vec::new(), Vec::new(), Vec::new(), args);
    let report = bench.run();
    assert_eq!(report.entries.len(), 0);
    let ledger = bench.destroy();
    assert_eq!(ledger.clones, 0);
    assert_eq!(ledger.drops, 0);
}

#[test]
fn zero_arguments_registers_nothing() {
    let config = LibDiolConfig::new();
    let mut bench = LibDiolBench::from_config(&config);
    bench.register(
        vec![name("foo"), name("bar")],
        vec![0, 0],
        vec![10, 11],
        ArgSet::Opaque(Vec::new()),
    );
    let report = bench.run();
    assert_eq!(report.entries.len(), 0);
    let ledger = bench.destroy();
    assert_eq!(ledger.clones, ledger.drops);
    assert_eq!(ledger.clones, 0);
}

#[test]
fn two_functions_three_arguments_run_six_invocations() {
    let config = LibDiolConfig::new();
    let mut bench = LibDiolBench::from_config(&config);
    let args = ArgSet::Numeric(vec![
        LibDiolPlotArg { n: 1 },
        LibDiolPlotArg { n: 3 },
        LibDiolPlotArg { n: 9 },
    ]);
    bench.register(vec![name("foo"), name("bar")], vec![0, 0], vec![10, 11], args);
    let report = bench.run();
    assert_eq!(report.entries.len(), 6);
    let expected = [
        ("foo", "1"),
        ("bar", "1"),
        ("foo", "3"),
        ("bar", "3"),
        ("foo", "9"),
        ("bar", "9"),
    ];
    let mut timed = 0usize;
    for (k, entry) in report.entries.iter().enumerate() {
        assert_eq!(entry.name, expected[k].0.as_bytes().to_vec());
        assert_eq!(entry.display, expected[k].1.as_bytes().to_vec());
        // each invocation hands its body to the timing primitive exactly once
        let bencher = LibDiolBencher { invocation: k };
        let m = bencher.run_timed(10 + (k % 2), 0);
        assert_eq!(m.invocation, k);
        timed += 1;
    }
    assert_eq!(timed, 6);
    let ledger = bench.destroy();
    assert_eq!(ledger.clones, ledger.drops);
}

#[test]
fn numeric_and_opaque_paths_report_the_same_plan() {
    let values = [1usize, 3, 9];

    let config = LibDiolConfig::new();
    let mut numeric = LibDiolBench::from_config(&config);
    numeric.register(
        vec![name("foo"), name("bar")],
        vec![0, 0],
        vec![10, 11],
        ArgSet::Numeric(values.iter().map(|&n| LibDiolPlotArg { n }).collect()),
    );
    let numeric_report = numeric.run();

    let mut opaque = LibDiolBench::from_config(&config);
    opaque.register(
        vec![name("foo"), name("bar")],
        vec![0, 0],
        vec![10, 11],
        ArgSet::Opaque(
            values
                .iter()
                .enumerate()
                .map(|(k, &n)| OpaqueArg {
                    data: 200 + k,
                    vtable: vtable(),
                    display: n.to_string().into_bytes(),
                })
                .collect(),
        ),
    );
    let opaque_report = opaque.run();

    assert_eq!(numeric_report.entries.len(), opaque_report.entries.len());
    for (a, b) in numeric_report.entries.iter().zip(opaque_report.entries.iter()) {
        assert_eq!(a.name, b.name);
        assert_eq!(a.display, b.display);
    }
    assert_eq!(numeric.destroy().clones, 0);
    let ledger = opaque.destroy();
    assert_eq!(ledger.clones, ledger.drops);
}

#[test]
fn opaque_ledger_balances_after_run_and_destroy() {
    let config = LibDiolConfig::new();
    let mut bench = LibDiolBench::from_config(&config);
    let arg = OpaqueArg { data: 300, vtable: vtable(), display: b"payload".to_vec() };
    bench.register(
        vec![name("foo"), name("bar")],
        vec![0, 0],
        vec![10, 11],
        ArgSet::Opaque(vec![arg]),
    );
    // registration clones the one incoming argument once
    assert_eq!(bench.ledger.clones, 1);
    assert_eq!(bench.ledger.drops, 0);
    let report = bench.run();
    assert_eq!(report.entries.len(), 2);
    // the engine clones once per invocation and drops each clone after it
    assert_eq!(bench.ledger.clones, 3);
    assert_eq!(bench.ledger.drops, 2);
    let ledger = bench.destroy();
    assert_eq!(ledger.clones, 3);
    assert_eq!(ledger.drops, 3);
}

#[test]
fn groups_run_in_registration_order() {
    let config = LibDiolConfig::new();
    let mut bench = LibDiolBench::from_config(&config);
    bench.register(
        vec![name("alpha")],
        vec![0],
        vec![20],
        ArgSet::Numeric(vec![LibDiolPlotArg { n: 2 }, LibDiolPlotArg { n: 4 }]),
    );
    bench.register(
        vec![name("beta"), name("gamma")],
        vec![0, 0],
        vec![21, 22],
        ArgSet::Opaque(vec![OpaqueArg {
            data: 400,
            vtable: vtable(),
            display: b"blob".to_vec(),
        }]),
    );
    let report = bench.run();
    let got: Vec<(Vec<u8>, Vec<u8>)> = report
        .entries
        .iter()
        .map(|e| (e.name.clone(), e.display.clone()))
        .collect();
    let want: Vec<(Vec<u8>, Vec<u8>)> = vec![
        (b"alpha".to_vec(), b"2".to_vec()),
        (b"alpha".to_vec(), b"4".to_vec()),
        (b"beta".to_vec(), b"blob".to_vec()),
        (b"gamma".to_vec(), b"blob".to_vec()),
    ];
    assert_eq!(got, want);
    let ledger = bench.destroy();
    assert_eq!(ledger.clones, ledger.drops);
}

#[test]
fn timing_primitive_keeps_body_tokens() {
    let bencher = LibDiolBencher { invocation: 5 };
    let m = bencher.run_timed(77, 88);
    assert_eq!(m.invocation, 5);
    assert_eq!(m.body_fn, 77);
    assert_eq!(m.body_data, 88);
}
