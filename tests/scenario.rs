use alloc_bench::benchmark::Benchmark;
use alloc_bench::config::{LinkMode, RunConfig};
use alloc_bench::graph::{assign_colors, graph_path};
use alloc_bench::layout::Layout;
use alloc_bench::measure::{Sweep, SweepAction, TrialOutcome};
use alloc_bench::report::{crash_marker, executable_for, result_log_path};
use alloc_bench::select::{allocator_libraries, select_allocators};

#[test]
fn two_allocators_one_benchmark_two_threads() {
    let layout = Layout::standard();
    let config = RunConfig::new(false, LinkMode::Static, 2);
    let allocators =
        select_allocators(&Some(vec!["libc".to_string(), "jemalloc".to_string()])).unwrap();
    let bench = Benchmark::new("./benchmarks/sources/t-test1".to_string(), "t-test1".to_string());

    let links = bench
        .create_binaries_for(true, &allocator_libraries(&allocators), &config, &layout)
        .unwrap();
    let outputs: Vec<String> = links.iter().map(|s| s.args[1].clone()).collect();
    assert_eq!(
        outputs,
        vec!["./benchmarks/bin/t-test1-libc".to_string(), "./benchmarks/bin/t-test1-jemalloc".to_string()]
    );

    let mut logs = vec![];
    let mut series = vec![];
    for a in &allocators {
        let exe = executable_for(&bench, *a);
        logs.push(result_log_path(&exe, &layout));
        let mut sweep = Sweep::new(config.max_threads);
        while let SweepAction::Run { .. } = sweep.action() {
            sweep.record(TrialOutcome::Completed { elapsed_nanos: 2_000_000_000 });
        }
        assert_eq!(sweep.action(), SweepAction::Finished);
        series.push(sweep.series());
    }
    assert_eq!(
        logs,
        vec![
            "./benchmarks/results/t-test1-libc.txt".to_string(),
            "./benchmarks/results/t-test1-jemalloc.txt".to_string(),
        ]
    );
    assert_eq!(series.len(), 2);
    assert!(series.iter().all(|s| s.len() == 2));

    assert_eq!(graph_path("t-test1", &layout), "./graphs/t-test1.png");
    let colors = assign_colors(allocators.len());
    assert_eq!(colors.len(), 2);
    assert_ne!(colors[0], colors[1]);
}

#[test]
fn crash_on_a_trial_halts_the_run() {
    let mut sweep = Sweep::new(2);
    sweep.record(TrialOutcome::Completed { elapsed_nanos: 1 });
    sweep.record(TrialOutcome::Crashed);
    assert_eq!(sweep.action(), SweepAction::Halted);
    assert!(sweep.series().is_empty());
    assert!(crash_marker().starts_with("PROGRAM CRASHED"));
}
