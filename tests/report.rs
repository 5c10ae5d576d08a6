use alloc_bench::allocator::Allocator;
use alloc_bench::benchmark::Benchmark;
use alloc_bench::config::{LinkMode, RunConfig};
use alloc_bench::layout::Layout;
use alloc_bench::report::{
    crash_marker, end_marker, executable_for, executable_path, preload_library, result_log_path,
    start_marker, trial_marker,
};

fn bench() -> Benchmark {
    Benchmark::new("./benchmarks/sources/t-test1".to_string(), "t-test1".to_string())
}

#[test]
fn executable_and_log_paths() {
    let layout = Layout::standard();
    assert_eq!(executable_for(&bench(), Allocator::Libc), "t-test1-libc");
    assert_eq!(executable_for(&bench(), Allocator::Apfmalloc), "t-test1-apfmalloc");
    assert_eq!(
        executable_path(&bench(), Allocator::Jemalloc, &layout),
        "./benchmarks/bin/t-test1-jemalloc"
    );
    assert_eq!(
        result_log_path("t-test1-jemalloc", &layout),
        "./benchmarks/results/t-test1-jemalloc.txt"
    );
}

#[test]
fn preload_only_in_dynamic_mode_and_never_for_libc() {
    let layout = Layout::standard();
    let dynamic = RunConfig::new(false, LinkMode::Dynamic, 1);
    let fixed = RunConfig::new(false, LinkMode::Static, 1);
    assert_eq!(
        preload_library(Allocator::Jemalloc, &dynamic, &layout, ".so"),
        Some("./allocators/target/libjemalloc.so".to_string())
    );
    assert_eq!(preload_library(Allocator::Libc, &dynamic, &layout, ".so"), None);
    assert_eq!(preload_library(Allocator::Jemalloc, &fixed, &layout, ".so"), None);
}

#[test]
fn log_markers() {
    assert_eq!(
        start_marker("t-test1-libc", 12),
        "-------------- [START] t-test1-libc with 12 threads --------------"
    );
    assert_eq!(trial_marker(2), "---- ))Start Iteration 2 ----");
    assert_eq!(end_marker(), "-------------- [END] --------------");
    assert_eq!(crash_marker(), "PROGRAM CRASHED\n-------------- [END] --------------");
}

#[test]
fn markers_before_each_trial() {
    assert_eq!(
        alloc_bench::report::lines_before_trial("t-test1-libc", 3, 0),
        vec![
            "-------------- [START] t-test1-libc with 3 threads --------------".to_string(),
            "---- ))Start Iteration 0 ----".to_string(),
        ]
    );
    assert_eq!(
        alloc_bench::report::lines_before_trial("t-test1-libc", 3, 1),
        vec!["---- ))Start Iteration 1 ----".to_string()]
    );
}
