use alloc_bench::allocator::ConfigError;
use alloc_bench::select::{
    get_available_benchmarks, select_benchmarks, sort_by_name, trim_trailing_quotes, ListedEntry,
};

fn entry(name: &str, is_dir: bool) -> ListedEntry {
    ListedEntry {
        path: format!("./benchmarks/sources/{}", name),
        name: name.to_string(),
        is_dir,
    }
}

fn listing() -> Vec<ListedEntry> {
    vec![
        entry("t-test2", true),
        entry("common", true),
        entry("README", false),
        entry("t-test1", true),
    ]
}

fn names(v: &[alloc_bench::benchmark::Benchmark]) -> Vec<String> {
    v.iter().map(|b| b.get_name()).collect()
}

#[test]
fn discovery_skips_common_and_files() {
    let found = get_available_benchmarks(&listing());
    assert_eq!(names(&found), vec!["t-test2".to_string(), "t-test1".to_string()]);
    assert_eq!(found[1].src_dir(), "./benchmarks/sources/t-test1");
}

#[test]
fn no_request_selects_everything() {
    let r = select_benchmarks(&None, get_available_benchmarks(&listing())).unwrap();
    assert_eq!(names(&r), vec!["t-test2".to_string(), "t-test1".to_string()]);
}

#[test]
fn requested_benchmarks_in_order_without_quotes() {
    let req = Some(vec!["t-test1\"".to_string(), "t-test2".to_string()]);
    let r = select_benchmarks(&req, get_available_benchmarks(&listing())).unwrap();
    assert_eq!(names(&r), vec!["t-test1".to_string(), "t-test2".to_string()]);
}

#[test]
fn none_selects_no_benchmark() {
    let req = Some(vec!["t-test1".to_string(), "none".to_string()]);
    let r = select_benchmarks(&req, get_available_benchmarks(&listing())).unwrap();
    assert!(r.is_empty());
}

#[test]
fn unknown_benchmark_is_a_configuration_error() {
    let req = Some(vec!["t-test1".to_string(), "common".to_string(), "none".to_string()]);
    let r = select_benchmarks(&req, get_available_benchmarks(&listing()));
    assert_eq!(r.unwrap_err(), ConfigError::UnknownBenchmark { name: "common".to_string() });
}

#[test]
fn trailing_quotes_are_trimmed() {
    assert_eq!(trim_trailing_quotes("abc\"\""), "abc");
    assert_eq!(trim_trailing_quotes("\"abc"), "\"abc");
    assert_eq!(trim_trailing_quotes("\"\""), "");
}

#[test]
fn benchmarks_are_ordered_by_name() {
    let listing = vec![
        entry("t-test2", true),
        entry("b", true),
        entry("t-test1", true),
        entry("a-z", true),
        entry("a", true),
    ];
    let sorted = sort_by_name(get_available_benchmarks(&listing));
    assert_eq!(
        names(&sorted),
        vec![
            "a".to_string(),
            "a-z".to_string(),
            "b".to_string(),
            "t-test1".to_string(),
            "t-test2".to_string(),
        ]
    );
    assert!(sort_by_name(vec![]).is_empty());
}
