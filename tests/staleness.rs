use alloc_bench::allocator::get_lib_file_name_actual;
use alloc_bench::staleness::{last_modified_time, should_build, SourceEntry};

fn file(t: u128) -> SourceEntry {
    SourceEntry::File { modified: t }
}

fn dir(children: Vec<SourceEntry>) -> SourceEntry {
    SourceEntry::Dir { children }
}

fn sample_tree(inner: u128) -> Vec<SourceEntry> {
    vec![
        file(10),
        dir(vec![file(5), dir(vec![file(inner)]), dir(vec![])]),
        file(20),
    ]
}

#[test]
fn latest_time_walks_nested_directories() {
    assert_eq!(last_modified_time(&sample_tree(15)), Some(20));
    assert_eq!(last_modified_time(&sample_tree(25)), Some(25));
}

#[test]
fn empty_directories_contribute_no_time() {
    assert_eq!(last_modified_time(&vec![]), None);
    assert_eq!(last_modified_time(&vec![dir(vec![]), dir(vec![dir(vec![])])]), None);
}

#[test]
fn fresh_artifact_is_kept_until_a_file_is_touched() {
    let tree = sample_tree(15);
    assert!(!should_build(Some(30), &tree));
    // Touch the deepest file to a time after the artifact.
    let touched = sample_tree(40);
    assert!(should_build(Some(30), &touched));
}

#[test]
fn missing_artifact_is_always_built() {
    assert!(should_build(None, &sample_tree(15)));
    assert!(should_build(None, &vec![]));
    assert!(should_build(None, &vec![file(0)]));
}

#[test]
fn empty_source_tree_always_builds() {
    assert!(should_build(Some(100), &vec![]));
    assert!(should_build(Some(100), &vec![dir(vec![])]));
}

#[test]
fn equal_times_are_not_newer() {
    assert!(!should_build(Some(20), &sample_tree(15)));
    assert!(should_build(Some(19), &sample_tree(15)));
}

#[test]
fn static_archive_names() {
    assert_eq!(get_lib_file_name_actual("jemalloc"), "libjemalloc.a");
    assert_eq!(get_lib_file_name_actual("apfmalloc"), "libapfmalloc.a");
    assert_eq!(get_lib_file_name_actual("lrmalloc"), "liblrmalloc.a");
}
