use alloc_bench::allocator::{
    get_allocator_lib_file, lookup_allocator, registered_allocators, Allocator, ConfigError,
};
use alloc_bench::config::{is_debug, is_dynamic, LinkMode, RunConfig};
use alloc_bench::select::{allocator_libraries, select_allocators};

#[test]
fn registry_lists_every_allocator_libc_first() {
    assert_eq!(
        registered_allocators(),
        vec![Allocator::Libc, Allocator::Apfmalloc, Allocator::Jemalloc, Allocator::Lrmalloc]
    );
}

#[test]
fn lookup_by_name() {
    assert_eq!(lookup_allocator("libc"), Ok(Allocator::Libc));
    assert_eq!(lookup_allocator("jemalloc"), Ok(Allocator::Jemalloc));
    assert_eq!(lookup_allocator("lrmalloc"), Ok(Allocator::Lrmalloc));
    assert_eq!(lookup_allocator("apfmalloc"), Ok(Allocator::Apfmalloc));
    assert_eq!(
        lookup_allocator("tcmalloc"),
        Err(ConfigError::UnknownAllocator { name: "tcmalloc".to_string() })
    );
    assert_eq!(
        lookup_allocator(""),
        Err(ConfigError::UnknownAllocator { name: String::new() })
    );
}

#[test]
fn library_base_names() {
    assert_eq!(get_allocator_lib_file("libc"), None);
    assert_eq!(get_allocator_lib_file("apfmalloc"), Some("apfmalloc"));
    assert_eq!(get_allocator_lib_file("jemalloc"), Some("jemalloc"));
    assert_eq!(get_allocator_lib_file("lrmalloc"), Some("lrmalloc"));
    assert_eq!(Allocator::Jemalloc.name(), "jemalloc");
    assert!(Allocator::Libc.is_libc());
    assert!(!Allocator::Lrmalloc.is_libc());
}

#[test]
fn default_selection_is_the_whole_registry() {
    assert_eq!(select_allocators(&None), Ok(registered_allocators()));
}

#[test]
fn requested_allocators_keep_their_order() {
    let requested = Some(vec!["jemalloc".to_string(), "libc".to_string()]);
    assert_eq!(select_allocators(&requested), Ok(vec![Allocator::Jemalloc, Allocator::Libc]));
}

#[test]
fn unknown_allocator_is_a_configuration_error() {
    let requested = Some(vec![
        "libc".to_string(),
        "mimalloc".to_string(),
        "hoard".to_string(),
    ]);
    assert_eq!(
        select_allocators(&requested),
        Err(ConfigError::UnknownAllocator { name: "mimalloc".to_string() })
    );
}

#[test]
fn libraries_for_linking() {
    let libs = allocator_libraries(&vec![Allocator::Libc, Allocator::Jemalloc]);
    assert_eq!(libs, vec![None, Some("jemalloc".to_string())]);
}

#[test]
fn run_configuration_flags() {
    let c = RunConfig::new(true, LinkMode::Dynamic, 4);
    assert!(is_debug(&c));
    assert!(is_dynamic(&c));
    assert_eq!(c.max_threads, 4);
    let s = RunConfig::new(false, LinkMode::Static, 16);
    assert!(!is_debug(&s));
    assert!(!is_dynamic(&s));
}
