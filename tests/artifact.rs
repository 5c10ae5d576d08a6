use alloc_bench::allocator::Allocator;
use alloc_bench::artifact::{
    artifact_file_name, build_steps, clean_steps, fetch_steps, jemalloc_configure_step,
    should_rebuild, PrepareError,
};
use alloc_bench::config::{LinkMode, RunConfig};
use alloc_bench::layout::Layout;

fn strings(v: &[&str]) -> Vec<String> {
    v.iter().map(|s| s.to_string()).collect()
}

fn cfg(debug: bool, mode: LinkMode) -> RunConfig {
    RunConfig::new(debug, mode, 1)
}

#[test]
fn artifact_names_follow_the_link_mode() {
    assert_eq!(artifact_file_name(Allocator::Libc, LinkMode::Static, ".so"), None);
    assert_eq!(
        artifact_file_name(Allocator::Jemalloc, LinkMode::Static, ".so"),
        Some("libjemalloc.a".to_string())
    );
    assert_eq!(
        artifact_file_name(Allocator::Lrmalloc, LinkMode::Dynamic, ".so"),
        Some("liblrmalloc.so".to_string())
    );
    assert_eq!(
        artifact_file_name(Allocator::Apfmalloc, LinkMode::Dynamic, ".dylib"),
        Some("libapfmalloc.dylib".to_string())
    );
}

#[test]
fn static_builds_are_gated_by_staleness() {
    let s = cfg(false, LinkMode::Static);
    assert!(should_rebuild(Allocator::Jemalloc, &s, true));
    assert!(!should_rebuild(Allocator::Jemalloc, &s, false));
    assert!(!should_rebuild(Allocator::Libc, &s, true));
    let d = cfg(false, LinkMode::Dynamic);
    assert!(should_rebuild(Allocator::Lrmalloc, &d, false));
    assert!(!should_rebuild(Allocator::Libc, &d, false));
    assert!(build_steps(Allocator::Jemalloc, false, &s, &Layout::standard(), ".so", &vec![]).is_empty());
    assert!(build_steps(Allocator::Libc, true, &d, &Layout::standard(), ".so", &vec![]).is_empty());
}

#[test]
fn jemalloc_static_build() {
    let steps = build_steps(
        Allocator::Jemalloc,
        true,
        &cfg(false, LinkMode::Static),
        &Layout::standard(),
        ".so",
        &vec![],
    );
    assert_eq!(steps.len(), 2);
    assert_eq!(steps[0].program, "make");
    assert_eq!(steps[0].args, strings(&["build_lib_static"]));
    assert_eq!(steps[0].cwd, Some("./allocators/jemalloc".to_string()));
    assert_eq!(steps[1].program, "cp");
    assert_eq!(
        steps[1].args,
        strings(&["./allocators/jemalloc/lib/libjemalloc.a", "./allocators/target/libjemalloc.a"])
    );
}

#[test]
fn jemalloc_dynamic_build() {
    let steps = build_steps(
        Allocator::Jemalloc,
        false,
        &cfg(false, LinkMode::Dynamic),
        &Layout::standard(),
        ".so",
        &vec![],
    );
    assert_eq!(steps[0].args, strings(&["build_lib_shared"]));
    assert_eq!(
        steps[1].args,
        strings(&["./allocators/jemalloc/lib/libjemalloc.so", "./allocators/target/libjemalloc.so"])
    );
}

#[test]
fn apfmalloc_release_build_with_features() {
    let steps = build_steps(
        Allocator::Apfmalloc,
        true,
        &cfg(false, LinkMode::Static),
        &Layout::standard(),
        ".so",
        &strings(&["track_allocation", "no_met_stack"]),
    );
    assert_eq!(steps[0].program, "cargo");
    assert_eq!(steps[0].cwd, None);
    assert_eq!(
        steps[0].args,
        strings(&[
            "build",
            "--workspace",
            "--release",
            "--manifest-path",
            "./allocators/apfmalloc/Cargo.toml",
            "--features",
            "track_allocation",
            "no_met_stack",
        ])
    );
    assert_eq!(
        steps[1].args,
        strings(&[
            "./allocators/apfmalloc/target/release/libapfmalloc.a",
            "./allocators/target/libapfmalloc.a",
        ])
    );
}

#[test]
fn apfmalloc_debug_build() {
    let steps = build_steps(
        Allocator::Apfmalloc,
        true,
        &cfg(true, LinkMode::Static),
        &Layout::standard(),
        ".so",
        &vec![],
    );
    assert_eq!(
        steps[0].args,
        strings(&["build", "--workspace", "--manifest-path", "./allocators/apfmalloc/Cargo.toml"])
    );
    assert_eq!(steps[1].args[0], "./allocators/apfmalloc/target/debug/libapfmalloc.a");
}

#[test]
fn lrmalloc_builds() {
    let layout = Layout::standard();
    let st = build_steps(Allocator::Lrmalloc, true, &cfg(false, LinkMode::Static), &layout, ".so", &vec![]);
    assert_eq!(st[0].args, strings(&["lrmalloc.a"]));
    assert_eq!(st[0].cwd, Some("./allocators/lrmalloc".to_string()));
    assert_eq!(
        st[1].args,
        strings(&["./allocators/lrmalloc/lrmalloc.a", "./allocators/target/liblrmalloc.a"])
    );
    let dy = build_steps(Allocator::Lrmalloc, false, &cfg(false, LinkMode::Dynamic), &layout, ".so", &vec![]);
    assert_eq!(dy[0].args, strings(&["lrmalloc.so"]));
    assert_eq!(
        dy[1].args,
        strings(&["./allocators/lrmalloc/lrmalloc.so", "./allocators/target/liblrmalloc.so"])
    );
}

#[test]
fn sources_are_fetched_only_when_missing() {
    assert!(fetch_steps(true, true).is_empty());
    let both = fetch_steps(false, false);
    assert_eq!(both.len(), 2);
    assert_eq!(both[0].program, "git");
    assert_eq!(both[0].args, strings(&["submodule", "init"]));
    assert_eq!(both[1].args, strings(&["submodule", "update", "--remote"]));
    let update = fetch_steps(true, false);
    assert_eq!(update.len(), 1);
    assert_eq!(update[0].args, strings(&["submodule", "update", "--remote"]));
}

#[test]
fn jemalloc_configuration() {
    let layout = Layout::standard();
    assert!(matches!(jemalloc_configure_step(true, false, false, &layout), Ok(None)));
    let c = jemalloc_configure_step(false, true, true, &layout).unwrap().unwrap();
    assert_eq!(c.program, "./configure");
    assert_eq!(c.args, strings(&["--without-export", "--disable-zone-allocator"]));
    assert_eq!(c.cwd, Some("./allocators/jemalloc".to_string()));
    let a = jemalloc_configure_step(false, false, true, &layout).unwrap().unwrap();
    assert_eq!(a.program, "sh");
    assert_eq!(a.args, strings(&["./autogen.sh"]));
    assert_eq!(
        jemalloc_configure_step(false, false, false, &layout).unwrap_err(),
        PrepareError::NoJemallocBuildFiles
    );
}

#[test]
fn cleaning_removes_only_archives() {
    let files = strings(&["libjemalloc.a", "libjemalloc.so", "a", ".a", "x.ab"]);
    let steps = clean_steps(&Layout::standard(), &files);
    assert_eq!(steps.len(), 4);
    assert_eq!(steps[0].program, "rm");
    assert_eq!(steps[0].args, strings(&["libjemalloc.a", ".a"]));
    assert_eq!(steps[0].cwd, Some("./allocators/target".to_string()));
    assert_eq!(steps[1].program, "cargo");
    assert_eq!(steps[1].args, strings(&["clean"]));
    assert_eq!(steps[2].args, strings(&["libjemalloc.a"]));
    assert_eq!(steps[2].cwd, Some("./allocators/jemalloc/lib".to_string()));
    assert_eq!(steps[3].args, strings(&["distclean"]));
}
