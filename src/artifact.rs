use vstd::prelude::*;

use crate::allocator::Allocator;
use crate::config::{LinkMode, RunConfig, is_debug, is_dynamic};
use crate::layout::Layout;
use crate::step::{Step, StepView, step_views, views};
use crate::text::{join_path, owned, path_join};

verus! {

/// The file extension of an allocator library in `mode`: `.a` for a static
/// archive, the platform's shared-object extension otherwise.
pub open spec fn library_extension(mode: LinkMode, shared_ext: Seq<char>) -> Seq<char> {
    match mode {
        LinkMode::Static => ".a"@,
        LinkMode::Dynamic => shared_ext,
    }
}

/// `lib<allocator><extension>`, the name of an allocator's artifact in the
/// library directory.
pub open spec fn artifact_name(allocator: Allocator, mode: LinkMode, shared_ext: Seq<char>) -> Seq<
    char,
> {
    "lib"@ + allocator.spec_name() + library_extension(mode, shared_ext)
}

/// Whether the allocator's library is built in this run: never for libc,
/// always in dynamic mode, and in static mode when the artifact is stale.
pub open spec fn needs_build(allocator: Allocator, mode: LinkMode, stale: bool) -> bool {
    allocator != Allocator::Libc && (mode == LinkMode::Dynamic || stale)
}

pub open spec fn step_view(program: Seq<char>, args: Seq<Seq<char>>, cwd: Option<Seq<char>>) -> StepView {
    StepView { program, args, cwd }
}

/// `--features` followed by the features, or nothing when there are none.
pub open spec fn feature_args(features: Seq<Seq<char>>) -> Seq<Seq<char>> {
    if features.len() == 0 {
        Seq::empty()
    } else {
        seq!["--features"@] + features
    }
}

/// The commands that build an allocator's library with its own build
/// procedure and copy the result into the library directory.
pub open spec fn build_plan(
    allocator: Allocator,
    config: RunConfig,
    layout: Layout,
    shared_ext: Seq<char>,
    features: Seq<Seq<char>>,
) -> Seq<StepView> {
    let ext = library_extension(config.link_mode, shared_ext);
    let staged = path_join(layout.library_dir@, artifact_name(allocator, config.link_mode, shared_ext));
    let dir = path_join(layout.allocators_dir@, allocator.spec_name());
    match allocator {
        Allocator::Libc => Seq::empty(),
        Allocator::Jemalloc => {
            let target = if config.link_mode == LinkMode::Static {
                "build_lib_static"@
            } else {
                "build_lib_shared"@
            };
            seq![
                step_view("make"@, seq![target], Some(dir)),
                step_view(
                    "cp"@,
                    seq![path_join(path_join(dir, "lib"@), artifact_name(allocator, config.link_mode, shared_ext)), staged],
                    None,
                ),
            ]
        },
        Allocator::Apfmalloc => {
            let profile = if config.debug { "debug"@ } else { "release"@ };
            let release = if config.debug { Seq::empty() } else { seq!["--release"@] };
            seq![
                step_view(
                    "cargo"@,
                    seq!["build"@, "--workspace"@] + release + seq![
                        "--manifest-path"@,
                        path_join(dir, "Cargo.toml"@),
                    ] + feature_args(features),
                    None,
                ),
                step_view(
                    "cp"@,
                    seq![
                        path_join(path_join(path_join(dir, "target"@), profile), artifact_name(allocator, config.link_mode, shared_ext)),
                        staged,
                    ],
                    None,
                ),
            ]
        },
        Allocator::Lrmalloc => {
            let file = "lrmalloc"@ + ext;
            seq![
                step_view("make"@, seq![file], Some(dir)),
                step_view("cp"@, seq![path_join(dir, file), staged], None),
            ]
        },
    }
}

/// The name of the allocator's artifact in the library directory:
/// `lib<name>.a` in static mode, `lib<name>` and `shared_ext` in dynamic
/// mode. `None` for libc, which has no artifact.
pub fn artifact_file_name(allocator: Allocator, mode: LinkMode, shared_ext: &str) -> (r: Option<
    String,
>)
    ensures
        allocator == Allocator::Libc ==> r is None,
        allocator != Allocator::Libc ==> (r matches Some(n) && n@ == artifact_name(
            allocator,
            mode,
            shared_ext@,
        )),
{
    if allocator.is_libc() {
        return None;
    }
    let name = owned("lib").concat(allocator.name());
    match mode {
        LinkMode::Static => Some(name.concat(".a")),
        LinkMode::Dynamic => Some(name.concat(shared_ext)),
    }
}

/// Whether the allocator's library must be built in this run. `stale` is
/// `should_build`'s verdict on its static archive.
pub fn should_rebuild(allocator: Allocator, config: &RunConfig, stale: bool) -> (r: bool)
    ensures
        r == needs_build(allocator, config.link_mode, stale),
{
    !allocator.is_libc() && (is_dynamic(config) || stale)
}

fn path3(a: &str, b: &str, c: &str) -> (r: String)
    ensures
        r@ == path_join(path_join(a@, b@), c@),
{
    let ab = join_path(a, b);
    join_path(ab.as_str(), c)
}

/// The commands that build the allocator's library and stage it in the
/// library directory, or none when `should_rebuild` says no. `features`
/// are passed to apfmalloc's build.
pub fn build_steps(
    allocator: Allocator,
    stale: bool,
    config: &RunConfig,
    layout: &Layout,
    shared_ext: &str,
    features: &Vec<String>,
) -> (r: Vec<Step>)
    ensures
        needs_build(allocator, config.link_mode, stale) ==> step_views(r@) == build_plan(
            allocator,
            *config,
            *layout,
            shared_ext@,
            views(features@),
        ),
        !needs_build(allocator, config.link_mode, stale) ==> r@.len() == 0,
{
    if !should_rebuild(allocator, config, stale) {
        return Vec::new();
    }
    let ghost ext = library_extension(config.link_mode, shared_ext@);
    let file = artifact_file_name(allocator, config.link_mode, shared_ext).unwrap();
    let staged = join_path(layout.library_dir.as_str(), file.as_str());
    let dir = join_path(layout.allocators_dir.as_str(), allocator.name());
    let r = match allocator {
        Allocator::Libc => Vec::new(),
        Allocator::Jemalloc => {
            let target = match config.link_mode {
                LinkMode::Static => owned("build_lib_static"),
                LinkMode::Dynamic => owned("build_lib_shared"),
            };
            let make = Step { program: owned("make"), args: vec![target], cwd: Some(dir.clone()) };
            let built = path3(dir.as_str(), "lib", file.as_str());
            let copy = Step { program: owned("cp"), args: vec![built, staged], cwd: None };
            vec![make, copy]
        },
        Allocator::Apfmalloc => {
            let mut args: Vec<String> = vec![owned("build"), owned("--workspace")];
            if !is_debug(config) {
                args.push(owned("--release"));
            }
            args.push(owned("--manifest-path"));
            args.push(join_path(dir.as_str(), "Cargo.toml"));
            let ghost before = views(args@);
            if features.len() > 0 {
                args.push(owned("--features"));
                let mut i: usize = 0;
                while i < features.len()
                    invariant
                        i <= features@.len(),
                        features@.len() > 0,
                        views(args@) == before + seq!["--features"@] + views(features@).subrange(
                            0,
                            i as int,
                        ),
                    decreases features@.len() - i,
                {
                    let ghost prior = views(args@);
                    args.push(features[i].clone());
                    assert(views(args@) =~= prior.push(features@[i as int]@));
                    assert(views(features@).subrange(0, i + 1) =~= views(features@).subrange(
                        0,
                        i as int,
                    ).push(features@[i as int]@));
                    assert(views(args@) =~= before + seq!["--features"@] + views(
                        features@,
                    ).subrange(0, i + 1));
                    i = i + 1;
                }
                assert(views(features@).subrange(0, features@.len() as int) == views(features@));
                assert(views(args@) =~= before + feature_args(views(features@)));
            } else {
                assert(views(args@) =~= before + feature_args(views(features@)));
            }
            let cargo = Step { program: owned("cargo"), args, cwd: None };
            let profile = if is_debug(config) {
                "debug"
            } else {
                "release"
            };
            let target_dir = join_path(dir.as_str(), "target");
            let built = path3(target_dir.as_str(), profile, file.as_str());
            let copy = Step { program: owned("cp"), args: vec![built, staged], cwd: None };
            vec![cargo, copy]
        },
        Allocator::Lrmalloc => {
            let recipe_file = match config.link_mode {
                LinkMode::Static => owned("lrmalloc").concat(".a"),
                LinkMode::Dynamic => owned("lrmalloc").concat(shared_ext),
            };
            let make = Step {
                program: owned("make"),
                args: vec![recipe_file.clone()],
                cwd: Some(dir.clone()),
            };
            let built = join_path(dir.as_str(), recipe_file.as_str());
            let copy = Step { program: owned("cp"), args: vec![built, staged], cwd: None };
            vec![make, copy]
        },
    };
    proof {
        let plan = build_plan(allocator, *config, *layout, shared_ext@, views(features@));
        if allocator != Allocator::Libc {
            assert(step_views(r@).len() == plan.len());
            assert(step_views(r@)[0].program == plan[0].program);
            assert(step_views(r@)[0].cwd == plan[0].cwd);
            assert(step_views(r@)[0].args =~= plan[0].args);
            assert(step_views(r@)[1].program == plan[1].program);
            assert(step_views(r@)[1].cwd == plan[1].cwd);
            assert(step_views(r@)[1].args =~= plan[1].args);
        }
        assert(step_views(r@) =~= plan);
    }
    r
}

} // verus!

verus! {

/// Why the allocators' sources cannot be prepared.
#[derive(Clone, Copy, Debug, PartialEq, Eq, Structural)]
pub enum PrepareError {
    /// jemalloc has neither a Makefile, nor a configure script, nor
    /// autogen.sh.
    NoJemallocBuildFiles,
}

/// The commands that fetch the allocators' source trees: `git submodule
/// init` when some tree is not initialised, then `git submodule update
/// --remote` when some tree lacks its build files.
pub fn fetch_steps(initialized: bool, populated: bool) -> (r: Vec<Step>)
    ensures
        step_views(r@) == (if initialized {
            Seq::<StepView>::empty()
        } else {
            seq![step_view("git"@, seq!["submodule"@, "init"@], None)]
        }) + (if populated {
            Seq::<StepView>::empty()
        } else {
            seq![step_view("git"@, seq!["submodule"@, "update"@, "--remote"@], None)]
        }),
{
    let mut r: Vec<Step> = Vec::new();
    if !initialized {
        r.push(Step { program: owned("git"), args: vec![owned("submodule"), owned("init")], cwd: None });
    }
    let ghost first = step_views(r@);
    if !populated {
        r.push(
            Step {
                program: owned("git"),
                args: vec![owned("submodule"), owned("update"), owned("--remote")],
                cwd: None,
            },
        );
    }
    proof {
        if !initialized {
            assert(step_views(r@)[0].args =~= seq!["submodule"@, "init"@]);
        }
        if !populated {
            assert(step_views(r@).last().args =~= seq!["submodule"@, "update"@, "--remote"@]);
        }
        assert(step_views(r@) =~= (if initialized {
            Seq::<StepView>::empty()
        } else {
            seq![step_view("git"@, seq!["submodule"@, "init"@], None)]
        }) + (if populated {
            Seq::<StepView>::empty()
        } else {
            seq![step_view("git"@, seq!["submodule"@, "update"@, "--remote"@], None)]
        }));
    }
    r
}

/// The command that prepares jemalloc's build directory: none when it has a
/// Makefile; else its configure script, without exported symbols and
/// without the zone allocator; else `autogen.sh`, which configures too. An
/// error when it has none of the three.
pub fn jemalloc_configure_step(
    has_makefile: bool,
    has_configure: bool,
    has_autogen: bool,
    layout: &Layout,
) -> (r: Result<Option<Step>, PrepareError>)
    ensures
        has_makefile ==> r matches Ok(None),
        !has_makefile && has_configure ==> (r matches Ok(Some(s)) && s@ == step_view(
            "./configure"@,
            seq!["--without-export"@, "--disable-zone-allocator"@],
            Some(path_join(layout.allocators_dir@, "jemalloc"@)),
        )),
        !has_makefile && !has_configure && has_autogen ==> (r matches Ok(Some(s)) && s@ == step_view(
            "sh"@,
            seq!["./autogen.sh"@],
            Some(path_join(layout.allocators_dir@, "jemalloc"@)),
        )),
        !has_makefile && !has_configure && !has_autogen ==> r == Err::<Option<Step>, PrepareError>(
            PrepareError::NoJemallocBuildFiles,
        ),
{
    if has_makefile {
        return Ok(None);
    }
    let dir = join_path(layout.allocators_dir.as_str(), "jemalloc");
    if has_configure {
        let args = vec![owned("--without-export"), owned("--disable-zone-allocator")];
        let s = Step { program: owned("./configure"), args, cwd: Some(dir) };
        assert(s@.args =~= seq!["--without-export"@, "--disable-zone-allocator"@]);
        Ok(Some(s))
    } else if has_autogen {
        let s = Step { program: owned("sh"), args: vec![owned("./autogen.sh")], cwd: Some(dir) };
        assert(s@.args =~= seq!["./autogen.sh"@]);
        Ok(Some(s))
    } else {
        Err(PrepareError::NoJemallocBuildFiles)
    }
}

} // verus!

verus! {

/// Whether `name` ends in `.a`, the extension of a static archive.
pub open spec fn is_archive(name: Seq<char>) -> bool {
    name.len() >= 2 && name.subrange(name.len() - 2, name.len() as int) == ".a"@
}

/// The static archives among `names`, in order.
pub open spec fn archives(names: Seq<Seq<char>>) -> Seq<Seq<char>>
    decreases names.len(),
{
    if names.len() == 0 {
        Seq::empty()
    } else if is_archive(names.last()) {
        archives(names.drop_last()).push(names.last())
    } else {
        archives(names.drop_last())
    }
}

fn ends_with_archive_ext(name: &str) -> (r: bool)
    ensures
        r == is_archive(name@),
{
    proof {
        reveal_strlit(".a");
    }
    let n = name.unicode_len();
    if n < 2 {
        return false;
    }
    let r = name.get_char(n - 2) == '.' && name.get_char(n - 1) == 'a';
    let ghost tail = name@.subrange(n - 2, n as int);
    assert(".a"@ =~= seq!['.', 'a']);
    if r {
        assert(tail =~= ".a"@);
    } else {
        assert(tail[0] != '.' || tail[1] != 'a');
    }
    r
}

/// The commands that remove what the allocators' builds produced: the
/// static archives among `library_files` (the names in the library
/// directory), apfmalloc's build directory, jemalloc's archive and its
/// configuration.
pub fn clean_steps(layout: &Layout, library_files: &Vec<String>) -> (r: Vec<Step>)
    ensures
        step_views(r@) == seq![
            step_view("rm"@, archives(views(library_files@)), Some(layout.library_dir@)),
            step_view("cargo"@, seq!["clean"@], Some(path_join(layout.allocators_dir@, "apfmalloc"@))),
            step_view(
                "rm"@,
                seq!["libjemalloc.a"@],
                Some(path_join(path_join(layout.allocators_dir@, "jemalloc"@), "lib"@)),
            ),
            step_view("make"@, seq!["distclean"@], Some(path_join(layout.allocators_dir@, "jemalloc"@))),
        ],
{
    let mut found: Vec<String> = Vec::new();
    let mut i: usize = 0;
    while i < library_files.len()
        invariant
            i <= library_files@.len(),
            views(found@) == archives(views(library_files@).subrange(0, i as int)),
        decreases library_files@.len() - i,
    {
        let ghost before = views(found@);
        assert(views(library_files@).subrange(0, i + 1).drop_last() =~= views(library_files@).subrange(0, i as int));
        if ends_with_archive_ext(library_files[i].as_str()) {
            found.push(library_files[i].clone());
            assert(views(found@) =~= before.push(library_files@[i as int]@));
        }
        i = i + 1;
    }
    assert(views(library_files@).subrange(0, library_files@.len() as int) =~= views(library_files@));
    let jemalloc = join_path(layout.allocators_dir.as_str(), "jemalloc");
    let r = vec![
        Step { program: owned("rm"), args: found, cwd: Some(layout.library_dir.clone()) },
        Step {
            program: owned("cargo"),
            args: vec![owned("clean")],
            cwd: Some(join_path(layout.allocators_dir.as_str(), "apfmalloc")),
        },
        Step {
            program: owned("rm"),
            args: vec![owned("libjemalloc.a")],
            cwd: Some(join_path(jemalloc.as_str(), "lib")),
        },
        Step { program: owned("make"), args: vec![owned("distclean")], cwd: Some(jemalloc) },
    ];
    proof {
        assert(step_views(r@)[1].args =~= seq!["clean"@]);
        assert(step_views(r@)[2].args =~= seq!["libjemalloc.a"@]);
        assert(step_views(r@)[3].args =~= seq!["distclean"@]);
        assert(step_views(r@) =~= seq![
            step_view("rm"@, archives(views(library_files@)), Some(layout.library_dir@)),
            step_view("cargo"@, seq!["clean"@], Some(path_join(layout.allocators_dir@, "apfmalloc"@))),
            step_view(
                "rm"@,
                seq!["libjemalloc.a"@],
                Some(path_join(path_join(layout.allocators_dir@, "jemalloc"@), "lib"@)),
            ),
            step_view("make"@, seq!["distclean"@], Some(path_join(layout.allocators_dir@, "jemalloc"@))),
        ]);
    }
    r
}

} // verus!
