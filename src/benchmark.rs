use vstd::prelude::*;

use crate::allocator::libc_name;
use crate::config::{LinkMode, RunConfig, is_debug};
use crate::layout::Layout;
use crate::step::{Step, StepOutcome, views};
use crate::text::{join_path, owned, path_join, text_eq};

verus! {

/// A benchmark program: its source directory and its name, which is the
/// name of that directory.
#[derive(Clone, Debug)]
pub struct Benchmark {
    src_dir: String,
    benchmark_name: String,
}

/// Why a benchmark could not be linked.
#[derive(Clone, Debug, PartialEq, Eq)]
pub enum BenchmarkError {
    /// A needed file is missing, or a command could not be started; `what`
    /// names the file or the program.
    IO { what: String },
    /// The linker ran and failed with this exit code.
    ExitStatus { code: Option<i32> },
}

/// The allocator part of an executable's name: the library's base name, or
/// `libc` for the platform default.
pub open spec fn allocator_label(allocator: Option<Seq<char>>) -> Seq<char> {
    match allocator {
        Some(a) => a,
        None => libc_name(),
    }
}

/// `<benchmark>.o`
pub open spec fn object_file_name(benchmark: Seq<char>) -> Seq<char> {
    benchmark + seq!['.', 'o']
}

/// `<benchmark>-<allocator or libc>`
pub open spec fn executable_name(benchmark: Seq<char>, allocator: Option<Seq<char>>) -> Seq<char> {
    benchmark + seq!['-'] + allocator_label(allocator)
}

/// Whether the link command names the allocator's library: only in static
/// mode, and never for libc.
pub open spec fn links_library(allocator: Option<Seq<char>>, mode: LinkMode) -> bool {
    mode == LinkMode::Static && allocator_label(allocator) != libc_name()
}

/// `-L<library dir>` and `-l<allocator>` where the library is linked;
/// nothing otherwise.
pub open spec fn library_flags(
    library_dir: Seq<char>,
    allocator: Option<Seq<char>>,
    mode: LinkMode,
) -> Seq<Seq<char>> {
    if links_library(allocator, mode) {
        seq![seq!['-', 'L'] + library_dir, seq!['-', 'l'] + allocator_label(allocator)]
    } else {
        Seq::empty()
    }
}

/// The arguments of the linker for one benchmark and one allocator.
pub open spec fn link_args(
    layout: Layout,
    benchmark: Seq<char>,
    allocator: Option<Seq<char>>,
    mode: LinkMode,
) -> Seq<Seq<char>> {
    seq![
        seq!['-', 'o'],
        path_join(layout.binary_dir@, executable_name(benchmark, allocator)),
        path_join(layout.object_dir@, object_file_name(benchmark)),
    ] + library_flags(layout.library_dir@, allocator, mode) + seq![
        seq!['-', 'l', 'p', 't', 'h', 'r', 'e', 'a', 'd'],
        seq!['-', 'l', 'm'],
    ]
}

pub open spec fn option_view(a: Option<String>) -> Option<Seq<char>> {
    match a {
        Some(s) => Some(s@),
        None => None,
    }
}

/// The link command of one benchmark against one allocator.
pub open spec fn link_step_spec(
    step: Step,
    layout: Layout,
    benchmark: Seq<char>,
    allocator: Option<Seq<char>>,
    mode: LinkMode,
) -> bool {
    &&& step.program@ == seq!['c', 'c']
    &&& step.spec_args() == link_args(layout, benchmark, allocator, mode)
    &&& step.cwd is None
}

impl BenchmarkError {
    /// The error for a command that did not succeed; `None` on success.
    pub fn from_outcome(outcome: StepOutcome, program: &str) -> (r: Option<BenchmarkError>)
        ensures
            outcome == StepOutcome::Success ==> r is None,
            outcome matches StepOutcome::Failed { code } ==> r == Some(
                BenchmarkError::ExitStatus { code },
            ),
            outcome == StepOutcome::SpawnFailure ==> (r matches Some(BenchmarkError::IO { what })
                && what@ == program@),
    {
        match outcome {
            StepOutcome::Success => None,
            StepOutcome::Failed { code } => Some(BenchmarkError::ExitStatus { code }),
            StepOutcome::SpawnFailure => Some(BenchmarkError::IO { what: owned(program) }),
        }
    }
}

impl Benchmark {
    pub closed spec fn spec_name(self) -> Seq<char> {
        self.benchmark_name@
    }

    pub closed spec fn spec_src_dir(self) -> Seq<char> {
        self.src_dir@
    }

    /// The benchmark whose sources are in `src_dir`, named `benchmark_name`
    /// (the last component of `src_dir`).
    pub fn new(src_dir: String, benchmark_name: String) -> (r: Benchmark)
        ensures
            r.spec_src_dir() == src_dir@,
            r.spec_name() == benchmark_name@,
    {
        Benchmark { src_dir, benchmark_name }
    }

    /// A copy of this benchmark.
    pub fn duplicate(&self) -> (r: Benchmark)
        ensures
            r == *self,
    {
        Benchmark { src_dir: self.src_dir.clone(), benchmark_name: self.benchmark_name.clone() }
    }

    pub fn get_name(&self) -> (r: String)
        ensures
            r@ == self.spec_name(),
    {
        self.benchmark_name.clone()
    }

    pub fn name(&self) -> (r: &str)
        ensures
            r@ == self.spec_name(),
    {
        self.benchmark_name.as_str()
    }

    pub fn src_dir(&self) -> (r: &str)
        ensures
            r@ == self.spec_src_dir(),
    {
        self.src_dir.as_str()
    }

    /// The directories that cleaning removes with everything in them: the
    /// linked executables and the compiled objects.
    pub fn clean_benchmarks(layout: &Layout) -> (r: Vec<String>)
        ensures
            views(r@) == seq![layout.binary_dir@, layout.object_dir@],
    {
        let r = vec![layout.binary_dir.clone(), layout.object_dir.clone()];
        assert(views(r@) =~= seq![layout.binary_dir@, layout.object_dir@]);
        r
    }

    /// `<name>.o`, the object file that the benchmark's recipe produces.
    pub fn get_object_file(&self) -> (r: String)
        ensures
            r@ == object_file_name(self.spec_name()),
    {
        proof {
            reveal_strlit(".o");
        }
        self.benchmark_name.clone().concat(".o")
    }

    /// The path of the compiled object in the objects directory.
    pub fn object_path(&self, layout: &Layout) -> (r: String)
        ensures
            r@ == path_join(layout.object_dir@, object_file_name(self.spec_name())),
    {
        join_path(layout.object_dir.as_str(), self.get_object_file().as_str())
    }

    /// The commands that compile the benchmark into one object file and move
    /// it into the objects directory: the recipe's `build` target, or
    /// `build_debug` in a debug run, run in the source directory; then `mv`.
    pub fn create_object_file(&self, config: &RunConfig, layout: &Layout) -> (r: Vec<Step>)
        ensures
            r@.len() == 2,
            r@[0].program@ == "make"@,
            r@[0].spec_args() == seq![if config.debug { "build_debug"@ } else { "build"@ }],
            r@[0].spec_cwd() == Some(self.spec_src_dir()),
            r@[1].program@ == "mv"@,
            r@[1].spec_args() == seq![
                path_join(self.spec_src_dir(), object_file_name(self.spec_name())),
                path_join(layout.object_dir@, object_file_name(self.spec_name())),
            ],
            r@[1].cwd is None,
    {
        let target = if is_debug(config) {
            owned("build_debug")
        } else {
            owned("build")
        };
        let build = Step {
            program: owned("make"),
            args: vec![target],
            cwd: Some(self.src_dir.clone()),
        };
        let object = self.get_object_file();
        let origin = join_path(self.src_dir.as_str(), object.as_str());
        let dest = join_path(layout.object_dir.as_str(), object.as_str());
        let relocate = Step { program: owned("mv"), args: vec![origin, dest], cwd: None };
        let r = vec![build, relocate];
        assert(r@[0].spec_args() =~= seq![if config.debug { "build_debug"@ } else { "build"@ }]);
        assert(r@[1].spec_args() =~= seq![
            path_join(self.spec_src_dir(), object_file_name(self.spec_name())),
            path_join(layout.object_dir@, object_file_name(self.spec_name())),
        ]);
        r
    }

    /// The linker command that builds this benchmark's executable for
    /// `allocator` (a library base name; `None` for libc).
    pub fn link_step(&self, allocator: &Option<String>, config: &RunConfig, layout: &Layout) -> (r:
        Step)
        ensures
            link_step_spec(r, *layout, self.spec_name(), option_view(*allocator), config.link_mode),
    {
        proof {
            reveal_strlit("libc");
            reveal_strlit("-o");
            reveal_strlit("-L");
            reveal_strlit("-l");
            reveal_strlit("-lpthread");
            reveal_strlit("-lm");
            reveal_strlit("cc");
            reveal_strlit("-");
            assert("libc"@ =~= libc_name());
            assert("-o"@ =~= seq!['-', 'o']);
            assert("-L"@ =~= seq!['-', 'L']);
            assert("-l"@ =~= seq!['-', 'l']);
            assert("-lpthread"@ =~= seq!['-', 'l', 'p', 't', 'h', 'r', 'e', 'a', 'd']);
            assert("-lm"@ =~= seq!['-', 'l', 'm']);
            assert("cc"@ =~= seq!['c', 'c']);
            assert("-"@ =~= seq!['-']);
        }
        let ghost a = option_view(*allocator);
        let label = match allocator {
            Some(name) => name.clone(),
            None => owned("libc"),
        };
        assert(label@ == allocator_label(a));
        let exe = self.benchmark_name.clone().concat("-").concat(label.as_str());
        let mut args: Vec<String> = vec![
            owned("-o"),
            join_path(layout.binary_dir.as_str(), exe.as_str()),
            self.object_path(layout),
        ];
        let ghost base = views(args@);
        let static_mode = match config.link_mode {
            LinkMode::Static => true,
            LinkMode::Dynamic => false,
        };
        if static_mode && !text_eq(label.as_str(), "libc") {
            args.push(owned("-L").concat(layout.library_dir.as_str()));
            args.push(owned("-l").concat(label.as_str()));
        }
        let ghost with_flags = views(args@);
        assert(links_library(a, config.link_mode) == (static_mode && label@ != libc_name()));
        assert(with_flags =~= base + library_flags(layout.library_dir@, a, config.link_mode));
        args.push(owned("-lpthread"));
        args.push(owned("-lm"));
        assert(views(args@) =~= link_args(*layout, self.spec_name(), a, config.link_mode));
        Step { program: owned("cc"), args, cwd: None }
    }

    /// The linker commands for every allocator of `allocators`, in order,
    /// each producing `<name>-<allocator or libc>` in the binaries
    /// directory. Fails with an IO error, and no command, when the compiled
    /// object is missing (`object_present` is false).
    pub fn create_binaries_for(
        &self,
        object_present: bool,
        allocators: &Vec<Option<String>>,
        config: &RunConfig,
        layout: &Layout,
    ) -> (r: Result<Vec<Step>, BenchmarkError>)
        ensures
            !object_present ==> (r matches Err(BenchmarkError::IO { what }) && what@ == path_join(
                layout.object_dir@,
                object_file_name(self.spec_name()),
            )),
            object_present ==> (r matches Ok(steps) && steps@.len() == allocators@.len() && forall|
                i: int,
            |
                0 <= i < steps@.len() ==> link_step_spec(
                    #[trigger] steps@[i],
                    *layout,
                    self.spec_name(),
                    option_view(allocators@[i]),
                    config.link_mode,
                )),
    {
        if !object_present {
            return Err(BenchmarkError::IO { what: self.object_path(layout) });
        }
        let mut steps: Vec<Step> = Vec::new();
        let mut i: usize = 0;
        while i < allocators.len()
            invariant
                i <= allocators@.len(),
                steps@.len() == i,
                forall|j: int|
                    0 <= j < i ==> link_step_spec(
                        #[trigger] steps@[j],
                        *layout,
                        self.spec_name(),
                        option_view(allocators@[j]),
                        config.link_mode,
                    ),
            decreases allocators@.len() - i,
        {
            steps.push(self.link_step(&allocators[i], config, layout));
            i = i + 1;
        }
        Ok(steps)
    }
}

} // verus!

verus! {

/// The link command carries the allocator's library flags exactly when the
/// mode is static and the allocator is not libc: then `-L<library dir>` and
/// `-l<allocator>` follow the object file; otherwise the object file is
/// followed by the system libraries alone.
pub proof fn lemma_library_flags_exclusive(
    layout: Layout,
    benchmark: Seq<char>,
    allocator: Option<Seq<char>>,
    mode: LinkMode,
)
    ensures
        mode == LinkMode::Static && allocator_label(allocator) != libc_name() ==> {
            let args = link_args(layout, benchmark, allocator, mode);
            &&& args.len() == 7
            &&& args[3] == seq!['-', 'L'] + layout.library_dir@
            &&& args[4] == seq!['-', 'l'] + allocator_label(allocator)
        },
        mode == LinkMode::Dynamic || allocator_label(allocator) == libc_name() ==> {
            let args = link_args(layout, benchmark, allocator, mode);
            &&& args.len() == 5
            &&& args[3] == seq!['-', 'l', 'p', 't', 'h', 'r', 'e', 'a', 'd']
            &&& args[4] == seq!['-', 'l', 'm']
        },
{
}

/// Linking benchmark `benchmark` against libc (`None`) and against the
/// allocator `x` writes the executables `<benchmark>-libc` and
/// `<benchmark>-x` into the binaries directory.
pub proof fn lemma_executable_naming(
    layout: Layout,
    benchmark: Seq<char>,
    x: Seq<char>,
    mode: LinkMode,
    with_libc: Step,
    with_x: Step,
)
    requires
        link_step_spec(with_libc, layout, benchmark, None, mode),
        link_step_spec(with_x, layout, benchmark, Some(x), mode),
    ensures
        with_libc.spec_args()[1] == path_join(
            layout.binary_dir@,
            benchmark + seq!['-', 'l', 'i', 'b', 'c'],
        ),
        with_x.spec_args()[1] == path_join(layout.binary_dir@, benchmark + seq!['-'] + x),
{
    assert(benchmark + seq!['-'] + libc_name() =~= benchmark + seq!['-', 'l', 'i', 'b', 'c']);
}

} // verus!
