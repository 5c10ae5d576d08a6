use vstd::prelude::*;

use crate::allocator::Allocator;
use crate::artifact::artifact_name;
use crate::benchmark::{Benchmark, executable_name};
use crate::config::{LinkMode, RunConfig, is_dynamic};
use crate::layout::Layout;
use crate::text::{join_path, owned, path_join};
use crate::workload::{decimal, decimal_string};

verus! {

/// The executable name of `benchmark` linked for `allocator`.
pub fn executable_for(benchmark: &Benchmark, allocator: Allocator) -> (r: String)
    ensures
        r@ == executable_name(benchmark.spec_name(), allocator.spec_library()),
{
    proof {
        reveal_strlit("-");
        reveal_strlit("libc");
        assert("-"@ =~= seq!['-']);
        assert("libc"@ =~= seq!['l', 'i', 'b', 'c']);
    }
    let label = match allocator.library() {
        Some(name) => name,
        None => "libc",
    };
    owned(benchmark.name()).concat("-").concat(label)
}

/// Where the executable of `benchmark` linked for `allocator` is.
pub fn executable_path(benchmark: &Benchmark, allocator: Allocator, layout: &Layout) -> (r: String)
    ensures
        r@ == path_join(
            layout.binary_dir@,
            executable_name(benchmark.spec_name(), allocator.spec_library()),
        ),
{
    let name = executable_for(benchmark, allocator);
    join_path(layout.binary_dir.as_str(), name.as_str())
}

/// Where the measurement log of the executable `executable` goes:
/// `<executable>.txt` in the results directory.
pub fn result_log_path(executable: &str, layout: &Layout) -> (r: String)
    ensures
        r@ == path_join(layout.results_dir@, executable@ + ".txt"@),
{
    let file = owned(executable).concat(".txt");
    join_path(layout.results_dir.as_str(), file.as_str())
}

/// The shared object to preload into a benchmark run with `allocator`:
/// only in dynamic mode, never for libc. The path is the allocator's
/// staged library, `shared_ext` being the platform's shared-object
/// extension.
pub fn preload_library(allocator: Allocator, config: &RunConfig, layout: &Layout, shared_ext: &str) -> (r:
    Option<String>)
    ensures
        (config.link_mode == LinkMode::Dynamic && allocator != Allocator::Libc) ==> (r matches Some(
            p,
        ) && p@ == path_join(layout.library_dir@, artifact_name(allocator, LinkMode::Dynamic, shared_ext@))),
        (config.link_mode == LinkMode::Static || allocator == Allocator::Libc) ==> r is None,
{
    if !is_dynamic(config) || allocator.is_libc() {
        return None;
    }
    let file = owned("lib").concat(allocator.name()).concat(shared_ext);
    Some(join_path(layout.library_dir.as_str(), file.as_str()))
}

/// The line that opens the log block of one thread count.
pub fn start_marker(executable: &str, threads: usize) -> (r: String)
    ensures
        r@ == "-------------- [START] "@ + executable@ + " with "@ + decimal(threads as nat)
            + " threads --------------"@,
{
    let count = decimal_string(threads);
    owned("-------------- [START] ").concat(executable).concat(" with ").concat(count.as_str()).concat(
        " threads --------------",
    )
}

/// The line that opens the log of trial `trial` (from zero).
pub fn trial_marker(trial: usize) -> (r: String)
    ensures
        r@ == "---- ))Start Iteration "@ + decimal(trial as nat) + " ----"@,
{
    let count = decimal_string(trial);
    owned("---- ))Start Iteration ").concat(count.as_str()).concat(" ----")
}

/// The line that closes the log block of one thread count.
pub fn end_marker() -> (r: String)
    ensures
        r@ == "-------------- [END] --------------"@,
{
    owned("-------------- [END] --------------")
}

/// The lines written in place of a throughput when a trial crashed; they
/// close the block.
pub fn crash_marker() -> (r: String)
    ensures
        r@ == "PROGRAM CRASHED\n"@ + "-------------- [END] --------------"@,
{
    owned("PROGRAM CRASHED\n").concat("-------------- [END] --------------")
}

} // verus!

verus! {

/// The log lines written before trial `trial` (from zero) with `threads`
/// threads: the block's start marker before the first trial of a thread
/// count, then the trial's own marker.
pub fn lines_before_trial(executable: &str, threads: usize, trial: usize) -> (r: Vec<String>)
    ensures
        trial == 0 ==> r@.len() == 2 && r@[0]@ == "-------------- [START] "@ + executable@ + " with "@
            + decimal(threads as nat) + " threads --------------"@ && r@[1]@
            == "---- ))Start Iteration "@ + decimal(trial as nat) + " ----"@,
        trial != 0 ==> r@.len() == 1 && r@[0]@ == "---- ))Start Iteration "@ + decimal(trial as nat)
            + " ----"@,
{
    let mut r: Vec<String> = Vec::new();
    if trial == 0 {
        r.push(start_marker(executable, threads));
    }
    r.push(trial_marker(trial));
    r
}

} // verus!
