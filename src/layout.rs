use vstd::prelude::*;

use crate::text::owned;

verus! {

/// Where the stages read and write their files.
#[derive(Clone, Debug)]
pub struct Layout {
    /// One built library per allocator.
    pub library_dir: String,
    /// One subdirectory per benchmark, each with its own build recipe.
    pub sources_dir: String,
    /// Compiled, not yet linked, benchmark objects.
    pub object_dir: String,
    /// Linked benchmark executables.
    pub binary_dir: String,
    /// One text log per benchmark and allocator.
    pub results_dir: String,
    /// One chart per benchmark.
    pub graphs_dir: String,
    /// Root of the allocators' source trees.
    pub allocators_dir: String,
}

impl Layout {
    /// The layout relative to the repository root.
    pub fn standard() -> (r: Layout)
        ensures
            r.library_dir@ == "./allocators/target"@,
            r.sources_dir@ == "./benchmarks/sources"@,
            r.object_dir@ == "./benchmarks/objects"@,
            r.binary_dir@ == "./benchmarks/bin"@,
            r.results_dir@ == "./benchmarks/results"@,
            r.graphs_dir@ == "./graphs"@,
            r.allocators_dir@ == "./allocators"@,
    {
        Layout {
            library_dir: owned("./allocators/target"),
            sources_dir: owned("./benchmarks/sources"),
            object_dir: owned("./benchmarks/objects"),
            binary_dir: owned("./benchmarks/bin"),
            results_dir: owned("./benchmarks/results"),
            graphs_dir: owned("./graphs"),
            allocators_dir: owned("./allocators"),
        }
    }
}

} // verus!
