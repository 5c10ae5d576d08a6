use vstd::prelude::*;

verus! {

/// How allocator libraries reach a benchmark executable.
#[derive(Clone, Copy, Debug, PartialEq, Eq, Structural)]
pub enum LinkMode {
    /// The allocator archive is embedded at link time.
    Static,
    /// The executable is linked without an allocator; the shared object is
    /// preloaded when the benchmark is launched.
    Dynamic,
}

/// The settings of one run, fixed at start-up and passed to every stage.
#[derive(Clone, Copy, Debug, PartialEq, Eq, Structural)]
pub struct RunConfig {
    /// Build allocators and benchmarks with debug symbols.
    pub debug: bool,
    /// Static archive or dynamic preload.
    pub link_mode: LinkMode,
    /// Largest thread count of the sweep; zero skips measurement.
    pub max_threads: usize,
}

impl RunConfig {
    pub fn new(debug: bool, link_mode: LinkMode, max_threads: usize) -> (r: RunConfig)
        ensures
            r.debug == debug,
            r.link_mode == link_mode,
            r.max_threads == max_threads,
    {
        RunConfig { debug, link_mode, max_threads }
    }

    pub open spec fn is_dynamic(self) -> bool {
        self.link_mode == LinkMode::Dynamic
    }
}

/// Whether the debug variant of every build recipe is selected.
pub fn is_debug(config: &RunConfig) -> (r: bool)
    ensures
        r == config.debug,
{
    config.debug
}

/// Whether allocators are injected at launch instead of linked.
pub fn is_dynamic(config: &RunConfig) -> (r: bool)
    ensures
        r == config.is_dynamic(),
{
    match config.link_mode {
        LinkMode::Static => false,
        LinkMode::Dynamic => true,
    }
}

} // verus!
