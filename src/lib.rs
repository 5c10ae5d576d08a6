//! Build, link and measurement orchestration for comparing memory allocators.
//!
//! The library holds the decisions of the tool: which allocators exist and how
//! their artifacts are named, when an artifact is stale, which commands link a
//! benchmark, and in what order trials run and are grouped. Running the
//! commands, reading the file system and drawing charts is left to the caller.

pub mod allocator;
pub mod artifact;
pub mod benchmark;
pub mod config;
pub mod graph;
pub mod layout;
pub mod measure;
pub mod report;
pub mod select;
pub mod staleness;
pub mod step;
pub mod text;
pub mod workload;
