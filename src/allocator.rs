use vstd::prelude::*;

use crate::text::text_eq;

verus! {

/// The allocators the tool knows how to build and compare.
#[derive(Clone, Copy, Debug, PartialEq, Eq, Structural)]
pub enum Allocator {
    /// The platform's default allocator: no library, an unlinked binary.
    Libc,
    Apfmalloc,
    Jemalloc,
    Lrmalloc,
}

/// A name on the command line that selects nothing: no registered
/// allocator, or no available benchmark, has it.
#[derive(Clone, Debug, PartialEq, Eq)]
pub enum ConfigError {
    UnknownAllocator { name: String },
    UnknownBenchmark { name: String },
}

pub open spec fn libc_name() -> Seq<char> {
    seq!['l', 'i', 'b', 'c']
}

pub open spec fn apfmalloc_name() -> Seq<char> {
    seq!['a', 'p', 'f', 'm', 'a', 'l', 'l', 'o', 'c']
}

pub open spec fn jemalloc_name() -> Seq<char> {
    seq!['j', 'e', 'm', 'a', 'l', 'l', 'o', 'c']
}

pub open spec fn lrmalloc_name() -> Seq<char> {
    seq!['l', 'r', 'm', 'a', 'l', 'l', 'o', 'c']
}

/// All registered allocators, in the order in which they are built by default.
pub open spec fn registry() -> Seq<Allocator> {
    seq![Allocator::Libc, Allocator::Apfmalloc, Allocator::Jemalloc, Allocator::Lrmalloc]
}

/// The allocator registered under `name`, if any.
pub open spec fn allocator_named(name: Seq<char>) -> Option<Allocator> {
    if name == libc_name() {
        Some(Allocator::Libc)
    } else if name == apfmalloc_name() {
        Some(Allocator::Apfmalloc)
    } else if name == jemalloc_name() {
        Some(Allocator::Jemalloc)
    } else if name == lrmalloc_name() {
        Some(Allocator::Lrmalloc)
    } else {
        None
    }
}

pub open spec fn is_registered(name: Seq<char>) -> bool {
    allocator_named(name) is Some
}

impl Allocator {
    /// The name under which the allocator is selected and reported.
    pub open spec fn spec_name(self) -> Seq<char> {
        match self {
            Allocator::Libc => libc_name(),
            Allocator::Apfmalloc => apfmalloc_name(),
            Allocator::Jemalloc => jemalloc_name(),
            Allocator::Lrmalloc => lrmalloc_name(),
        }
    }

    /// The base name of the allocator's library artifact; none for libc.
    pub open spec fn spec_library(self) -> Option<Seq<char>> {
        match self {
            Allocator::Libc => None,
            _ => Some(self.spec_name()),
        }
    }

    pub fn name(&self) -> (r: &'static str)
        ensures
            r@ == self.spec_name(),
    {
        proof {
            reveal_strlit("libc");
            reveal_strlit("apfmalloc");
            reveal_strlit("jemalloc");
            reveal_strlit("lrmalloc");
        }
        match self {
            Allocator::Libc => "libc",
            Allocator::Apfmalloc => "apfmalloc",
            Allocator::Jemalloc => "jemalloc",
            Allocator::Lrmalloc => "lrmalloc",
        }
    }

    /// The base name of the library artifact, or `None` for the platform
    /// default allocator.
    pub fn library(&self) -> (r: Option<&'static str>)
        ensures
            r matches Some(s) ==> self.spec_library() == Some(s@),
            r is None ==> self.spec_library() is None,
    {
        match self {
            Allocator::Libc => None,
            _ => Some(self.name()),
        }
    }

    /// Whether this is the platform default allocator.
    pub fn is_libc(&self) -> (r: bool)
        ensures
            r == (*self == Allocator::Libc),
    {
        match self {
            Allocator::Libc => true,
            _ => false,
        }
    }
}

proof fn lemma_names_distinct()
    ensures
        forall|a: Allocator, b: Allocator| a.spec_name() == b.spec_name() ==> a == b,
        forall|a: Allocator| #[trigger] allocator_named(a.spec_name()) == Some(a),
{
    assert(libc_name()[1] != apfmalloc_name()[1]);
    assert(libc_name().len() != jemalloc_name().len());
    assert(libc_name().len() != lrmalloc_name().len());
    assert(apfmalloc_name().len() != jemalloc_name().len());
    assert(apfmalloc_name().len() != lrmalloc_name().len());
    assert(jemalloc_name()[0] != lrmalloc_name()[0]);
}

/// Looks `name` up in the registry.
pub fn lookup_allocator(name: &str) -> (r: Result<Allocator, ConfigError>)
    ensures
        allocator_named(name@) matches Some(a) ==> r == Ok::<Allocator, ConfigError>(a),
        allocator_named(name@) is None ==> (r matches Err(ConfigError::UnknownAllocator { name: n })
            && n@ == name@),
{
    proof {
        lemma_names_distinct();
    }
    let all = registered_allocators();
    let mut i: usize = 0;
    while i < all.len()
        invariant
            all@ == registry(),
            i <= all@.len(),
            forall|j: int| 0 <= j < i ==> all@[j].spec_name() != name@,
        decreases all@.len() - i,
    {
        let a = all[i];
        if text_eq(a.name(), name) {
            return Ok(a);
        }
        i = i + 1;
    }
    assert(allocator_named(name@) is None) by {
        assert(registry()[0].spec_name() != name@);
        assert(registry()[1].spec_name() != name@);
        assert(registry()[2].spec_name() != name@);
        assert(registry()[3].spec_name() != name@);
    }
    Err(ConfigError::UnknownAllocator { name: String::from_str(name) })
}

/// The file name of the static archive built from library base name `base`.
pub open spec fn static_archive_name(base: Seq<char>) -> Seq<char> {
    seq!['l', 'i', 'b'] + base + seq!['.', 'a']
}

/// The file name of the static archive of the allocator registered as
/// `name`, which must link a library.
pub fn get_lib_file_name_actual(name: &str) -> (r: String)
    requires
        is_registered(name@),
        allocator_named(name@).unwrap().spec_library() is Some,
    ensures
        r@ == static_archive_name(allocator_named(name@).unwrap().spec_library().unwrap()),
{
    proof {
        reveal_strlit("lib");
        reveal_strlit(".a");
    }
    let base = get_allocator_lib_file(name).unwrap();
    String::from_str("lib").concat(base).concat(".a")
}

/// Every registered allocator, libc first.
pub fn registered_allocators() -> (r: Vec<Allocator>)
    ensures
        r@ == registry(),
{
    vec![Allocator::Libc, Allocator::Apfmalloc, Allocator::Jemalloc, Allocator::Lrmalloc]
}

/// The library base name of the allocator registered as `allocator_name`;
/// `None` for libc, which links no library.
pub fn get_allocator_lib_file(allocator_name: &str) -> (r: Option<&'static str>)
    requires
        is_registered(allocator_name@),
    ensures
        r matches Some(s) ==> allocator_named(allocator_name@).unwrap().spec_library() == Some(s@),
        r is None ==> allocator_named(allocator_name@).unwrap().spec_library() is None,
{
    match lookup_allocator(allocator_name) {
        Ok(a) => a.library(),
        Err(_) => None,
    }
}

} // verus!
