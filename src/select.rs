use vstd::prelude::*;

use crate::allocator::{
    Allocator, ConfigError, allocator_named, lookup_allocator, registered_allocators, registry,
};
use crate::benchmark::{Benchmark, option_view};
use crate::step::views;
use crate::text::{owned, text_eq};

verus! {

/// An entry of the benchmark sources directory: its path, its file name,
/// and whether it is a directory.
#[derive(Clone, Debug)]
pub struct ListedEntry {
    pub path: String,
    pub name: String,
    pub is_dir: bool,
}

/// The directory of sources shared by all benchmarks, never a benchmark.
pub open spec fn common_dir() -> Seq<char> {
    "common"@
}

/// Whether a listed entry is a benchmark: a directory other than `common`.
pub open spec fn is_benchmark_entry(e: ListedEntry) -> bool {
    e.is_dir && e.name@ != common_dir()
}

/// The benchmark entries of a listing, in listing order.
pub open spec fn benchmark_entries(s: Seq<ListedEntry>) -> Seq<ListedEntry>
    decreases s.len(),
{
    if s.len() == 0 {
        Seq::empty()
    } else if is_benchmark_entry(s.last()) {
        benchmark_entries(s.drop_last()).push(s.last())
    } else {
        benchmark_entries(s.drop_last())
    }
}

/// The benchmarks found in a listing of the sources directory: one per
/// subdirectory but `common`, in listing order, named after the directory.
pub fn get_available_benchmarks(entries: &Vec<ListedEntry>) -> (r: Vec<Benchmark>)
    ensures
        r@.len() == benchmark_entries(entries@).len(),
        forall|i: int|
            0 <= i < r@.len() ==> {
                &&& (#[trigger] r@[i]).spec_name() == benchmark_entries(entries@)[i].name@
                &&& r@[i].spec_src_dir() == benchmark_entries(entries@)[i].path@
            },
{
    let common = "common";
    let mut out: Vec<Benchmark> = Vec::new();
    let mut i: usize = 0;
    while i < entries.len()
        invariant
            i <= entries@.len(),
            common@ == common_dir(),
            out@.len() == benchmark_entries(entries@.subrange(0, i as int)).len(),
            forall|j: int|
                0 <= j < out@.len() ==> {
                    &&& (#[trigger] out@[j]).spec_name() == benchmark_entries(
                        entries@.subrange(0, i as int),
                    )[j].name@
                    &&& out@[j].spec_src_dir() == benchmark_entries(
                        entries@.subrange(0, i as int),
                    )[j].path@
                },
        decreases entries@.len() - i,
    {
        let e = &entries[i];
        assert(entries@.subrange(0, i + 1).drop_last() == entries@.subrange(0, i as int));
        if e.is_dir && !text_eq(e.name.as_str(), common) {
            out.push(Benchmark::new(e.path.clone(), e.name.clone()));
        }
        i = i + 1;
    }
    assert(entries@.subrange(0, entries@.len() as int) == entries@);
    out
}

/// `s` without its trailing double quotes.
pub open spec fn trim_quotes(s: Seq<char>) -> Seq<char>
    decreases s.len(),
{
    if s.len() > 0 && s.last() == '"' {
        trim_quotes(s.drop_last())
    } else {
        s
    }
}

/// Removes the double quotes at the end of `s`.
pub fn trim_trailing_quotes(s: &str) -> (r: String)
    ensures
        r@ == trim_quotes(s@),
{
    let mut n = s.unicode_len();
    assert(s@.subrange(0, n as int) == s@);
    while n > 0 && s.get_char(n - 1) == '"'
        invariant
            n <= s@.len(),
            trim_quotes(s@.subrange(0, n as int)) == trim_quotes(s@),
        decreases n,
    {
        assert(s@.subrange(0, n as int).drop_last() == s@.subrange(0, n - 1));
        n = n - 1;
    }
    assert(trim_quotes(s@.subrange(0, n as int)) == s@.subrange(0, n as int));
    owned(s.substring_char(0, n))
}

/// Whether `r` is the error for the unknown allocator `name`.
pub open spec fn unknown_allocator<T>(r: Result<T, ConfigError>, name: Seq<char>) -> bool {
    match r {
        Err(ConfigError::UnknownAllocator { name: n }) => n@ == name,
        _ => false,
    }
}

/// Whether `names[i]` is the first name of `names` that is not registered.
pub open spec fn first_unknown_allocator(names: Seq<String>, i: int) -> bool {
    &&& 0 <= i < names.len()
    &&& allocator_named(names[i]@) is None
    &&& forall|j: int| 0 <= j < i ==> #[trigger] allocator_named(names[j]@) is Some
}

/// The allocators to build and measure: every registered one when none is
/// requested, else the requested ones in the order given. Fails on the first
/// requested name that is not registered.
pub fn select_allocators(requested: &Option<Vec<String>>) -> (r: Result<Vec<Allocator>, ConfigError>)
    ensures
        requested is None ==> (r matches Ok(v) && v@ == registry()),
        requested is Some ==> {
            let names = requested.unwrap()@;
            &&& r is Ok <==> forall|i: int| 0 <= i < names.len() ==> #[trigger] allocator_named(names[i]@) is Some
            &&& r matches Ok(v) ==> v@ == names.map_values(|n: String| allocator_named(n@).unwrap())
            &&& r is Err ==> exists|i: int| first_unknown_allocator(names, i) && unknown_allocator(r, #[trigger] names[i]@)
        },
{
    match requested {
        None => Ok(registered_allocators()),
        Some(names) => {
            let mut out: Vec<Allocator> = Vec::new();
            let mut i: usize = 0;
            while i < names.len()
                invariant
                    requested is Some,
                    requested.unwrap()@ == names@,
                    i <= names@.len(),
                    out@.len() == i,
                    forall|j: int| 0 <= j < i ==> #[trigger] allocator_named(names@[j]@) is Some,
                    forall|j: int| 0 <= j < i ==> #[trigger] out@[j] == allocator_named(names@[j]@).unwrap(),
                decreases names@.len() - i,
            {
                let found = lookup_allocator(names[i].as_str());
                match found {
                    Ok(a) => out.push(a),
                    Err(e) => {
                        let r: Result<Vec<Allocator>, ConfigError> = Err(e);
                        assert(first_unknown_allocator(names@, i as int));
                        assert(unknown_allocator(r, names@[i as int]@));
                        return r;
                    },
                }
                i = i + 1;
            }
            assert(out@ =~= names@.map_values(|n: String| allocator_named(n@).unwrap()));
            Ok(out)
        },
    }
}

} // verus!

verus! {

/// The word that, requested as a benchmark, selects none.
pub open spec fn none_word() -> Seq<char> {
    "none"@
}

pub open spec fn names_of(s: Seq<Benchmark>) -> Seq<Seq<char>> {
    s.map_values(|b: Benchmark| b.spec_name())
}

/// Scans requested benchmark names (trailing quotes trimmed) against the
/// available names: `Err` with the first name that is unknown, `Ok(None)`
/// when `none` comes first, else `Ok` with every name.
pub open spec fn scan_requested(names: Seq<Seq<char>>, available: Seq<Seq<char>>) -> Result<
    Option<Seq<Seq<char>>>,
    Seq<char>,
>
    decreases names.len(),
{
    if names.len() == 0 {
        Ok(Some(Seq::empty()))
    } else {
        let t = trim_quotes(names[0]);
        if t == none_word() {
            Ok(None)
        } else if !available.contains(t) {
            Err(t)
        } else {
            match scan_requested(names.drop_first(), available) {
                Ok(Some(rest)) => Ok(Some(seq![t] + rest)),
                other => other,
            }
        }
    }
}

pub open spec fn prepend(
    done: Seq<Seq<char>>,
    r: Result<Option<Seq<Seq<char>>>, Seq<char>>,
) -> Result<Option<Seq<Seq<char>>>, Seq<char>> {
    match r {
        Ok(Some(rest)) => Ok(Some(done + rest)),
        other => other,
    }
}

/// The position of the first benchmark of `available` named `name`.
fn find_benchmark(available: &[Benchmark], name: &str) -> (r: Option<usize>)
    ensures
        r matches Some(j) ==> j < available@.len() && available@[j as int].spec_name() == name@,
        r is None ==> forall|k: int| 0 <= k < available@.len() ==> available@[k].spec_name() != name@,
{
    let mut j: usize = 0;
    while j < available.len()
        invariant
            j <= available@.len(),
            forall|k: int| 0 <= k < j ==> available@[k].spec_name() != name@,
        decreases available@.len() - j,
    {
        if text_eq(available[j].name(), name) {
            return Some(j);
        }
        j = j + 1;
    }
    None
}

/// Whether `r` is the error for the unknown benchmark `name`.
pub open spec fn unknown_benchmark<T>(r: Result<T, ConfigError>, name: Seq<char>) -> bool {
    match r {
        Err(ConfigError::UnknownBenchmark { name: n }) => n@ == name,
        _ => false,
    }
}

/// The benchmarks to run: every available one when none is requested.
/// Otherwise the requested names are taken in order, each without trailing
/// double quotes: the word `none` selects no benchmark at all, and a name
/// that no available benchmark has is an error.
pub fn select_benchmarks(requested: &Option<Vec<String>>, available: Vec<Benchmark>) -> (r: Result<
    Vec<Benchmark>,
    ConfigError,
>)
    ensures
        requested is None ==> (r matches Ok(v) && v@ == available@),
        requested is Some ==> {
            let scan = scan_requested(views(requested.unwrap()@), names_of(available@));
            &&& scan matches Err(t) ==> unknown_benchmark(r, t)
            &&& scan matches Ok(None) ==> (r matches Ok(v) && v@.len() == 0)
            &&& scan matches Ok(Some(chosen)) ==> (r matches Ok(v) && names_of(v@) == chosen
                && forall|i: int| 0 <= i < v@.len() ==> available@.contains(#[trigger] v@[i]))
        },
{
    let names = match requested {
        None => {
            return Ok(available);
        },
        Some(names) => names,
    };
    let ghost all = views(names@);
    let ghost avail = names_of(available@);
    let none = "none";
    let mut out: Vec<Benchmark> = Vec::new();
    let mut i: usize = 0;
    assert(all.subrange(0, all.len() as int) == all);
    assert(names_of(out@) + Seq::<Seq<char>>::empty() =~= Seq::<Seq<char>>::empty());
    assert(forall|x: Seq<Seq<char>>| names_of(out@) + x =~= x);
    while i < names.len()
        invariant
            requested is Some,
            requested.unwrap()@ == names@,
            none@ == none_word(),
            i <= names@.len(),
            all == views(names@),
            avail == names_of(available@),
            scan_requested(all, avail) == prepend(names_of(out@), scan_requested(all.subrange(i as int, all.len() as int), avail)),
            forall|k: int| 0 <= k < out@.len() ==> available@.contains(#[trigger] out@[k]),
        decreases names@.len() - i,
    {
        let ghost rest = all.subrange(i as int, all.len() as int);
        assert(rest.drop_first() == all.subrange(i + 1, all.len() as int));
        let t = trim_trailing_quotes(names[i].as_str());
        assert(rest[0] == names@[i as int]@);
        if text_eq(t.as_str(), none) {
            return Ok(Vec::new());
        }
        let found = find_benchmark(available.as_slice(), t.as_str());
        if found.is_none() {
            assert(!avail.contains(t@)) by {
                if avail.contains(t@) {
                    let k = choose|k: int| 0 <= k < avail.len() && avail[k] == t@;
                    assert(available@[k].spec_name() == t@);
                }
            }
            return Err(ConfigError::UnknownBenchmark { name: t });
        }
        let j = found.unwrap();
        assert(avail[j as int] == t@);
        let ghost before = names_of(out@);
        out.push(available[j].duplicate());
        proof {
            assert(names_of(out@) =~= before.push(t@));
            let tail = scan_requested(rest.drop_first(), avail);
            match tail {
                Ok(Some(r)) => {
                    assert(before + (seq![t@] + r) =~= before.push(t@) + r);
                },
                _ => {},
            }
        }
        i = i + 1;
    }
    assert(all.subrange(names@.len() as int, all.len() as int).len() == 0);
    Ok(out)
}

} // verus!

verus! {

/// The library base name of each allocator, `None` for libc: what the
/// linker is given for each executable.
pub fn allocator_libraries(allocators: &Vec<Allocator>) -> (r: Vec<Option<String>>)
    ensures
        r@.len() == allocators@.len(),
        forall|i: int|
            0 <= i < r@.len() ==> option_view(#[trigger] r@[i]) == allocators@[i].spec_library(),
{
    let mut out: Vec<Option<String>> = Vec::new();
    let mut i: usize = 0;
    while i < allocators.len()
        invariant
            i <= allocators@.len(),
            out@.len() == i,
            forall|j: int|
                0 <= j < i ==> option_view(#[trigger] out@[j]) == allocators@[j].spec_library(),
        decreases allocators@.len() - i,
    {
        let lib = match allocators[i].library() {
            Some(name) => Some(owned(name)),
            None => None,
        };
        out.push(lib);
        i = i + 1;
    }
    out
}

} // verus!

verus! {

/// Lexicographic order of names by character code: whether `a` comes no
/// later than `b`.
pub open spec fn name_le(a: Seq<char>, b: Seq<char>) -> bool
    decreases a.len(),
{
    if a.len() == 0 {
        true
    } else if b.len() == 0 {
        false
    } else if a[0] != b[0] {
        (a[0] as int) < (b[0] as int)
    } else {
        name_le(a.drop_first(), b.drop_first())
    }
}

proof fn lemma_name_le_total(a: Seq<char>, b: Seq<char>)
    ensures
        name_le(a, b) || name_le(b, a),
    decreases a.len(),
{
    if a.len() > 0 && b.len() > 0 {
        if a[0] == b[0] {
            lemma_name_le_total(a.drop_first(), b.drop_first());
        } else {
            assert((a[0] as int) != (b[0] as int));
        }
    }
}

proof fn lemma_name_le_transitive(a: Seq<char>, b: Seq<char>, c: Seq<char>)
    requires
        name_le(a, b),
        name_le(b, c),
    ensures
        name_le(a, c),
    decreases a.len(),
{
    if a.len() > 0 && b.len() > 0 && c.len() > 0 && a[0] == b[0] && b[0] == c[0] {
        lemma_name_le_transitive(a.drop_first(), b.drop_first(), c.drop_first());
    }
}

fn names_in_order(a: &str, b: &str) -> (r: bool)
    ensures
        r == name_le(a@, b@),
{
    let n = a.unicode_len();
    let m = b.unicode_len();
    let mut i: usize = 0;
    assert(a@.skip(0) == a@);
    assert(b@.skip(0) == b@);
    while i < n && i < m && a.get_char(i) == b.get_char(i)
        invariant
            n == a@.len(),
            m == b@.len(),
            i <= n,
            i <= m,
            name_le(a@, b@) == name_le(a@.skip(i as int), b@.skip(i as int)),
        decreases n - i,
    {
        assert(a@.skip(i as int).drop_first() == a@.skip(i + 1));
        assert(b@.skip(i as int).drop_first() == b@.skip(i + 1));
        i = i + 1;
    }
    if i == n {
        true
    } else if i == m {
        false
    } else {
        (a.get_char(i) as u32) < (b.get_char(i) as u32)
    }
}

/// The benchmarks of `v` ordered by name.
pub fn sort_by_name(v: Vec<Benchmark>) -> (r: Vec<Benchmark>)
    ensures
        r@.to_multiset() == v@.to_multiset(),
        forall|i: int, j: int|
            0 <= i < j < r@.len() ==> name_le(#[trigger] r@[i].spec_name(), #[trigger] r@[j].spec_name()),
{
    broadcast use vstd::seq_lib::group_to_multiset_ensures, vstd::multiset::group_multiset_axioms;

    let ghost input = v@;
    let mut rest = v;
    let mut out: Vec<Benchmark> = Vec::new();
    while rest.len() > 0
        invariant
            out@.to_multiset().add(rest@.to_multiset()) == input.to_multiset(),
            forall|i: int, j: int|
                0 <= i < j < out@.len() ==> name_le(#[trigger] out@[i].spec_name(), #[trigger] out@[j].spec_name()),
            forall|i: int, j: int|
                0 <= i < out@.len() && 0 <= j < rest@.len() ==> name_le(#[trigger] out@[i].spec_name(), #[trigger] rest@[j].spec_name()),
        decreases rest@.len(),
    {
        let mut k: usize = 0;
        let mut j: usize = 1;
        proof {
            lemma_name_le_total(rest@[0].spec_name(), rest@[0].spec_name());
        }
        while j < rest.len()
            invariant
                k < j <= rest@.len(),
                forall|x: int| 0 <= x < j ==> name_le(rest@[k as int].spec_name(), #[trigger] rest@[x].spec_name()),
            decreases rest@.len() - j,
        {
            if !names_in_order(rest[k].name(), rest[j].name()) {
                proof {
                    lemma_name_le_total(rest@[k as int].spec_name(), rest@[j as int].spec_name());
                    assert forall|x: int| 0 <= x <= j implies name_le(rest@[j as int].spec_name(), #[trigger] rest@[x].spec_name()) by {
                        if x < j {
                            lemma_name_le_transitive(rest@[j as int].spec_name(), rest@[k as int].spec_name(), rest@[x].spec_name());
                        } else {
                            lemma_name_le_total(rest@[j as int].spec_name(), rest@[j as int].spec_name());
                        }
                    }
                }
                k = j;
            }
            j = j + 1;
        }
        let ghost before_rest = rest@;
        let ghost before_out = out@;
        let b = rest.remove(k);
        out.push(b);
        proof {
            vstd::seq_lib::to_multiset_remove(before_rest, k as int);
            assert(out@ == before_out.push(b));
            assert(b == before_rest[k as int]);
            assert(before_rest.contains(b));
            vstd::seq_lib::to_multiset_contains(before_rest, b);
            assert(before_rest.to_multiset().count(b) > 0);
            vstd::seq_lib::to_multiset_build(before_out, b);
            assert(out@.to_multiset().add(rest@.to_multiset()) =~= input.to_multiset());
            assert forall|i: int, j2: int| 0 <= i < out@.len() && 0 <= j2 < rest@.len() implies name_le(#[trigger] out@[i].spec_name(), #[trigger] rest@[j2].spec_name()) by {
                let jj = if j2 < k { j2 } else { j2 + 1 };
                assert(rest@[j2] == before_rest[jj]);
                if i < before_out.len() {
                    assert(out@[i] == before_out[i]);
                } else {
                    assert(out@[i] == before_rest[k as int]);
                }
            }
            assert forall|i: int, j2: int| 0 <= i < j2 < out@.len() implies name_le(#[trigger] out@[i].spec_name(), #[trigger] out@[j2].spec_name()) by {
                if j2 == before_out.len() {
                    assert(out@[i] == before_out[i]);
                    assert(out@[j2] == before_rest[k as int]);
                } else {
                    assert(out@[i] == before_out[i]);
                    assert(out@[j2] == before_out[j2]);
                }
            }
        }
    }
    assert(rest@.to_multiset() =~= vstd::multiset::Multiset::empty());
    assert(out@.to_multiset().add(vstd::multiset::Multiset::empty()) =~= out@.to_multiset());
    out
}

} // verus!
