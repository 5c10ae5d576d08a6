use vstd::prelude::*;

use crate::text::{owned, text_eq};

verus! {

/// The decimal digit for `d`, which is below ten.
pub open spec fn digit_char(d: nat) -> char {
    if d < 10 {
        ((d + 48) as u8) as char
    } else {
        '?'
    }
}

/// The decimal representation of `n`, without leading zeros.
pub open spec fn decimal(n: nat) -> Seq<char>
    decreases n,
{
    if n < 10 {
        seq![digit_char(n)]
    } else {
        decimal(n / 10).push(digit_char(n % 10))
    }
}

fn digit_str(d: usize) -> (r: &'static str)
    requires
        d < 10,
    ensures
        r@ == seq![digit_char(d as nat)],
{
    proof {
        reveal_strlit("0");
        reveal_strlit("1");
        reveal_strlit("2");
        reveal_strlit("3");
        reveal_strlit("4");
        reveal_strlit("5");
        reveal_strlit("6");
        reveal_strlit("7");
        reveal_strlit("8");
        reveal_strlit("9");
    }
    let r = if d == 0 {
        "0"
    } else if d == 1 {
        "1"
    } else if d == 2 {
        "2"
    } else if d == 3 {
        "3"
    } else if d == 4 {
        "4"
    } else if d == 5 {
        "5"
    } else if d == 6 {
        "6"
    } else if d == 7 {
        "7"
    } else if d == 8 {
        "8"
    } else {
        "9"
    };
    assert(r@ =~= seq![digit_char(d as nat)]);
    r
}

/// `n` written in decimal.
pub fn decimal_string(n: usize) -> (r: String)
    ensures
        r@ == decimal(n as nat),
    decreases n,
{
    if n < 10 {
        owned(digit_str(n))
    } else {
        let head = decimal_string(n / 10);
        let r = head.concat(digit_str(n % 10));
        assert(r@ =~= decimal(n as nat));
        r
    }
}

/// The placeholder in a workload template that stands for the thread count.
pub open spec fn is_placeholder_at(t: Seq<char>, i: int) -> bool {
    0 <= i && i + 1 < t.len() && t[i] == '{' && t[i + 1] == '}'
}

/// `t` with every `{}`, scanning from the left, replaced by `value`.
pub open spec fn substitute(t: Seq<char>, value: Seq<char>) -> Seq<char>
    decreases t.len(),
{
    if t.len() == 0 {
        Seq::empty()
    } else if is_placeholder_at(t, 0) {
        value + substitute(t.skip(2), value)
    } else {
        seq![t[0]] + substitute(t.skip(1), value)
    }
}

/// The separators between workload arguments.
pub open spec fn is_space(c: char) -> bool {
    c == ' ' || c == '\t' || c == '\n' || c == '\r' || c == '\x0b' || c == '\x0c'
}

/// The words of `s` after the partial word `current`: the maximal runs of
/// characters other than separators.
pub open spec fn words_from(s: Seq<char>, current: Seq<char>) -> Seq<Seq<char>>
    decreases s.len(),
{
    if s.len() == 0 {
        if current.len() > 0 { seq![current] } else { Seq::empty() }
    } else if is_space(s[0]) {
        (if current.len() > 0 { seq![current] } else { Seq::empty() }) + words_from(s.skip(1), Seq::empty())
    } else {
        words_from(s.skip(1), current.push(s[0]))
    }
}

/// The words of `s`, in order.
pub open spec fn words(s: Seq<char>) -> Seq<Seq<char>> {
    words_from(s, Seq::empty())
}

/// The command-line arguments of a benchmark run with `threads` threads:
/// the words of `template` once each `{}` is replaced by the thread count.
pub open spec fn workload_args_spec(template: Seq<char>, threads: nat) -> Seq<Seq<char>> {
    words(substitute(template, decimal(threads)))
}

fn is_space_char(c: char) -> (r: bool)
    ensures
        r == is_space(c),
{
    c == ' ' || c == '\t' || c == '\n' || c == '\r' || c == '\x0b' || c == '\x0c'
}

/// Replaces every `{}` of `template` by `value`.
pub fn substitute_placeholder(template: &str, value: &str) -> (r: String)
    ensures
        r@ == substitute(template@, value@),
{
    let n = template.unicode_len();
    let mut out = String::new();
    let mut i: usize = 0;
    assert(template@.skip(0) == template@);
    assert(out@ + substitute(template@, value@) =~= substitute(template@, value@));
    while i < n
        invariant
            n == template@.len(),
            i <= n,
            substitute(template@, value@) == out@ + substitute(template@.skip(i as int), value@),
        decreases n - i,
    {
        let ghost rest = template@.skip(i as int);
        if i + 1 < n && template.get_char(i) == '{' && template.get_char(i + 1) == '}' {
            assert(is_placeholder_at(rest, 0));
            assert(rest.skip(2) == template@.skip(i + 2));
            out.append(value);
            i = i + 2;
        } else {
            assert(!is_placeholder_at(rest, 0));
            assert(rest.skip(1) == template@.skip(i + 1));
            out.append(template.substring_char(i, i + 1));
            assert(template@.subrange(i as int, i + 1) == seq![rest[0]]);
            i = i + 1;
        }
        assert(substitute(template@, value@) =~= out@ + substitute(template@.skip(i as int), value@));
    }
    assert(template@.skip(n as int).len() == 0);
    assert(out@ + Seq::<char>::empty() == out@);
    out
}

/// The separator-delimited words of `s`.
pub fn split_words(s: &str) -> (r: Vec<String>)
    ensures
        r@.map_values(|w: String| w@) == words(s@),
{
    let n = s.unicode_len();
    let mut out: Vec<String> = Vec::new();
    let mut start: usize = 0;
    let mut i: usize = 0;
    assert(s@.skip(0) == s@);
    assert(s@.subrange(0, 0) =~= Seq::<char>::empty());
    assert(out@.map_values(|w: String| w@) + words(s@) =~= words(s@));
    while i < n
        invariant
            n == s@.len(),
            start <= i <= n,
            words(s@) == out@.map_values(|w: String| w@) + words_from(
                s@.skip(i as int),
                s@.subrange(start as int, i as int),
            ),
        decreases n - i,
    {
        let ghost rest = s@.skip(i as int);
        assert(rest.skip(1) == s@.skip(i + 1));
        assert(rest[0] == s@[i as int]);
        if is_space_char(s.get_char(i)) {
            let ghost before = out@.map_values(|w: String| w@);
            if start < i {
                out.push(owned(s.substring_char(start, i)));
                assert(out@.map_values(|w: String| w@) =~= before + seq![s@.subrange(start as int, i as int)]);
            } else {
                assert(out@.map_values(|w: String| w@) =~= before);
            }
            i = i + 1;
            start = i;
            assert(s@.subrange(start as int, i as int) =~= Seq::<char>::empty());
        } else {
            assert(s@.subrange(start as int, i + 1) == s@.subrange(start as int, i as int).push(s@[i as int]));
            i = i + 1;
        }
    }
    let ghost before = out@.map_values(|w: String| w@);
    if start < n {
        out.push(owned(s.substring_char(start, n)));
        assert(out@.map_values(|w: String| w@) =~= before + seq![s@.subrange(start as int, n as int)]);
    } else {
        assert(out@.map_values(|w: String| w@) =~= before);
    }
    assert(out@.map_values(|w: String| w@) =~= words(s@));
    out
}

/// The arguments of a benchmark run with `threads` threads, from the
/// benchmark's workload template.
pub fn workload_args(template: &str, threads: usize) -> (r: Vec<String>)
    ensures
        r@.map_values(|w: String| w@) == workload_args_spec(template@, threads as nat),
{
    let count = decimal_string(threads);
    let line = substitute_placeholder(template, count.as_str());
    split_words(line.as_str())
}

/// The workload template of a known benchmark: its arguments, with `{}`
/// where the thread count goes.
pub fn workload_template(benchmark: &str) -> (r: Option<&'static str>)
    ensures
        r matches Some(t) ==> (benchmark@ == "t-test1"@ || benchmark@ == "t-test2"@) && t@
            == "10 {} 10000 10000 400"@,
        r is None ==> benchmark@ != "t-test1"@ && benchmark@ != "t-test2"@,
{
    if text_eq(benchmark, "t-test1") || text_eq(benchmark, "t-test2") {
        Some("10 {} 10000 10000 400")
    } else {
        None
    }
}

} // verus!
