use vstd::prelude::*;

use crate::layout::Layout;
use crate::text::{join_path, owned, path_join};

verus! {

/// A color as red, green and blue components.
pub type Rgb = (u8, u8, u8);

/// `<benchmark>.png`, the chart of one benchmark.
pub open spec fn graph_file_name(benchmark: Seq<char>) -> Seq<char> {
    benchmark + ".png"@
}

/// Where the chart of `benchmark` is written: `<benchmark>.png` in the
/// graphs directory.
pub fn graph_path(benchmark: &str, layout: &Layout) -> (r: String)
    ensures
        r@ == path_join(layout.graphs_dir@, graph_file_name(benchmark@)),
{
    let file = owned(benchmark).concat(".png");
    join_path(layout.graphs_dir.as_str(), file.as_str())
}

/// Relies on random_color's `RandomColor::to_rgb_array`, which draws a
/// color at random; nothing is known of the color drawn.
#[verifier::external_body]
fn random_rgb() -> (r: Rgb) {
    let c = random_color::RandomColor::new().to_rgb_array();
    (c[0], c[1], c[2])
}

/// The blue components of `colors`.
pub open spec fn blues(colors: Seq<Rgb>) -> Set<int> {
    colors.map_values(|c: Rgb| c.2 as int).to_set()
}

fn blue_taken(used: &Vec<Rgb>, b: u8) -> (r: bool)
    ensures
        r == blues(used@).contains(b as int),
{
    let mut i: usize = 0;
    while i < used.len()
        invariant
            i <= used@.len(),
            forall|j: int| 0 <= j < i ==> used@[j].2 != b,
        decreases used@.len() - i,
    {
        if used[i].2 == b {
            assert(used@.map_values(|c: Rgb| c.2 as int)[i as int] == b as int);
            return true;
        }
        i = i + 1;
    }
    assert(!blues(used@).contains(b as int)) by {
        if blues(used@).contains(b as int) {
            let m = used@.map_values(|c: Rgb| c.2 as int);
            let k = choose|k: int| 0 <= k < m.len() && #[trigger] m[k] == b as int;
            assert(used@[k].2 == b);
        }
    }
    false
}

fn contains_color(used: &Vec<Rgb>, c: Rgb) -> (r: bool)
    ensures
        r == used@.contains(c),
{
    let mut i: usize = 0;
    while i < used.len()
        invariant
            i <= used@.len(),
            forall|j: int| 0 <= j < i ==> used@[j] != c,
        decreases used@.len() - i,
    {
        if used[i].0 == c.0 && used[i].1 == c.1 && used[i].2 == c.2 {
            return true;
        }
        i = i + 1;
    }
    false
}

/// The color for a new series when the series so far have `used`: `drawn`
/// when no series has it, else the first color with `drawn`'s red and green
/// whose blue no series has.
pub fn pick_color(used: &Vec<Rgb>, drawn: Rgb) -> (r: Rgb)
    requires
        used@.len() < 256,
    ensures
        !used@.contains(r),
        !used@.contains(drawn) ==> r == drawn,
        used@.contains(drawn) ==> {
            &&& r.0 == drawn.0
            &&& r.1 == drawn.1
            &&& !blues(used@).contains(r.2 as int)
            &&& forall|x: int| 0 <= x < r.2 ==> blues(used@).contains(x)
        },
{
    if !contains_color(used, drawn) {
        return drawn;
    }
    let mut b: u16 = 0;
    while b < 256
        invariant
            b <= 256,
            used@.len() < 256,
            used@.contains(drawn),
            forall|x: int| 0 <= x < b ==> blues(used@).contains(x),
        decreases 256 - b,
    {
        if !blue_taken(used, b as u8) {
            let r = (drawn.0, drawn.1, b as u8);
            assert(!used@.contains(r)) by {
                if used@.contains(r) {
                    let k = choose|k: int| 0 <= k < used@.len() && used@[k] == r;
                    assert(used@.map_values(|c: Rgb| c.2 as int)[k] == b as int);
                }
            }
            return r;
        }
        b = b + 1;
    }
    proof {
        let m = used@.map_values(|c: Rgb| c.2 as int);
        m.lemma_cardinality_of_set();
        vstd::set_lib::lemma_int_range(0, 256);
        assert(vstd::set_lib::set_int_range(0, 256).subset_of(blues(used@)));
        vstd::set_lib::lemma_len_subset(vstd::set_lib::set_int_range(0, 256), blues(used@));
    }
    drawn
}

/// Pairwise distinct colors for `count` series, each drawn at random and,
/// where it repeats an earlier one, replaced as `pick_color` says.
pub fn assign_colors(count: usize) -> (r: Vec<Rgb>)
    requires
        count <= 256,
    ensures
        r@.len() == count,
        forall|i: int, j: int| 0 <= i < j < count ==> r@[i] != r@[j],
{
    let mut colors: Vec<Rgb> = Vec::new();
    let mut i: usize = 0;
    while i < count
        invariant
            i <= count <= 256,
            colors@.len() == i,
            forall|a: int, b: int| 0 <= a < b < i ==> colors@[a] != colors@[b],
        decreases count - i,
    {
        let drawn = random_rgb();
        let c = pick_color(&colors, drawn);
        let ghost before = colors@;
        colors.push(c);
        assert forall|a: int, b: int| 0 <= a < b < i + 1 implies colors@[a] != colors@[b] by {
            if b == i {
                assert(before[a] == colors@[a]);
                assert(before.contains(colors@[a]));
            }
        }
        i = i + 1;
    }
    colors
}

} // verus!
