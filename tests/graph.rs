use alloc_bench::graph::{assign_colors, graph_path, pick_color};
use alloc_bench::layout::Layout;

#[test]
fn chart_is_named_after_the_benchmark() {
    assert_eq!(graph_path("t-test1", &Layout::standard()), "./graphs/t-test1.png");
}

#[test]
fn unused_drawn_color_is_kept() {
    assert_eq!(pick_color(&vec![(1, 2, 3)], (4, 5, 6)), (4, 5, 6));
    assert_eq!(pick_color(&vec![], (0, 0, 0)), (0, 0, 0));
}

#[test]
fn repeated_color_is_replaced_by_an_unused_one() {
    let used = vec![(9, 9, 0), (9, 9, 1), (1, 1, 2)];
    // Blues 0, 1 and 2 are all taken by some series.
    assert_eq!(pick_color(&used, (9, 9, 1)), (9, 9, 3));
}

#[test]
fn assigned_colors_are_distinct() {
    for n in [0usize, 1, 2, 4, 256] {
        let colors = assign_colors(n);
        assert_eq!(colors.len(), n);
        for i in 0..n {
            for j in (i + 1)..n {
                assert_ne!(colors[i], colors[j]);
            }
        }
    }
}
