use alloc_bench::workload::{
    decimal_string, split_words, substitute_placeholder, workload_args, workload_template,
};

fn strings(v: &[&str]) -> Vec<String> {
    v.iter().map(|s| s.to_string()).collect()
}

#[test]
fn decimal_digits() {
    assert_eq!(decimal_string(0), "0");
    assert_eq!(decimal_string(7), "7");
    assert_eq!(decimal_string(10), "10");
    assert_eq!(decimal_string(16), "16");
    assert_eq!(decimal_string(1234567890), "1234567890");
    assert_eq!(decimal_string(usize::MAX), usize::MAX.to_string());
}

#[test]
fn thread_count_is_substituted_into_the_template() {
    let t = workload_template("t-test1").unwrap();
    assert_eq!(workload_args(t, 4), strings(&["10", "4", "10000", "10000", "400"]));
    assert_eq!(workload_args(t, 16), strings(&["10", "16", "10000", "10000", "400"]));
    assert_eq!(workload_template("t-test2"), Some("10 {} 10000 10000 400"));
    assert_eq!(workload_template("other"), None);
}

#[test]
fn every_placeholder_is_replaced() {
    assert_eq!(substitute_placeholder("a{}b{}", "3"), "a3b3");
    assert_eq!(substitute_placeholder("{", "3"), "{");
    assert_eq!(substitute_placeholder("{{}}", "3"), "{3}");
    assert_eq!(substitute_placeholder("", "3"), "");
}

#[test]
fn words_are_split_on_whitespace() {
    assert_eq!(split_words("  a  b\tc\n"), strings(&["a", "b", "c"]));
    assert_eq!(split_words(""), Vec::<String>::new());
    assert_eq!(split_words("   "), Vec::<String>::new());
    assert_eq!(split_words("x"), strings(&["x"]));
}
