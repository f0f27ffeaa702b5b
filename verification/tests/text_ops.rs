use agent_loop::content::Fragment;
use agent_loop::text::{count_matches, decimal, is_blank, str_eq, trim_ws};
use agent_loop::tools::bash::bash_output_fragments;
use agent_loop::tools::read_file::read_file_fragments;

#[test]
fn blankness_covers_unicode_whitespace() {
    assert!(is_blank(""));
    assert!(is_blank(" \t\r\n"));
    assert!(is_blank("\u{a0}\u{2003}"));
    assert!(!is_blank(" a "));
}

#[test]
fn matches_are_counted_without_overlap() {
    assert_eq!(count_matches("aaa", "aa"), 1);
    assert_eq!(count_matches("abcabc", "abc"), 2);
    assert_eq!(count_matches("abc", "zz"), 0);
    assert_eq!(count_matches("", "z"), 0);
}

#[test]
fn trimming_strips_both_ends_only() {
    assert_eq!(trim_ws("  hello  world \n"), "hello  world");
    assert_eq!(trim_ws("\t\n "), "");
    assert_eq!(trim_ws("plain"), "plain");
    assert_eq!(trim_ws("\u{a0}x\u{2003}"), "x");
}

#[test]
fn decimal_renders_exact_digits() {
    assert_eq!(decimal(0), "0");
    assert_eq!(decimal(7), "7");
    assert_eq!(decimal(120), "120");
    assert_eq!(decimal(98765), "98765");
}

#[test]
fn string_comparison_is_by_characters() {
    assert!(str_eq("abc", "abc"));
    assert!(!str_eq("abc", "abd"));
    assert!(!str_eq("abc", "ab"));
}

#[test]
fn bash_output_is_trimmed_into_one_fragment() {
    let f = bash_output_fragments(" captured output \n");
    assert_eq!(f.len(), 1);
    assert!(matches!(&f[0], Fragment::Text(t) if t == "captured output"));
}

#[test]
fn file_content_is_passed_through_untouched() {
    let f = read_file_fragments(String::from(" raw \n"));
    assert!(matches!(&f[0], Fragment::Text(t) if t == " raw \n"));
}
