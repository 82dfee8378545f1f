use turbocommit::text::{count_lines, str_eq};

#[test]
fn empty_text_occupies_no_lines() {
    assert_eq!(count_lines("", 10), 0);
}

#[test]
fn short_text_is_one_line() {
    assert_eq!(count_lines("hello", 10), 1);
}

#[test]
fn newline_separates_lines() {
    assert_eq!(count_lines("hello\nworld", 10), 2);
    assert_eq!(count_lines("a\n", 10), 2);
    assert_eq!(count_lines("\n\n", 10), 3);
}

#[test]
fn long_text_wraps_at_width() {
    assert_eq!(count_lines("abcdef", 3), 2);
    assert_eq!(count_lines("abc", 3), 1);
    assert_eq!(count_lines("abcd", 3), 2);
}

#[test]
fn lone_carriage_return_and_bom_are_ignored() {
    assert_eq!(count_lines("\r", 5), 1);
    assert_eq!(count_lines("a\u{FEFF}b", 5), 1);
}

#[test]
fn crlf_is_one_cluster_and_widens_the_line() {
    assert_eq!(count_lines("a\r\nb", 10), 1);
}

#[test]
fn combining_marks_stay_in_one_cluster() {
    // Two clusters ("e" with a combining acute, twice) fit a width of two;
    // counting characters instead would see four and wrap.
    assert_eq!(count_lines("e\u{301}e\u{301}", 2), 1);
}

#[test]
fn emoji_counts_as_one_cluster() {
    assert_eq!(count_lines("\u{1F550}", 10), 1);
}

#[test]
fn string_comparison_is_exact() {
    assert!(str_eq("abc", "abc"));
    assert!(!str_eq("abc", "abd"));
    assert!(!str_eq("abc", "abcd"));
    assert!(str_eq("", ""));
}
