use interview_assistant::helpers::{to_int, trim_entries, trim_lines};

#[test]
fn trim_lines_keeps_short() {
    let mut s = String::from("a\nb\nc");
    trim_lines(&mut s, 5);
    assert_eq!(s, "a\nb\nc");
}

#[test]
fn trim_lines_drops_oldest() {
    let mut s = String::from("a\nb\nc\nd\ne");
    trim_lines(&mut s, 3);
    assert_eq!(s, "c\nd\ne");
}

#[test]
fn trim_entries_keeps_short() {
    let mut s = String::from("q1\u{2029}q2\u{2029}q3");
    trim_entries(&mut s, 5);
    assert_eq!(s, "q1\u{2029}q2\u{2029}q3");
}

#[test]
fn trim_entries_drops_oldest() {
    let mut s = String::from("q1\u{2029}q2\u{2029}q3\u{2029}q4\u{2029}q5");
    trim_entries(&mut s, 3);
    assert_eq!(s, "q3\u{2029}q4\u{2029}q5");
}

#[test]
fn trim_entries_with_internal_newlines() {
    let mut s = String::from("q1\n\npara\u{2029}q2");
    trim_entries(&mut s, 1);
    assert_eq!(s, "q2");
}

#[test]
fn trim_lines_to_zero_empties() {
    let mut s = String::from("a\nb");
    trim_lines(&mut s, 0);
    assert_eq!(s, "");
}

#[test]
fn trim_lines_exact_count_unchanged() {
    let mut s = String::from("a\nb\nc");
    trim_lines(&mut s, 3);
    assert_eq!(s, "a\nb\nc");
}

#[test]
fn trim_lines_trailing_newline_counts_a_line() {
    let mut s = String::from("a\nb\n");
    trim_lines(&mut s, 1);
    assert_eq!(s, "");
    let mut t = String::from("a\nb\n");
    trim_lines(&mut t, 2);
    assert_eq!(t, "b\n");
}

#[test]
fn trim_lines_twice_same_as_once() {
    let mut s = String::from("1\n2\n3\n4\n5\n6");
    trim_lines(&mut s, 2);
    let once = s.clone();
    trim_lines(&mut s, 2);
    assert_eq!(s, once);
    assert_eq!(s, "5\n6");
}

#[test]
fn trim_entries_empty_stays_empty() {
    let mut s = String::new();
    trim_entries(&mut s, 0);
    assert_eq!(s, "");
}

#[test]
fn to_int_parses_trimmed_numbers() {
    assert_eq!(to_int(" 42 ", 7), 42);
    assert_eq!(to_int("-15", 7), -15);
    assert_eq!(to_int("+8", 7), 8);
    assert_eq!(to_int("\t300\n", 0), 300);
}

#[test]
fn to_int_falls_back_to_default() {
    assert_eq!(to_int("", 250), 250);
    assert_eq!(to_int("abc", 250), 250);
    assert_eq!(to_int("12a", 250), 250);
    assert_eq!(to_int("-", 250), 250);
    assert_eq!(to_int("+", 250), 250);
    assert_eq!(to_int("1 2", 250), 250);
}

#[test]
fn to_int_range_edges() {
    assert_eq!(to_int("2147483647", 0), i32::MAX);
    assert_eq!(to_int("-2147483648", 0), i32::MIN);
    assert_eq!(to_int("2147483648", 5), 5);
    assert_eq!(to_int("-2147483649", 5), 5);
    assert_eq!(to_int("99999999999999999999", 5), 5);
    assert_eq!(to_int("0007", 5), 7);
}

#[test]
fn trim_to_zero_clears_the_text() {
    let mut s = String::from("abc");
    trim_lines(&mut s, 0);
    assert_eq!(s, "");
    let mut s = String::from("a\nb");
    trim_lines(&mut s, 0);
    assert_eq!(s, "");
    let mut s = String::from("q1\u{2029}q2");
    trim_entries(&mut s, 0);
    assert_eq!(s, "");
}

#[test]
fn trim_keeps_a_trailing_empty_line_as_a_line() {
    let mut s = String::from("a\nb\n");
    trim_lines(&mut s, 2);
    assert_eq!(s, "b\n");
    let mut s = String::from("a\nb\n");
    trim_lines(&mut s, 1);
    assert_eq!(s, "");
}
