use quotebot::text::{
    chars_of, contains, first_space, matches_at, same_text, starts_with, trim_bounds,
};

fn cs(s: &str) -> Vec<char> {
    s.chars().collect()
}

#[test]
fn chars_of_keeps_every_character_in_order() {
    assert_eq!(chars_of("a\u{e9}\u{1F44D}b"), vec!['a', '\u{e9}', '\u{1F44D}', 'b']);
    assert_eq!(chars_of(""), Vec::<char>::new());
}

#[test]
fn starts_with_compares_whole_prefix() {
    assert!(starts_with(&cs("!quote Bob"), &cs("!quote")));
    assert!(starts_with(&cs("!quote"), &cs("!quote")));
    assert!(starts_with(&cs("anything"), &cs("")));
    assert!(!starts_with(&cs("!quot"), &cs("!quote")));
    assert!(!starts_with(&cs("!addquote"), &cs("!quote")));
    assert!(!starts_with(&cs(" !quote"), &cs("!quote")));
}

#[test]
fn same_text_needs_equal_length() {
    assert!(same_text(&cs("!quote"), &cs("!quote")));
    assert!(!same_text(&cs("!quote "), &cs("!quote")));
    assert!(!same_text(&cs("!quot"), &cs("!quote")));
    assert!(same_text(&cs(""), &cs("")));
}

#[test]
fn first_space_is_the_leftmost_one() {
    assert_eq!(first_space(&cs("!quote Bob Ross")), Some(6));
    assert_eq!(first_space(&cs(" x")), Some(0));
    assert_eq!(first_space(&cs("!quote")), None);
    assert_eq!(first_space(&cs("")), None);
    assert_eq!(first_space(&cs("a\tb")), None);
}

#[test]
fn trim_bounds_strips_both_ends_only() {
    let s = cs("cmd   Bob  Ross \t\n");
    assert_eq!(trim_bounds(&s, 4), (6, 15));
    let all_blank = cs("cmd    ");
    let (a, b) = trim_bounds(&all_blank, 4);
    assert_eq!(a, b);
    assert_eq!(trim_bounds(&cs("abc"), 3), (3, 3));
    assert_eq!(trim_bounds(&cs("abc"), 0), (0, 3));
}

#[test]
fn trim_bounds_knows_unicode_white_space() {
    let s = cs("\u{2003}\u{a0}Bob\u{3000}");
    assert_eq!(trim_bounds(&s, 0), (2, 5));
    let t = cs("_Bob_");
    assert_eq!(trim_bounds(&t, 0), (0, 5));
}

#[test]
fn matches_at_checks_one_position() {
    let hay = cs("Alice Liddell");
    assert!(matches_at(&hay, &cs("Lid"), 6));
    assert!(!matches_at(&hay, &cs("Lid"), 5));
    assert!(matches_at(&hay, &cs(""), 13));
    assert!(matches_at(&hay, &cs("Alice Liddell"), 0));
}

#[test]
fn contains_is_case_sensitive_substring_search() {
    assert!(contains(&cs("Alice Liddell"), &cs("Lid")));
    assert!(contains(&cs("Alice Liddell"), &cs("ell")));
    assert!(contains(&cs("Alice Liddell"), &cs("Alice")));
    assert!(contains(&cs("Alice Liddell"), &cs("")));
    assert!(contains(&cs(""), &cs("")));
    assert!(!contains(&cs("Alice Liddell"), &cs("lid")));
    assert!(!contains(&cs("Alice"), &cs("Alice Liddell")));
    assert!(!contains(&cs("aab"), &cs("abb")));
    assert!(contains(&cs("aaab"), &cs("aab")));
    assert!(!contains(&cs("50% off"), &cs("5_%")));
}
