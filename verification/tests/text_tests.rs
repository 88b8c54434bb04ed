use acp::text::{chars_of, contains, find_char_from, find_from, matches_at, push_decimal};

fn chars(s: &str) -> Vec<char> {
    s.chars().collect()
}

#[test]
fn chars_of_keeps_every_character() {
    assert_eq!(chars_of("aé✓"), vec!['a', 'é', '✓']);
    assert_eq!(chars_of(""), Vec::<char>::new());
}

#[test]
fn matches_at_checks_bounds_and_content() {
    let hay = chars("hello world");
    assert!(matches_at(&hay, &chars("hello"), 0));
    assert!(matches_at(&hay, &chars("world"), 6));
    assert!(!matches_at(&hay, &chars("world"), 7));
    assert!(!matches_at(&hay, &chars("hello"), 1));
    assert!(matches_at(&hay, &chars(""), 11));
    assert!(!matches_at(&hay, &chars(""), 12));
    assert!(!matches_at(&hay, &chars("d!"), 10));
}

#[test]
fn find_from_returns_first_occurrence() {
    let hay = chars("abcabcabc");
    assert_eq!(find_from(&hay, &chars("abc"), 0), Some(0));
    assert_eq!(find_from(&hay, &chars("abc"), 1), Some(3));
    assert_eq!(find_from(&hay, &chars("abc"), 7), None);
    assert_eq!(find_from(&hay, &chars("x"), 0), None);
    assert_eq!(find_from(&hay, &chars(""), 9), Some(9));
    assert_eq!(find_from(&hay, &chars(""), 10), None);
}

#[test]
fn find_char_from_returns_first_index() {
    let hay = chars("a\"b\"c");
    assert_eq!(find_char_from(&hay, '"', 0), Some(1));
    assert_eq!(find_char_from(&hay, '"', 2), Some(3));
    assert_eq!(find_char_from(&hay, '"', 4), None);
    assert_eq!(find_char_from(&hay, '"', 99), None);
}

#[test]
fn contains_finds_text_anywhere() {
    assert!(contains("https://login.iitmandi.ac.in:1003/x", "login.iitmandi.ac.in"));
    assert!(!contains("https://login.iitmandi.ac.im/x", "login.iitmandi.ac.in"));
    assert!(contains("abc", ""));
    assert!(!contains("", "a"));
}

#[test]
fn push_decimal_writes_digits() {
    for (n, text) in [
        (0u64, "0"),
        (7, "7"),
        (10, "10"),
        (204, "204"),
        (1234567890, "1234567890"),
        (u64::MAX, "18446744073709551615"),
    ] {
        let mut out = String::from("n=");
        push_decimal(&mut out, n);
        assert_eq!(out, format!("n={}", text));
    }
}
