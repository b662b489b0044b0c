use compiler::text::{bytes_eq, replace_first, str_eq};

#[test]
fn first_occurrence_of_a_mark_is_replaced() {
    assert_eq!(replace_first("a __m__ b __m__ c", "__m__", "x y"), "a x y b __m__ c");
    assert_eq!(replace_first("__m__", "__m__", ""), "");
    assert_eq!(replace_first("__m__!", "__m__", "__m__ __m__"), "__m__ __m__!");
    assert_eq!(replace_first("ab__m__", "__m__", "c"), "abc");
    assert_eq!(replace_first("aaa", "aa", "b"), "ba");
    assert_eq!(replace_first("pr\u{fc}f \u{1f600} mark \u{e9}", "mark", "\u{df}"), "pr\u{fc}f \u{1f600} \u{df} \u{e9}");
}

#[test]
fn text_without_the_mark_stays_as_it_is() {
    assert_eq!(replace_first("abc", "__m__", "x"), "abc");
    assert_eq!(replace_first("", "__m__", "x"), "");
    assert_eq!(replace_first("__m_", "__m__", "x"), "__m_");
    assert_eq!(replace_first("ab", "abc", "x"), "ab");
}

#[test]
fn empty_mark_stands_at_the_start() {
    assert_eq!(replace_first("abc", "", "x"), "xabc");
    assert_eq!(replace_first("", "", "x"), "x");
}

#[test]
fn equal_strings_and_equal_bytes() {
    assert!(str_eq("", ""));
    assert!(str_eq("pr\u{fc}f", "pr\u{fc}f"));
    assert!(!str_eq("pr\u{fc}f", "pruf"));
    assert!(!str_eq("a", "ab"));
    assert!(!str_eq("ab", "ac"));
    assert!(bytes_eq(&[], &[]));
    assert!(bytes_eq(&[0xff, 0x00], &[0xff, 0x00]));
    assert!(!bytes_eq(&[0xff], &[0xfe]));
    assert!(!bytes_eq(&[0xff], &[0xff, 0x00]));
}
