use ferris_the_crawler::text::{chars_of, contains_sub, dec_chars, find_sub_from, string_from_chars, subvec};
use ferris_the_crawler::Url;

#[test]
fn chars_round_trip() {
    let s = "hello, wörld\n";
    let v = chars_of(s);
    assert_eq!(v.len(), 13);
    assert_eq!(string_from_chars(&v), s.to_string());
}

#[test]
fn chars_of_empty() {
    let v = chars_of("");
    assert_eq!(v.len(), 0);
    assert_eq!(string_from_chars(&v), String::new());
}

#[test]
fn find_sub_finds_first_occurrence() {
    let hay = chars_of("ababc");
    let needle = chars_of("ab");
    assert_eq!(find_sub_from(&hay, &needle, 0), Some(0));
    assert_eq!(find_sub_from(&hay, &needle, 1), Some(2));
    assert_eq!(find_sub_from(&hay, &needle, 3), None);
}

#[test]
fn find_sub_empty_needle() {
    let hay = chars_of("abc");
    let needle = chars_of("");
    assert_eq!(find_sub_from(&hay, &needle, 2), Some(2));
}

#[test]
fn contains_sub_basic() {
    let hay = chars_of("the quick brown fox");
    assert!(contains_sub(&hay, &chars_of("quick")));
    assert!(contains_sub(&hay, &chars_of("fox")));
    assert!(!contains_sub(&hay, &chars_of("dog")));
}

#[test]
fn subvec_slices() {
    let v = chars_of("abcdef");
    let s = subvec(&v, 2, 5);
    assert_eq!(string_from_chars(&s), "cde".to_string());
}

#[test]
fn dec_chars_renders_decimal() {
    assert_eq!(string_from_chars(&dec_chars(0)), "0".to_string());
    assert_eq!(string_from_chars(&dec_chars(7)), "7".to_string());
    assert_eq!(string_from_chars(&dec_chars(10)), "10".to_string());
    assert_eq!(string_from_chars(&dec_chars(350)), "350".to_string());
    assert_eq!(string_from_chars(&dec_chars(40960)), "40960".to_string());
}

#[test]
fn escape_url_escapes_comma_and_newline() {
    assert_eq!(Url::escape_url("a,b\nc"), "a%2Cb%0Ac".to_string());
    assert_eq!(Url::escape_url("plain"), "plain".to_string());
    assert_eq!(Url::escape_url(""), String::new());
}
