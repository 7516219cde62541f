use faascell::text::{
    chars_of, contains_text, lines, parse_u64, right_aligned, same, split_once, split_text,
    zero_padded,
};

#[test]
fn numbers_are_padded() {
    assert_eq!(zero_padded(42, 5), "00042");
    assert_eq!(zero_padded(123456, 3), "123456");
    assert_eq!(right_aligned("cpu", 5), "  cpu");
    assert_eq!(right_aligned("nanos_epoch", 3), "nanos_epoch");
}

#[test]
fn numbers_are_parsed() {
    assert_eq!(parse_u64("18446744073709551615"), Some(u64::MAX));
    assert_eq!(parse_u64("18446744073709551616"), None);
    assert_eq!(parse_u64("+7"), "+7".parse().ok());
    assert_eq!(parse_u64(""), None);
    assert_eq!(parse_u64("-1"), None);
    assert_eq!(parse_u64("007"), Some(7));
    assert_eq!(parse_u64("7 "), None);
}

#[test]
fn texts_are_split() {
    assert_eq!(split_text("a,b,,c", ','), ["a", "b", "", "c"]);
    assert_eq!(split_text("", ','), [""]);
    assert_eq!(lines("a\r\nb\n\nc"), ["a", "b", "", "c"]);
    assert_eq!(lines("a\n"), ["a"]);
    assert!(lines("").is_empty());
    assert_eq!(split_once("a-b-c", '-'), Some(("a".to_string(), "b-c".to_string())));
    assert_eq!(split_once("abc", '-'), None);
}

#[test]
fn texts_are_searched() {
    assert!(contains_text("rpc: context deadline exceeded", "context deadline exceeded"));
    assert!(contains_text("abc", ""));
    assert!(!contains_text("ab", "abc"));
    assert!(same("a", "a"));
    assert!(!same("a", "ab"));
    assert_eq!(chars_of("h\u{e9}"), ['h', '\u{e9}']);
}
