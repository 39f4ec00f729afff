use unhaunter::text::{decimal, decode_quoted, encode_unquoted, quoted, remove_all, remove_quotes, same_text};

#[test]
fn quoting_and_unquoting() {
    assert_eq!(quoted("abc"), "\"abc\"");
    assert_eq!(remove_quotes("\"a\"b\"\""), "ab");
    assert_eq!(remove_quotes(""), "");
}

#[test]
fn decoding_json_string_bodies() {
    assert_eq!(decode_quoted("plain"), Some("plain".to_string()));
    assert_eq!(decode_quoted("a\\nb"), Some("a\nb".to_string()));
    assert_eq!(decode_quoted("\\u00e9"), Some("é".to_string()));
    assert_eq!(decode_quoted("bad\"quote"), None);
    assert_eq!(decode_quoted("bad\\escape\\"), None);
    // raw control characters are not allowed inside a JSON string
    assert_eq!(decode_quoted("tab\there"), None);
    assert_eq!(decode_quoted("a\u{1}b"), None);
    assert_eq!(decode_quoted("end\n"), None);
}

#[test]
fn encoding_names() {
    assert_eq!(encode_unquoted("Breaker"), Ok("Breaker".to_string()));
    // a backslash is escaped by JSON and stays escaped once the quotes are gone
    assert_eq!(encode_unquoted("a\\b"), Ok("a\\\\b".to_string()));
    // inner quotes are escaped, then every quote is taken out
    assert_eq!(encode_unquoted("x\"y"), Ok("x\\y".to_string()));
}

#[test]
fn encoding_control_characters() {
    // short escapes for tab, line feed, carriage return, backspace, form feed
    assert_eq!(encode_unquoted("a\tb\nc\rd"), Ok("a\\tb\\nc\\rd".to_string()));
    assert_eq!(encode_unquoted("\u{8}\u{c}"), Ok("\\b\\f".to_string()));
    // other control characters as \u00XX with lower-case hex digits
    assert_eq!(encode_unquoted("\u{1}\u{1f}"), Ok("\\u0001\\u001f".to_string()));
    // DEL and non-ASCII characters stand as themselves
    assert_eq!(encode_unquoted("\u{7f}\u{14d}"), Ok("\u{7f}\u{14d}".to_string()));
}

#[test]
fn decimals() {
    assert_eq!(decimal(0), "0");
    assert_eq!(decimal(7), "7");
    assert_eq!(decimal(42), "42");
    assert_eq!(decimal(1000), "1000");
    assert_eq!(decimal(u64::MAX), u64::MAX.to_string());
}

#[test]
fn removing_substrings() {
    assert_eq!(remove_all("assets/maps/house.tmx", "assets/maps/"), "house.tmx");
    assert_eq!(remove_all("aaa", "aa"), "a");
    assert_eq!(remove_all("abc", ""), "abc");
    assert_eq!(remove_all("x/assets/maps/y/assets/maps/", "assets/maps/"), "x/y/");
    assert!(same_text("ab", "ab"));
    assert!(!same_text("ab", "abc"));
}
