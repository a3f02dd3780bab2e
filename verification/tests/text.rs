use factorio_server::text::{
    chain, decimal_string, ends_with, join_with, parse_unsigned, split_on, str_eq, to_chars,
};

#[test]
fn decimal_writes_numbers_plainly() {
    assert_eq!(decimal_string(0), "0");
    assert_eq!(decimal_string(7), "7");
    assert_eq!(decimal_string(10), "10");
    assert_eq!(decimal_string(34197), "34197");
    assert_eq!(decimal_string(u64::MAX), "18446744073709551615");
}

#[test]
fn decimal_agrees_with_the_standard_formatting() {
    for n in [0u64, 1, 9, 10, 11, 99, 100, 101, 65535, 65536, 4294967295, 1 << 40] {
        assert_eq!(decimal_string(n), n.to_string());
    }
}

#[test]
fn unsigned_numbers_parse_within_the_limit() {
    assert_eq!(parse_unsigned("0", 10), Some(0));
    assert_eq!(parse_unsigned("10", 10), Some(10));
    assert_eq!(parse_unsigned("11", 10), None);
    assert_eq!(parse_unsigned("+5", 10), Some(5));
    assert_eq!(parse_unsigned("0005", 10), Some(5));
    assert_eq!(parse_unsigned("", 10), None);
    assert_eq!(parse_unsigned("+", 10), None);
    assert_eq!(parse_unsigned("-5", 10), None);
    assert_eq!(parse_unsigned("5a", 10), None);
    assert_eq!(parse_unsigned("4294967295", u32::MAX), Some(u32::MAX));
    assert_eq!(parse_unsigned("4294967296", u32::MAX), None);
}

#[test]
fn unsigned_parse_agrees_with_the_standard_parse() {
    for text in ["0", "1", "+1", "++1", "01", "4294967295", "4294967296", "99999999999999999999", "", " ", "1 ", "x", "１"] {
        assert_eq!(parse_unsigned(text, u32::MAX), text.parse::<u32>().ok(), "{text}");
    }
}

#[test]
fn split_keeps_empty_pieces() {
    assert_eq!(split_on("a.b.c", '.'), vec!["a", "b", "c"]);
    assert_eq!(split_on("", '.'), vec![""]);
    assert_eq!(split_on(".", '.'), vec!["", ""]);
    assert_eq!(split_on("a..b", '.'), vec!["a", "", "b"]);
    assert_eq!(split_on("abc", '.'), vec!["abc"]);
    assert_eq!(split_on("é.ü", '.'), vec!["é", "ü"]);
}

#[test]
fn split_agrees_with_the_standard_split() {
    for text in ["", "/", "//", "a/b", "/a/b/", "https://www.factorio.com/download/archive/1.1.110"] {
        let expected: Vec<String> = text.split('/').map(String::from).collect();
        assert_eq!(split_on(text, '/'), expected);
    }
}

#[test]
fn join_undoes_split() {
    for text in ["", ",", "a,b", ",a,,b,"] {
        assert_eq!(join_with(&split_on(text, ','), ","), text);
    }
    assert_eq!(join_with(&vec![], ","), "");
    assert_eq!(join_with(&vec!["a".to_string()], ","), "a");
    assert_eq!(join_with(&vec!["a".to_string(), "b".to_string()], ", "), "a, b");
}

#[test]
fn suffixes_are_found() {
    assert!(ends_with("hello world", "world"));
    assert!(ends_with("hello", ""));
    assert!(ends_with("hello", "hello"));
    assert!(!ends_with("hello", "hell"));
    assert!(!ends_with("lo", "hello"));
    assert!(ends_with("grüße", "üße"));
}

#[test]
fn text_helpers_compare_and_concatenate() {
    assert!(str_eq("a", "a"));
    assert!(!str_eq("a", "b"));
    assert_eq!(chain("ab", "cd"), "abcd");
    assert_eq!(to_chars("aé"), vec!['a', 'é']);
}
