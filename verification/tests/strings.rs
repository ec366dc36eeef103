use openai_proxy::strutil::{
    concat_strs, join_strings, str_contains, str_eq, trim_string, u64_to_string,
};

#[test]
fn test_str_eq_compares_characters() {
    assert!(str_eq("abc", "abc"));
    assert!(!str_eq("abc", "abd"));
    assert!(!str_eq("abc", "ab"));
    assert!(str_eq("", ""));
    assert!(str_eq("héllo", "héllo"));
}

#[test]
fn test_str_contains_finds_substrings() {
    assert!(str_contains("hello world", "lo wo"));
    assert!(str_contains("hello", "hello"));
    assert!(str_contains("hello", ""));
    assert!(!str_contains("hello", "world"));
    assert!(!str_contains("", "x"));
}

#[test]
fn test_concat_and_join() {
    assert_eq!(concat_strs("foo", "bar"), "foobar");
    let parts = vec!["a".to_string(), "b".to_string(), "c".to_string()];
    assert_eq!(join_strings(&parts, ", "), "a, b, c");
    assert_eq!(join_strings(&vec![], "\n"), "");
    assert_eq!(join_strings(&vec!["only".to_string()], "\n"), "only");
}

#[test]
fn test_trim_removes_surrounding_whitespace() {
    assert_eq!(trim_string("  a b  "), "a b");
    assert_eq!(trim_string("\n\ttext\n"), "text");
    assert_eq!(trim_string("   "), "");
    assert_eq!(trim_string("solid"), "solid");
}

#[test]
fn test_u64_to_string_formats_decimal() {
    assert_eq!(u64_to_string(0), "0");
    assert_eq!(u64_to_string(7), "7");
    assert_eq!(u64_to_string(10), "10");
    assert_eq!(u64_to_string(429), "429");
    assert_eq!(u64_to_string(18446744073709551615), "18446744073709551615");
}
