use the_handler::text::{
    concat_strs, join_strings, split_on_char, split_whitespace, str_contains, str_eq, str_find,
    str_strip_prefix, str_strip_suffix, trim_str,
};

#[test]
fn trim_str_removes_surrounding_whitespace() {
    assert_eq!(trim_str("  hello world \n\t"), "hello world");
    assert_eq!(trim_str(""), "");
    assert_eq!(trim_str("   "), "");
    assert_eq!(trim_str("x"), "x");
}

#[test]
fn split_on_char_keeps_empty_pieces() {
    assert_eq!(split_on_char("a,b,,c", ','), vec!["a", "b", "", "c"]);
    assert_eq!(split_on_char("", ','), vec![""]);
    assert_eq!(split_on_char("abc", ','), vec!["abc"]);
}

#[test]
fn split_whitespace_gives_the_words() {
    assert_eq!(split_whitespace("  one two\n\tthree  "), vec!["one", "two", "three"]);
    assert!(split_whitespace("   ").is_empty());
}

#[test]
fn join_strings_puts_the_separator_between() {
    let parts = vec!["a".to_string(), "b".to_string(), "c".to_string()];
    assert_eq!(join_strings(&parts, ", "), "a, b, c");
    assert_eq!(join_strings(&Vec::new(), ", "), "");
    assert_eq!(join_strings(&vec!["only".to_string()], "-"), "only");
}

#[test]
fn find_and_contains() {
    assert_eq!(str_find("hello world", "o"), Some(4));
    assert_eq!(str_find("hello world", "xyz"), None);
    assert_eq!(str_find("abc", ""), Some(0));
    assert!(str_contains("salary €50k", "€"));
    assert!(!str_contains("salary", "€"));
}

#[test]
fn strip_prefix_and_suffix() {
    assert_eq!(str_strip_prefix("```json{}", "```json"), Some("{}"));
    assert_eq!(str_strip_prefix("{}", "```"), None);
    assert_eq!(str_strip_suffix("{}```", "```"), Some("{}"));
    assert_eq!(str_strip_suffix("{}", "```"), None);
}

#[test]
fn equality_and_concatenation() {
    assert!(str_eq("abc", "abc"));
    assert!(!str_eq("abc", "abd"));
    assert_eq!(concat_strs(&["a", "", "bc", "d"]), "abcd");
    assert_eq!(concat_strs(&[]), "");
}
