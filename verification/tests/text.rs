use notion::text::{eq_ignore_ascii_case, join_strings, parse_u16, str_eq};

#[test]
fn str_eq_compares_the_characters() {
    assert!(str_eq("", ""));
    assert!(str_eq("날짜", "날짜"));
    assert!(!str_eq("a", "A"));
    assert!(!str_eq("ab", "a"));
    assert!(!str_eq("a", "ab"));
    assert!(!str_eq("é", "e"));
}

#[test]
fn eq_ignore_ascii_case_lowers_ascii_capitals_only() {
    assert!(eq_ignore_ascii_case("AsC", "asc"));
    assert!(eq_ignore_ascii_case("", ""));
    assert!(eq_ignore_ascii_case("Z9_é", "z9_é"));
    assert!(!eq_ignore_ascii_case("É", "é"));
    assert!(!eq_ignore_ascii_case("asc", "ascx"));
    assert!(!eq_ignore_ascii_case("ascx", "asc"));
    assert!(!eq_ignore_ascii_case("@", "`"));
    assert!(!eq_ignore_ascii_case("[", "{"));
    assert!(!eq_ignore_ascii_case("\u{212A}", "k"));
}

#[test]
fn join_strings_puts_the_separator_between() {
    let none: Vec<String> = vec![];
    assert_eq!(join_strings(&none, "|"), "");
    assert_eq!(join_strings(&vec!["a".to_string()], "|"), "a");
    assert_eq!(join_strings(&vec!["a".to_string(), "b".to_string()], "|"), "a|b");
    assert_eq!(
        join_strings(&vec!["a".to_string(), "".to_string(), "c".to_string()], ", "),
        "a, , c"
    );
}

#[test]
fn parse_u16_reads_digits_alone() {
    assert_eq!(parse_u16("0"), Some(0));
    assert_eq!(parse_u16("404"), Some(404));
    assert_eq!(parse_u16("65535"), Some(65535));
    assert_eq!(parse_u16("65536"), None);
    assert_eq!(parse_u16("99999999999999999999"), None);
    assert_eq!(parse_u16(""), None);
    assert_eq!(parse_u16("-1"), None);
    assert_eq!(parse_u16("4.0"), None);
    assert_eq!(parse_u16("4e2"), None);
    assert_eq!(parse_u16(" 4"), None);
    assert_eq!(parse_u16("٤"), None);
}
