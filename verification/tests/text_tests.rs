use formfill::text::{
    chars_of, i64_string, join_strings, parse_decimal, str_contains, str_eq, str_starts_with,
    string_from_chars, to_lowercase, trim_chars, u64_padded_string, u64_string,
};

#[test]
fn string_round_trips_through_characters() {
    let v = chars_of("héllo wörld");
    assert_eq!(string_from_chars(&v), "héllo wörld".to_string());
    assert_eq!(v.len(), 11);
}

#[test]
fn equality_and_containment_go_by_characters() {
    assert!(str_eq("abc", "abc"));
    assert!(!str_eq("abc", "abd"));
    assert!(!str_eq("abc", "ab"));
    assert!(str_contains("select[name='x']", "select["));
    assert!(str_contains("anything", ""));
    assert!(!str_contains("drop", "dropdown"));
    assert!(str_starts_with("https://x", "http"));
    assert!(!str_starts_with("ftp://x", "http"));
}

#[test]
fn lowercasing_touches_only_ascii_letters() {
    assert_eq!(to_lowercase("AbC-12!"), "abc-12!".to_string());
    assert_eq!(to_lowercase(""), String::new());
}

#[test]
fn trimming_strips_blanks_from_both_ends() {
    let t = trim_chars(&chars_of("  a b\t\n"));
    assert_eq!(string_from_chars(&t), "a b".to_string());
    let t = trim_chars(&chars_of("\t \n"));
    assert!(t.is_empty());
}

#[test]
fn decimal_conversions_are_exact() {
    assert_eq!(u64_string(0), "0".to_string());
    assert_eq!(u64_string(90210), "90210".to_string());
    assert_eq!(u64_padded_string(7, 2), "07".to_string());
    assert_eq!(u64_padded_string(123, 2), "123".to_string());
    assert_eq!(u64_padded_string(42, 9), "000000042".to_string());
    assert_eq!(i64_string(-300), "-300".to_string());
    assert_eq!(i64_string(300), "300".to_string());
    assert_eq!(i64_string(0), "0".to_string());
}

#[test]
fn decimal_parsing_accepts_only_digit_strings_in_range() {
    assert_eq!(parse_decimal(&chars_of("90210")), Some(90210));
    assert_eq!(parse_decimal(&chars_of("0")), Some(0));
    assert_eq!(parse_decimal(&chars_of("")), None);
    assert_eq!(parse_decimal(&chars_of("12a")), None);
    assert_eq!(parse_decimal(&chars_of("18446744073709551615")), Some(u64::MAX));
    assert_eq!(parse_decimal(&chars_of("18446744073709551616")), None);
}

#[test]
fn joining_puts_the_separator_between_neighbors() {
    let parts: Vec<String> = vec!["a".to_string(), "b".to_string(), "c".to_string()];
    assert_eq!(join_strings(&parts, " | "), "a | b | c".to_string());
    assert_eq!(join_strings(&vec!["solo".to_string()], ", "), "solo".to_string());
    assert_eq!(join_strings(&vec![], ", "), String::new());
}
