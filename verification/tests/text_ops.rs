use check_ethernet::text::{i32_dec_string, u32_dec_string, parse_i32, trim, join_messages, str_eq};

#[test]
fn renders_small_numbers() {
    assert_eq!(u32_dec_string(0), "0");
    assert_eq!(u32_dec_string(7), "7");
    assert_eq!(i32_dec_string(1500), "1500");
    assert_eq!(i32_dec_string(1000), "1000");
}

#[test]
fn renders_negative_numbers() {
    assert_eq!(i32_dec_string(-1), "-1");
    assert_eq!(i32_dec_string(-42), "-42");
    assert_eq!(i32_dec_string(i32::MIN), "-2147483648");
    assert_eq!(i32_dec_string(i32::MAX), "2147483647");
}

#[test]
fn parses_plain_integers() {
    assert_eq!(parse_i32("0"), Some(0));
    assert_eq!(parse_i32("123"), Some(123));
    assert_eq!(parse_i32("1500"), Some(1500));
    assert_eq!(parse_i32("+12"), Some(12));
    assert_eq!(parse_i32("-7"), Some(-7));
}

#[test]
fn parses_range_edges() {
    assert_eq!(parse_i32("2147483647"), Some(i32::MAX));
    assert_eq!(parse_i32("-2147483648"), Some(i32::MIN));
    assert_eq!(parse_i32("2147483648"), None);
    assert_eq!(parse_i32("-2147483649"), None);
    assert_eq!(parse_i32("99999999999999999999"), None);
}

#[test]
fn rejects_malformed_integers() {
    assert_eq!(parse_i32(""), None);
    assert_eq!(parse_i32("+"), None);
    assert_eq!(parse_i32("-"), None);
    assert_eq!(parse_i32(" 12"), None);
    assert_eq!(parse_i32("12 "), None);
    assert_eq!(parse_i32("1a"), None);
    assert_eq!(parse_i32("1.5"), None);
}

#[test]
fn trims_surrounding_whitespace() {
    assert_eq!(trim("up\n"), "up");
    assert_eq!(trim("  a b \t\r\n"), "a b");
    assert_eq!(trim(""), "");
    assert_eq!(trim(" \n "), "");
    assert_eq!(trim("full"), "full");
}

#[test]
fn joins_messages_in_order() {
    let msgs = vec!["a".to_string(), "b".to_string(), "c".to_string()];
    assert_eq!(join_messages(&msgs, ", "), "a, b, c");
    let one = vec!["solo".to_string()];
    assert_eq!(join_messages(&one, ", "), "solo");
    let none: Vec<String> = Vec::new();
    assert_eq!(join_messages(&none, ", "), "");
}

#[test]
fn compares_strings() {
    assert!(str_eq("half", "half"));
    assert!(!str_eq("half", "full"));
    assert!(!str_eq("", "full"));
}
