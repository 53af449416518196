use cloudflaredns::utils::text::{
    parse_i64, push_decimal, push_int, push_padded, push_spaces, str_ends_with, str_equal,
    str_less, str_starts_with,
};

#[test]
fn parse_numbers() {
    assert_eq!(parse_i64("0"), Some(0));
    assert_eq!(parse_i64("3600"), Some(3600));
    assert_eq!(parse_i64("+7"), Some(7));
    assert_eq!(parse_i64("-12"), Some(-12));
    assert_eq!(parse_i64("9223372036854775807"), Some(i64::MAX));
    assert_eq!(parse_i64("-9223372036854775808"), Some(i64::MIN));
    assert_eq!(parse_i64("9223372036854775808"), None);
    assert_eq!(parse_i64(""), None);
    assert_eq!(parse_i64("-"), None);
    assert_eq!(parse_i64("1a"), None);
    assert_eq!(parse_i64(" 1"), None);
}

#[test]
fn decimal_writing() {
    let mut s = String::from("n=");
    push_decimal(&mut s, 0);
    push_decimal(&mut s, 1205);
    assert_eq!(s, "n=01205");
    let mut t = String::new();
    push_int(&mut t, -40);
    push_int(&mut t, i64::MIN);
    assert_eq!(t, "-40-9223372036854775808");
}

#[test]
fn padding() {
    let mut s = String::new();
    push_padded(&mut s, "ab", 4);
    push_spaces(&mut s, 2);
    push_padded(&mut s, "toolong", 3);
    assert_eq!(s, "ab    toolong");
}

#[test]
fn comparisons() {
    assert!(str_starts_with("Error: x", "Error:"));
    assert!(!str_starts_with("Err", "Error:"));
    assert!(str_ends_with("www.example.com", ".example.com"));
    assert!(!str_ends_with("example.com", ".example.com"));
    assert!(str_equal("é", "é"));
    assert!(!str_equal("a", "ab"));
    assert!(str_less("10.0.0.1", "172.16.0.1"));
    assert!(str_less("a", "ab"));
    assert!(!str_less("b", "ab"));
    assert!(!str_less("x", "x"));
}
