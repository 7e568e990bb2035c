use retry::validate::{parse_i32, validate_i32};

#[test]
fn parses_plain_numerals() {
    assert_eq!(parse_i32("3"), Some(3));
    assert_eq!(parse_i32("0"), Some(0));
    assert_eq!(parse_i32("42"), Some(42));
    assert_eq!(parse_i32("007"), Some(7));
}

#[test]
fn parses_signed_numerals() {
    assert_eq!(parse_i32("-5"), Some(-5));
    assert_eq!(parse_i32("+7"), Some(7));
    assert_eq!(parse_i32("-0"), Some(0));
}

#[test]
fn parses_extreme_values() {
    assert_eq!(parse_i32("2147483647"), Some(i32::MAX));
    assert_eq!(parse_i32("-2147483648"), Some(i32::MIN));
}

#[test]
fn rejects_out_of_range_values() {
    assert_eq!(parse_i32("2147483648"), None);
    assert_eq!(parse_i32("-2147483649"), None);
    assert_eq!(parse_i32("99999999999999999999"), None);
    assert_eq!(parse_i32("-99999999999999999999"), None);
}

#[test]
fn rejects_malformed_numerals() {
    assert_eq!(parse_i32(""), None);
    assert_eq!(parse_i32("+"), None);
    assert_eq!(parse_i32("-"), None);
    assert_eq!(parse_i32("abc"), None);
    assert_eq!(parse_i32(" 3"), None);
    assert_eq!(parse_i32("3 "), None);
    assert_eq!(parse_i32("12x"), None);
    assert_eq!(parse_i32("--4"), None);
    assert_eq!(parse_i32("+-4"), None);
    assert_eq!(parse_i32("4+2"), None);
}

#[test]
fn agrees_with_std_parsing() {
    let cases = [
        "3", "0", "42", "007", "-5", "+7", "-0", "2147483647", "-2147483648", "2147483648",
        "-2147483649", "99999999999999999999", "", "+", "-", "abc", " 3", "3 ", "12x", "--4",
        "+-4", "4+2", "1_000", "0x10", "\u{0661}\u{0662}\u{0663}",
    ];
    for s in cases {
        match parse_i32(s) {
            Some(v) => assert_eq!(Ok(v), s.parse::<i32>(), "on input {:?}", s),
            None => assert!(s.parse::<i32>().is_err(), "on input {:?}", s),
        }
    }
}

#[test]
fn accepts_valid_retry_counts() {
    assert_eq!(validate_i32(String::from("3")), Ok(()));
    assert_eq!(validate_i32(String::from("-12")), Ok(()));
    assert_eq!(validate_i32(String::from("2147483647")), Ok(()));
}

#[test]
fn rejects_invalid_retry_counts_with_message() {
    assert_eq!(
        validate_i32(String::from("abc")),
        Err(String::from("cannot parse abc to i32"))
    );
    assert_eq!(
        validate_i32(String::from("2147483648")),
        Err(String::from("cannot parse 2147483648 to i32"))
    );
    assert_eq!(
        validate_i32(String::from("")),
        Err(String::from("cannot parse  to i32"))
    );
}
