use modsync::text::{blank, decimal_string, join_strings, parse_u64, prefixed, trim, ParseError};

#[test]
fn decimal_of_numbers() {
    assert_eq!(decimal_string(0), "0");
    assert_eq!(decimal_string(7), "7");
    assert_eq!(decimal_string(10), "10");
    assert_eq!(decimal_string(12345), "12345");
    assert_eq!(decimal_string(u64::MAX), "18446744073709551615");
}

#[test]
fn join_puts_the_separator_between() {
    let none: Vec<String> = vec![];
    assert_eq!(join_strings(&none, ", "), "");
    assert_eq!(join_strings(&vec!["a".to_string()], ", "), "a");
    assert_eq!(join_strings(&vec!["a".to_string(), "b".to_string(), "c".to_string()], ", "), "a, b, c");
    assert_eq!(join_strings(&vec!["".to_string(), "".to_string()], "/"), "/");
}

#[test]
fn prefixed_puts_the_prefix_first() {
    assert_eq!(prefixed("Failed: ", &"disk full".to_string()), "Failed: disk full");
}

#[test]
fn parse_accepts_digits_and_a_leading_plus() {
    assert_eq!(parse_u64(&"0".to_string()), Ok(0));
    assert_eq!(parse_u64(&"500".to_string()), Ok(500));
    assert_eq!(parse_u64(&"+42".to_string()), Ok(42));
    assert_eq!(parse_u64(&"007".to_string()), Ok(7));
    assert_eq!(parse_u64(&"18446744073709551615".to_string()), Ok(u64::MAX));
}

#[test]
fn parse_rejects_what_is_no_number() {
    assert_eq!(parse_u64(&"".to_string()), Err(ParseError::Empty));
    assert_eq!(parse_u64(&"+".to_string()), Err(ParseError::InvalidDigit));
    assert_eq!(parse_u64(&"-5".to_string()), Err(ParseError::InvalidDigit));
    assert_eq!(parse_u64(&" 5".to_string()), Err(ParseError::InvalidDigit));
    assert_eq!(parse_u64(&"5 ".to_string()), Err(ParseError::InvalidDigit));
    assert_eq!(parse_u64(&"12a".to_string()), Err(ParseError::InvalidDigit));
    assert_eq!(parse_u64(&"++1".to_string()), Err(ParseError::InvalidDigit));
    assert_eq!(parse_u64(&"１２".to_string()), Err(ParseError::InvalidDigit));
}

#[test]
fn parse_rejects_what_is_too_large() {
    assert_eq!(parse_u64(&"18446744073709551616".to_string()), Err(ParseError::Overflow));
    assert_eq!(parse_u64(&"99999999999999999999999".to_string()), Err(ParseError::Overflow));
    assert_eq!(parse_u64(&"99999999999999999999999x".to_string()), Err(ParseError::InvalidDigit));
}

#[test]
fn parse_agrees_with_the_standard_parser() {
    for text in ["", "+", "-", "0", "+0", "-0", "12", "1e3", "0x10", "4294967296", "18446744073709551615", "18446744073709551616", " 1", "1_000"] {
        let ours = parse_u64(&text.to_string()).ok();
        let theirs = text.parse::<u64>().ok();
        assert_eq!(ours, theirs, "parsing {:?}", text);
    }
}

#[test]
fn parse_errors_in_words() {
    assert_eq!(ParseError::Empty.to_text(), "cannot parse integer from empty string");
    assert_eq!(ParseError::InvalidDigit.to_text(), "invalid digit found in string");
    assert_eq!(ParseError::Overflow.to_text(), "number too large to fit in target type");
    assert_eq!(ParseError::Empty.to_text(), "".parse::<u64>().unwrap_err().to_string());
    assert_eq!(ParseError::InvalidDigit.to_text(), "x".parse::<u64>().unwrap_err().to_string());
    assert_eq!(
        ParseError::Overflow.to_text(),
        "99999999999999999999999".parse::<u64>().unwrap_err().to_string()
    );
}

#[test]
fn trim_removes_white_space_at_both_ends() {
    assert_eq!(trim(&"".to_string()), "");
    assert_eq!(trim(&"   ".to_string()), "");
    assert_eq!(trim(&"abc".to_string()), "abc");
    assert_eq!(trim(&"  a b  ".to_string()), "a b");
    assert_eq!(trim(&"\t\r\n http://x/y \u{a0}\u{3000}".to_string()), "http://x/y");
    assert_eq!(trim(&"\u{2003}é\u{2028}".to_string()), "é");
}

#[test]
fn trim_agrees_with_the_standard_trim() {
    for text in ["", " ", "a", " a", "a ", " a ", "\u{85}x\u{1680}", "\u{200b}x", "x\u{feff}", "\u{1f}x", "  多 字  "] {
        assert_eq!(trim(&text.to_string()), text.trim(), "trimming {:?}", text);
        assert_eq!(blank(&text.to_string()), text.trim().is_empty(), "blank {:?}", text);
    }
}
