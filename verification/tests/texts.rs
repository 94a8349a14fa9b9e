use musicbrainz::text::{
    appended, chars_of, decimal_chars, join, parse_decimal, string_of, NumberError,
};

#[test]
fn strings_and_characters() {
    assert_eq!(chars_of("a霊b"), vec!['a', '霊', 'b']);
    assert_eq!(chars_of(""), Vec::<char>::new());
    assert_eq!(string_of(&vec!['a', '霊', 'b']), "a霊b");
    assert_eq!(appended("ab", "cd"), "abcd");
    assert_eq!(appended("", ""), "");
}

#[test]
fn joining() {
    let parts = vec!["a".to_string(), "".to_string(), "c".to_string()];
    assert_eq!(join(&parts, "+"), "a++c");
    assert_eq!(join(&parts, ""), "ac");
    assert_eq!(join(&vec!["a".to_string()], "+"), "a");
    assert_eq!(join(&Vec::new(), "+"), "");
    assert_eq!(join(&parts, "%20AND%20"), "a%20AND%20%20AND%20c");
}

#[test]
fn decimal_numbers() {
    assert_eq!(decimal_chars(0), vec!['0']);
    assert_eq!(decimal_chars(1203), vec!['1', '2', '0', '3']);
    assert_eq!(string_of(&decimal_chars(u64::MAX)), "18446744073709551615");
    assert_eq!(parse_decimal(&chars_of("18446744073709551615"), u64::MAX), Ok(u64::MAX));
    assert_eq!(
        parse_decimal(&chars_of("18446744073709551616"), u64::MAX),
        Err(NumberError::TooLarge)
    );
    assert_eq!(parse_decimal(&chars_of("0012"), 12), Ok(12));
    assert_eq!(parse_decimal(&chars_of("13"), 12), Err(NumberError::TooLarge));
    assert_eq!(parse_decimal(&chars_of("+5"), 12), Ok(5));
    assert_eq!(parse_decimal(&chars_of("-5"), 12), Err(NumberError::InvalidDigit));
    assert_eq!(parse_decimal(&chars_of("5 "), 12), Err(NumberError::InvalidDigit));
    assert_eq!(parse_decimal(&chars_of("99x"), 12), Err(NumberError::TooLarge));
    assert_eq!(parse_decimal(&chars_of("9x9"), 12), Err(NumberError::InvalidDigit));
    assert_eq!(parse_decimal(&chars_of(""), 12), Err(NumberError::Empty));
    assert_eq!(parse_decimal(&chars_of("٣"), 12), Err(NumberError::InvalidDigit));
}
