use benihime::parse::{
    chars_of, contains_char, digit_to_char, eq_ignore_ascii_case, parse_digits, parse_i64,
    parse_usize, push_decimal, split_whitespace, string_of, to_ascii_lower,
};

fn cs(s: &str) -> Vec<char> {
    s.chars().collect()
}

#[test]
fn chars_and_strings_convert() {
    assert_eq!(chars_of("héy"), vec!['h', 'é', 'y']);
    assert_eq!(chars_of(""), Vec::<char>::new());
    assert_eq!(string_of(&cs("hello"), 1, 4), "ell");
    assert_eq!(string_of(&cs("hello"), 2, 2), "");
    assert!(contains_char(&cs("a/b"), '/'));
    assert!(!contains_char(&cs("ab"), '/'));
}

#[test]
fn unsigned_parsing_agrees_with_the_standard_library() {
    for s in [
        "0", "7", "42", "007", "+5", "+", "", "-0", "-1", "1a", "a1", " 1", "1 ", "++1", "+-1",
        "18446744073709551615", "18446744073709551616", "99999999999999999999999", "١٢",
    ] {
        assert_eq!(parse_usize(&cs(s)), s.parse::<usize>().ok(), "{:?}", s);
    }
}

#[test]
fn signed_parsing_agrees_with_the_standard_library() {
    for s in [
        "0", "-0", "+0", "12", "-12", "+12", "-", "+", "", "--1", "-+1", "1-", "9223372036854775807",
        "9223372036854775808", "-9223372036854775808", "-9223372036854775809", "x", "1.0",
    ] {
        assert_eq!(parse_i64(&cs(s)), s.parse::<i64>().ok(), "{:?}", s);
    }
}

#[test]
fn digits_are_read_up_to_a_limit() {
    assert_eq!(parse_digits(&cs("x255"), 1, 255), Some(255));
    assert_eq!(parse_digits(&cs("x256"), 1, 255), None);
    assert_eq!(parse_digits(&cs("x"), 1, 255), None);
    assert_eq!(parse_digits(&cs("12"), 0, 0), None);
    assert_eq!(parse_digits(&cs("0"), 0, 0), Some(0));
}

#[test]
fn decimal_writing() {
    let mut s = String::from("n=");
    push_decimal(&mut s, 0);
    s.push(',');
    push_decimal(&mut s, 907);
    s.push(',');
    push_decimal(&mut s, u64::MAX);
    assert_eq!(s, "n=0,907,18446744073709551615");
    assert_eq!(digit_to_char(0), '0');
    assert_eq!(digit_to_char(9), '9');
}

#[test]
fn ascii_case_folding() {
    assert_eq!(to_ascii_lower('A'), 'a');
    assert_eq!(to_ascii_lower('Z'), 'z');
    assert_eq!(to_ascii_lower('a'), 'a');
    assert_eq!(to_ascii_lower('Ä'), 'Ä');
    assert_eq!(to_ascii_lower('1'), '1');
    assert!(eq_ignore_ascii_case(&cs("TrUe"), "true"));
    assert!(!eq_ignore_ascii_case(&cs("tru"), "true"));
    assert!(!eq_ignore_ascii_case(&cs("trux"), "true"));
    for c in 0u8..128 {
        assert_eq!(to_ascii_lower(c as char), (c as char).to_ascii_lowercase());
    }
}

#[test]
fn words_are_split_at_whitespace() {
    assert_eq!(split_whitespace(&cs("  echo   hello\tworld \n")), vec!["echo", "hello", "world"]);
    assert_eq!(split_whitespace(&cs("one")), vec!["one"]);
    assert_eq!(split_whitespace(&cs("")), Vec::<String>::new());
    assert_eq!(split_whitespace(&cs(" \u{3000} ")), Vec::<String>::new());
    for s in ["a b", " a  b ", "a\u{00A0}b", "x\ny\rz", "tab\tsep"] {
        let expected: Vec<String> = s.split_whitespace().map(|w| w.to_string()).collect();
        assert_eq!(split_whitespace(&cs(s)), expected);
    }
}
