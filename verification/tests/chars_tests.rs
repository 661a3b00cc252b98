use benihime::chars::{
    categorize_char, char_is_line_ending, char_is_punctuation, char_is_word, CharCategory,
};
use benihime::motion::{is_punctuation, is_word_char};

#[test]
fn line_endings_are_the_seven_code_points() {
    for c in ['\n', '\u{000B}', '\u{000C}', '\r', '\u{0085}', '\u{2028}', '\u{2029}'] {
        assert!(char_is_line_ending(c));
        assert_eq!(categorize_char(c), CharCategory::Eol);
    }
    assert!(!char_is_line_ending(' '));
    assert!(!char_is_line_ending('a'));
    assert!(!char_is_line_ending('\t'));
}

#[test]
fn categories_of_common_characters() {
    assert_eq!(categorize_char(' '), CharCategory::Whitespace);
    assert_eq!(categorize_char('\t'), CharCategory::Whitespace);
    assert_eq!(categorize_char('a'), CharCategory::Word);
    assert_eq!(categorize_char('Z'), CharCategory::Word);
    assert_eq!(categorize_char('7'), CharCategory::Word);
    assert_eq!(categorize_char('_'), CharCategory::Word);
    assert_eq!(categorize_char('é'), CharCategory::Word);
    assert_eq!(categorize_char('カ'), CharCategory::Word);
    assert_eq!(categorize_char('.'), CharCategory::Punctuation);
    assert_eq!(categorize_char('('), CharCategory::Punctuation);
    assert_eq!(categorize_char('-'), CharCategory::Punctuation);
    assert_eq!(categorize_char('+'), CharCategory::Punctuation);
    assert_eq!(categorize_char('$'), CharCategory::Punctuation);
    assert_eq!(categorize_char('^'), CharCategory::Punctuation);
    assert_eq!(categorize_char('\u{0001}'), CharCategory::Unknown);
    assert_eq!(categorize_char('🦳'), CharCategory::Unknown);
}

#[test]
fn punctuation_follows_the_general_category() {
    assert!(char_is_punctuation('!'));
    assert!(char_is_punctuation('«'));
    assert!(char_is_punctuation('_'));
    assert!(char_is_punctuation('='));
    assert!(!char_is_punctuation('a'));
    assert!(!char_is_punctuation(' '));
    assert!(!char_is_punctuation('©'));
}

#[test]
fn word_category_is_word_character_for_every_code_point() {
    for code in 0..=0x10FFFFu32 {
        if let Some(c) = char::from_u32(code) {
            assert_eq!(char_is_word(c), categorize_char(c) == CharCategory::Word, "{:?}", c);
        }
    }
}

#[test]
fn word_chars_of_the_simple_classifier() {
    assert!(is_word_char('a'));
    assert!(is_word_char('_'));
    assert!(is_word_char('@'));
    assert!(!is_word_char('-'));
    assert!(is_punctuation('-'));
    assert!(!is_punctuation(' '));
    assert!(!is_punctuation('@'));
}
