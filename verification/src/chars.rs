//! Character classification.
//!
//! Every code point falls into exactly one [`CharCategory`]. The categories
//! drive the boundary predicates of the word motions.

use unicode_general_category::get_general_category;
use unicode_general_category::GeneralCategory;
use vstd::prelude::*;

verus! {

/// The Unicode general categories, as `unicode_general_category` lists them.
#[verifier::external_type_specification]
pub struct ExGeneralCategory(GeneralCategory);

/// The general category that the Unicode tables of `unicode_general_category`
/// give to `c`.
pub uninterp spec fn general_category(c: char) -> GeneralCategory;

/// Whether `c` has the Unicode `White_Space` property, as `char::is_whitespace`
/// tells it.
pub uninterp spec fn unicode_whitespace(c: char) -> bool;

/// Whether `c` is alphabetic or numeric in Unicode, as `char::is_alphanumeric`
/// tells it.
pub uninterp spec fn unicode_alphanumeric(c: char) -> bool;

/// Whether `c` has the Unicode `Lowercase` property, as `char::is_lowercase`
/// tells it.
pub uninterp spec fn unicode_lowercase(c: char) -> bool;

/// Whether `c` has the Unicode `Uppercase` property, as `char::is_uppercase`
/// tells it.
pub uninterp spec fn unicode_uppercase(c: char) -> bool;

/// `unicode_general_category::get_general_category` is a table lookup on the
/// code point: the contract only gives its result the name
/// [`general_category`].
pub assume_specification[ get_general_category ](chr: char) -> (category: GeneralCategory)
    ensures
        category == general_category(chr),
;

/// `char::is_whitespace` depends on the code point alone: the contract gives
/// its result the name [`unicode_whitespace`].
pub assume_specification[ char::is_whitespace ](c: char) -> (b: bool)
    ensures
        b == unicode_whitespace(c),
;

/// `char::is_alphanumeric` depends on the code point alone: the contract gives
/// its result the name [`unicode_alphanumeric`].
pub assume_specification[ char::is_alphanumeric ](c: char) -> (b: bool)
    ensures
        b == unicode_alphanumeric(c),
;

/// `char::is_lowercase` depends on the code point alone: the contract gives
/// its result the name [`unicode_lowercase`].
pub assume_specification[ char::is_lowercase ](c: char) -> (b: bool)
    ensures
        b == unicode_lowercase(c),
;

/// `char::is_uppercase` depends on the code point alone: the contract gives
/// its result the name [`unicode_uppercase`].
pub assume_specification[ char::is_uppercase ](c: char) -> (b: bool)
    ensures
        b == unicode_uppercase(c),
;

/// The upper-case form of an ASCII letter; any other character as it is.
pub open spec fn ascii_upper(c: char) -> char {
    if 'a' <= c <= 'z' {
        ((c as u32) - 32) as char
    } else {
        c
    }
}

/// `char::to_ascii_uppercase` maps the ASCII letters `a` to `z` to `A` to `Z`
/// and leaves every other character as it is.
pub assume_specification[ char::to_ascii_uppercase ](c: &char) -> (upper: char)
    ensures
        upper == ascii_upper(*c),
;

/// The class of a character for the purpose of word motions.
#[derive(Debug, Clone, Copy, PartialEq, Eq, Structural)]
pub enum CharCategory {
    Whitespace,
    Eol,
    Word,
    Punctuation,
    Unknown,
}

/// The seven code points that end a line: LF, VT, FF, CR, NEL, LS and PS.
pub open spec fn is_line_ending(ch: char) -> bool {
    ch == '\u{000A}' || ch == '\u{000B}' || ch == '\u{000C}' || ch == '\u{000D}' || ch
        == '\u{0085}' || ch == '\u{2028}' || ch == '\u{2029}'
}

/// A word character is alphanumeric or the underscore.
pub open spec fn is_word(ch: char) -> bool {
    unicode_alphanumeric(ch) || ch == '_'
}

/// The general categories that count as punctuation: the seven punctuation
/// classes and the math, currency and modifier symbols.
pub open spec fn is_punctuation_category(category: GeneralCategory) -> bool {
    category == GeneralCategory::OtherPunctuation || category == GeneralCategory::OpenPunctuation
        || category == GeneralCategory::ClosePunctuation || category
        == GeneralCategory::InitialPunctuation || category == GeneralCategory::FinalPunctuation
        || category == GeneralCategory::ConnectorPunctuation || category
        == GeneralCategory::DashPunctuation || category == GeneralCategory::MathSymbol || category
        == GeneralCategory::CurrencySymbol || category == GeneralCategory::ModifierSymbol
}

/// The category of a character: the first of line ending, whitespace, word
/// and punctuation that applies, and `Unknown` when none does.
pub open spec fn category_of(ch: char) -> CharCategory {
    if is_line_ending(ch) {
        CharCategory::Eol
    } else if unicode_whitespace(ch) {
        CharCategory::Whitespace
    } else if is_word(ch) {
        CharCategory::Word
    } else if is_punctuation_category(general_category(ch)) {
        CharCategory::Punctuation
    } else {
        CharCategory::Unknown
    }
}

pub fn char_is_line_ending(ch: char) -> (b: bool)
    ensures
        b == is_line_ending(ch),
{
    matches!(
        ch,
        '\u{000A}' | '\u{000B}' | '\u{000C}' | '\u{000D}' | '\u{0085}' | '\u{2028}' | '\u{2029}'
    )
}

pub fn char_is_word(ch: char) -> (b: bool)
    ensures
        b == is_word(ch),
{
    ch.is_alphanumeric() || ch == '_'
}

/// Tells whether a general category is one of the punctuation classes.
pub fn category_is_punctuation(category: GeneralCategory) -> (b: bool)
    ensures
        b == is_punctuation_category(category),
{
    match category {
        GeneralCategory::OtherPunctuation
        | GeneralCategory::OpenPunctuation
        | GeneralCategory::ClosePunctuation
        | GeneralCategory::InitialPunctuation
        | GeneralCategory::FinalPunctuation
        | GeneralCategory::ConnectorPunctuation
        | GeneralCategory::DashPunctuation
        | GeneralCategory::MathSymbol
        | GeneralCategory::CurrencySymbol
        | GeneralCategory::ModifierSymbol => true,
        _ => false,
    }
}

pub fn char_is_punctuation(ch: char) -> (b: bool)
    ensures
        b == is_punctuation_category(general_category(ch)),
{
    category_is_punctuation(get_general_category(ch))
}

pub fn categorize_char(ch: char) -> (category: CharCategory)
    ensures
        category == category_of(ch),
{
    if char_is_line_ending(ch) {
        CharCategory::Eol
    } else if ch.is_whitespace() {
        CharCategory::Whitespace
    } else if char_is_word(ch) {
        CharCategory::Word
    } else if char_is_punctuation(ch) {
        CharCategory::Punctuation
    } else {
        CharCategory::Unknown
    }
}

/// A character has exactly one category, and the tests that decide it are
/// taken in a fixed order: a character is in the `Word` category exactly when
/// it is a word character that neither ends a line nor is whitespace.
pub proof fn lemma_category_is_unique(ch: char)
    ensures
        category_of(ch) is Eol <==> is_line_ending(ch),
        category_of(ch) is Whitespace <==> !is_line_ending(ch) && unicode_whitespace(ch),
        category_of(ch) is Word <==> is_word(ch) && !is_line_ending(ch) && !unicode_whitespace(ch),
        category_of(ch) is Word ==> is_word(ch),
        is_word(ch) ==> category_of(ch) is Word || category_of(ch) is Eol || category_of(ch)
            is Whitespace,
        ch == '_' && !unicode_whitespace(ch) ==> category_of(ch) is Word,
{
}

} // verus!
