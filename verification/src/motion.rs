//! A simple split of the characters into words and punctuation.

use crate::chars::{unicode_alphanumeric, unicode_whitespace};
use vstd::prelude::*;

verus! {

/// A word character is alphanumeric, an underscore or an at sign.
pub open spec fn word_char(c: char) -> bool {
    unicode_alphanumeric(c) || c == '_' || c == '@'
}

pub fn is_word_char(c: char) -> (b: bool)
    ensures
        b == word_char(c),
{
    c.is_alphanumeric() || c == '_' || c == '@'
}

/// Punctuation is what is neither whitespace nor a word character.
pub fn is_punctuation(c: char) -> (b: bool)
    ensures
        b == (!unicode_whitespace(c) && !word_char(c)),
{
    !c.is_whitespace() && !is_word_char(c)
}

} // verus!
