//! The contracts under which the library uses `ropey`'s rope.
//!
//! Nothing here is proved: each contract states what `ropey` documents of the
//! function, over the characters that the rope holds.

use crate::lines::{cut, line_chars, line_count, line_start, splice};
use ropey::Rope;
use ropey::RopeSlice;
use vstd::prelude::*;

verus! {

/// `ropey::Rope`, an editable text.
#[verifier::external_type_specification]
#[verifier::external_body]
pub struct ExRope(Rope);

/// `ropey::RopeSlice`, a borrowed part of a rope.
#[verifier::external_type_specification]
#[verifier::external_body]
pub struct ExRopeSlice<'a>(RopeSlice<'a>);

/// The characters that a rope holds, in order.
pub uninterp spec fn rope_chars(rope: Rope) -> Seq<char>;

/// The characters that a slice of a rope holds, in order.
pub uninterp spec fn slice_chars(slice: RopeSlice) -> Seq<char>;

/// `Rope::new` makes an empty rope.
pub assume_specification[ Rope::new ]() -> (rope: Rope)
    ensures
        rope_chars(rope) == Seq::<char>::empty(),
;

/// `Rope::from_str` makes a rope that holds the characters of `text`.
pub assume_specification[ Rope::from_str ](text: &str) -> (rope: Rope)
    ensures
        rope_chars(rope) == text@,
;

/// A clone of a rope holds the same characters.
pub assume_specification[ <Rope as Clone>::clone ](rope: &Rope) -> (copy: Rope)
    ensures
        rope_chars(copy) == rope_chars(*rope),
;

/// `Rope::len_chars` is the number of characters in the rope.
pub assume_specification[ Rope::len_chars ](rope: &Rope) -> (n: usize)
    ensures
        n == rope_chars(*rope).len(),
;

/// `Rope::len_lines` is the number of line breaks in the rope, plus one.
pub assume_specification[ Rope::len_lines ](rope: &Rope) -> (n: usize)
    ensures
        n == line_count(rope_chars(*rope)),
;

/// `Rope::line_to_char` is the index of the first character of a line; for
/// the row one past the last line it is the number of characters. It panics
/// on a later row.
pub assume_specification[ Rope::line_to_char ](rope: &Rope, line_idx: usize) -> (idx: usize)
    requires
        line_idx <= line_count(rope_chars(*rope)),
    ensures
        idx == line_start(rope_chars(*rope), line_idx as nat),
;

/// `Rope::line` is the slice that holds a line, its line break included. It
/// panics on a row that the rope does not have.
pub assume_specification<'a>[ Rope::line ](rope: &'a Rope, line_idx: usize) -> (line: RopeSlice<
    'a,
>)
    requires
        line_idx < line_count(rope_chars(*rope)),
    ensures
        slice_chars(line) == line_chars(rope_chars(*rope), line_idx as nat),
;

/// `Rope::insert` splices `text` in at a character index. It panics on an
/// index past the end.
pub assume_specification[ Rope::insert ](rope: &mut Rope, char_idx: usize, text: &str)
    requires
        char_idx <= rope_chars(*old(rope)).len(),
    ensures
        rope_chars(*final(rope)) == splice(rope_chars(*old(rope)), char_idx as int, text@),
;

/// `RopeSlice::len_chars` is the number of characters in the slice.
pub assume_specification<'a>[ RopeSlice::<'a>::len_chars ](slice: &RopeSlice<'a>) -> (n: usize)
    ensures
        n == slice_chars(*slice).len(),
;

/// `RopeSlice::char` is the character at an index of the slice. It panics on
/// an index past the last character.
pub assume_specification<'a>[ RopeSlice::<'a>::char ](slice: &RopeSlice<'a>, char_idx: usize) -> (ch:
    char)
    requires
        char_idx < slice_chars(*slice).len(),
    ensures
        ch == slice_chars(*slice)[char_idx as int],
;

/// `Rope::remove` on the range from `start` up to `end` takes those characters
/// out. It panics where the range is inverted or ends past the end.
#[verifier::external_body]
pub(crate) fn rope_remove(rope: &mut Rope, start: usize, end: usize)
    requires
        start <= end <= rope_chars(*old(rope)).len(),
    ensures
        rope_chars(*final(rope)) == cut(rope_chars(*old(rope)), start as int, end as int),
{
    rope.remove(start..end)
}

/// `Rope::slice` on the range from `start` up to `end`, turned into a string,
/// holds those characters. It panics where the range is inverted or ends past
/// the end.
#[verifier::external_body]
pub(crate) fn rope_substring(rope: &Rope, start: usize, end: usize) -> (text: String)
    requires
        start <= end <= rope_chars(*rope).len(),
    ensures
        text@ == rope_chars(*rope).subrange(start as int, end as int),
{
    rope.slice(start..end).to_string()
}

/// The conversion of a rope into a `String` holds the rope's characters.
#[verifier::external_body]
pub(crate) fn rope_to_string(rope: &Rope) -> (text: String)
    ensures
        text@ == rope_chars(*rope),
{
    String::from(rope)
}

} // verus!
