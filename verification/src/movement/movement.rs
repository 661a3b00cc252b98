//! Word motions.
//!
//! A motion takes the text of one line, a range in it and a count, and gives
//! the range that the motion leads to. There are twelve targets: the start
//! and the end of the next and the previous word, long word and sub-word.
//!
//! A backward motion is the forward motion on the reversed line, with every
//! position mirrored.

use crate::chars::{
    categorize_char, category_of, char_is_line_ending, is_line_ending, unicode_lowercase,
    unicode_uppercase, unicode_whitespace, CharCategory,
};
use crate::movement::selection::Range;
use crate::rope::slice_chars;
use ropey::RopeSlice;
use vstd::prelude::*;

verus! {

/// The way in which a motion scans.
#[derive(Debug, Clone, Copy, PartialEq, Eq, Structural)]
pub enum Direction {
    Backward,
    Forward,
}

/// Possible targets of a word motion
#[derive(Copy, Clone, Debug, PartialEq, Eq, Structural)]
pub enum WordMotionTarget {
    NextWordStart,
    NextWordEnd,
    PrevWordStart,
    PrevWordEnd,
    NextLongWordStart,
    NextLongWordEnd,
    PrevLongWordStart,
    PrevLongWordEnd,
    NextSubWordStart,
    NextSubWordEnd,
    PrevSubWordStart,
    PrevSubWordEnd,
}

/// A word boundary lies between two characters of different categories.
pub open spec fn word_boundary(a: char, b: char) -> bool {
    category_of(a) != category_of(b)
}

/// A long-word boundary is a word boundary that is not between a word
/// character and punctuation.
pub open spec fn long_word_boundary(a: char, b: char) -> bool {
    let x = category_of(a);
    let y = category_of(b);
    if (x is Word && y is Punctuation) || (x is Punctuation && y is Word) {
        false
    } else {
        x != y
    }
}

/// A sub-word boundary is a word boundary, or lies inside a word where an
/// underscore meets another character or where the case changes in the
/// direction of the scan.
pub open spec fn sub_word_boundary(a: char, b: char, dir: Direction) -> bool {
    let x = category_of(a);
    let y = category_of(b);
    if x is Word && y is Word {
        if (a == '_') != (b == '_') {
            true
        } else {
            match dir {
                Direction::Forward => unicode_lowercase(a) && unicode_uppercase(b),
                Direction::Backward => unicode_uppercase(a) && unicode_lowercase(b),
            }
        }
    } else {
        x != y
    }
}

/// The right side of a boundary starts something: it ends a line or is not
/// whitespace.
pub open spec fn starts_unit(next_ch: char) -> bool {
    is_line_ending(next_ch) || !unicode_whitespace(next_ch)
}

/// The left side of a boundary ends something: it is not whitespace, or a
/// line ends on the right.
pub open spec fn ends_unit(prev_ch: char, next_ch: char) -> bool {
    !unicode_whitespace(prev_ch) || is_line_ending(next_ch)
}

/// Whether a scan for `target` stops between `prev_ch`, which it has passed,
/// and `next_ch`, which comes next.
pub open spec fn target_reached(target: WordMotionTarget, prev_ch: char, next_ch: char) -> bool {
    match target {
        WordMotionTarget::NextWordStart | WordMotionTarget::PrevWordEnd => word_boundary(
            prev_ch,
            next_ch,
        ) && starts_unit(next_ch),
        WordMotionTarget::NextWordEnd | WordMotionTarget::PrevWordStart => word_boundary(
            prev_ch,
            next_ch,
        ) && ends_unit(prev_ch, next_ch),
        WordMotionTarget::NextLongWordStart | WordMotionTarget::PrevLongWordEnd => long_word_boundary(
            prev_ch,
            next_ch,
        ) && starts_unit(next_ch),
        WordMotionTarget::NextLongWordEnd | WordMotionTarget::PrevLongWordStart => long_word_boundary(
            prev_ch,
            next_ch,
        ) && ends_unit(prev_ch, next_ch),
        WordMotionTarget::NextSubWordStart => sub_word_boundary(
            prev_ch,
            next_ch,
            Direction::Forward,
        ) && (is_line_ending(next_ch) || !(unicode_whitespace(next_ch) || next_ch == '_')),
        WordMotionTarget::PrevSubWordEnd => sub_word_boundary(
            prev_ch,
            next_ch,
            Direction::Backward,
        ) && (is_line_ending(next_ch) || !(unicode_whitespace(next_ch) || next_ch == '_')),
        WordMotionTarget::NextSubWordEnd => sub_word_boundary(
            prev_ch,
            next_ch,
            Direction::Forward,
        ) && (!(unicode_whitespace(prev_ch) || prev_ch == '_') || is_line_ending(next_ch)),
        WordMotionTarget::PrevSubWordStart => sub_word_boundary(
            prev_ch,
            next_ch,
            Direction::Backward,
        ) && (!(unicode_whitespace(prev_ch) || prev_ch == '_') || is_line_ending(next_ch)),
    }
}

impl WordMotionTarget {
    /// Whether the target lies before the range.
    pub open spec fn backward(self) -> bool {
        self is PrevWordStart || self is PrevWordEnd || self is PrevLongWordStart || self
            is PrevLongWordEnd || self is PrevSubWordStart || self is PrevSubWordEnd
    }

    pub fn is_backward(self) -> (b: bool)
        ensures
            b == self.backward(),
    {
        matches!(
            self,
            WordMotionTarget::PrevWordStart
                | WordMotionTarget::PrevWordEnd
                | WordMotionTarget::PrevLongWordStart
                | WordMotionTarget::PrevLongWordEnd
                | WordMotionTarget::PrevSubWordStart
                | WordMotionTarget::PrevSubWordEnd
        )
    }
}

/// The characters in the order in which a scan meets them.
pub open spec fn stream(line: Seq<char>, backward: bool) -> Seq<char> {
    if backward {
        line.reverse()
    } else {
        line
    }
}

/// The position in the line that a position in the stream stands for, and
/// the other way round.
pub open spec fn mirrored(len: int, pos: int, backward: bool) -> int {
    if backward {
        len - pos
    } else {
        pos
    }
}

/// The first position at or after `from` that is not before a line ending.
pub open spec fn skip_line_endings(st: Seq<char>, from: int) -> int
    decreases st.len() - from,
{
    if 0 <= from < st.len() && is_line_ending(st[from]) {
        skip_line_endings(st, from + 1)
    } else {
        from
    }
}

/// The first position at or after `from` at which the target is reached, or
/// the end of the stream.
pub open spec fn first_stop(st: Seq<char>, target: WordMotionTarget, from: int) -> int
    decreases st.len() - from,
{
    if from <= 0 || from >= st.len() {
        from
    } else if target_reached(target, st[from - 1], st[from]) {
        from
    } else {
        first_stop(st, target, from + 1)
    }
}

/// The range that one application of a motion leads to. The scan starts at
/// the head and first passes any line endings. The anchor moves to where it
/// then stands if a line ending lies behind it or the target is reached
/// right there. The head moves on to the first later position at which the
/// target is reached, or to the end.
pub open spec fn target_range(line: Seq<char>, target: WordMotionTarget, origin: Range) -> Range {
    let back = target.backward();
    let st = stream(line, back);
    let len = line.len() as int;
    let start = mirrored(len, origin.head as int, back);
    let skipped = skip_line_endings(st, start);
    let behind_ends_line = skipped > 0 && is_line_ending(st[skipped - 1]);
    let reached_at_once = skipped < len && (skipped == 0 || target_reached(
        target,
        st[skipped - 1],
        st[skipped],
    ));
    let stop = if skipped < len {
        first_stop(st, target, skipped + 1)
    } else {
        skipped
    };
    Range {
        anchor: if behind_ends_line || reached_at_once {
            mirrored(len, skipped, back) as usize
        } else {
            origin.anchor
        },
        head: mirrored(len, stop, back) as usize,
    }
}

/// The head from which a motion starts to scan: one back where the range
/// points forward, else the head itself, moved one on for a forward motion,
/// and in either case inside the line.
pub open spec fn scan_start(len: int, range: Range, backward: bool) -> int {
    if range.anchor < range.head {
        range.head - 1
    } else if backward {
        if range.head <= len - 1 {
            range.head as int
        } else if len >= 1 {
            len - 1
        } else {
            0
        }
    } else {
        if range.head + 1 <= len {
            range.head + 1
        } else {
            len
        }
    }
}

/// The range after `count` applications of a motion, each starting from
/// what the one before it gave.
pub open spec fn repeated_target_range(
    line: Seq<char>,
    target: WordMotionTarget,
    range: Range,
    count: nat,
) -> Range
    decreases count,
{
    if count == 0 {
        range
    } else {
        repeated_target_range(line, target, target_range(line, target, range), (count - 1) as nat)
    }
}

/// The range that a word motion leads to. A backward motion at the start of
/// the line and a forward motion at its end leave the range as it is.
pub open spec fn word_motion(
    line: Seq<char>,
    range: Range,
    count: usize,
    target: WordMotionTarget,
) -> Range {
    let back = target.backward();
    if (back && range.head == 0) || (!back && range.head == line.len()) {
        range
    } else {
        repeated_target_range(
            line,
            target,
            Range { anchor: range.anchor, head: scan_start(line.len() as int, range, back) as usize },
            count as nat,
        )
    }
}

pub fn is_word_boundary(a: char, b: char) -> (boundary: bool)
    ensures
        boundary == word_boundary(a, b),
{
    categorize_char(a) != categorize_char(b)
}

pub fn is_long_word_boundary(a: char, b: char) -> (boundary: bool)
    ensures
        boundary == long_word_boundary(a, b),
{
    match (categorize_char(a), categorize_char(b)) {
        (CharCategory::Word, CharCategory::Punctuation)
        | (CharCategory::Punctuation, CharCategory::Word) => false,
        (x, y) => x != y,
    }
}

pub fn is_sub_word_boundary(a: char, b: char, dir: Direction) -> (boundary: bool)
    ensures
        boundary == sub_word_boundary(a, b, dir),
{
    match (categorize_char(a), categorize_char(b)) {
        (CharCategory::Word, CharCategory::Word) => {
            if (a == '_') != (b == '_') {
                return true;
            }
            match dir {
                Direction::Forward => a.is_lowercase() && b.is_uppercase(),
                Direction::Backward => a.is_uppercase() && b.is_lowercase(),
            }
        },
        (x, y) => x != y,
    }
}

pub fn reached_target(target: WordMotionTarget, prev_ch: char, next_ch: char) -> (reached: bool)
    ensures
        reached == target_reached(target, prev_ch, next_ch),
{
    match target {
        WordMotionTarget::NextWordStart | WordMotionTarget::PrevWordEnd => {
            is_word_boundary(prev_ch, next_ch) && (char_is_line_ending(next_ch)
                || !next_ch.is_whitespace())
        },
        WordMotionTarget::NextWordEnd | WordMotionTarget::PrevWordStart => {
            is_word_boundary(prev_ch, next_ch) && (!prev_ch.is_whitespace()
                || char_is_line_ending(next_ch))
        },
        WordMotionTarget::NextLongWordStart | WordMotionTarget::PrevLongWordEnd => {
            is_long_word_boundary(prev_ch, next_ch) && (char_is_line_ending(next_ch)
                || !next_ch.is_whitespace())
        },
        WordMotionTarget::NextLongWordEnd | WordMotionTarget::PrevLongWordStart => {
            is_long_word_boundary(prev_ch, next_ch) && (!prev_ch.is_whitespace()
                || char_is_line_ending(next_ch))
        },
        WordMotionTarget::NextSubWordStart => {
            is_sub_word_boundary(prev_ch, next_ch, Direction::Forward) && (char_is_line_ending(
                next_ch,
            ) || !(next_ch.is_whitespace() || next_ch == '_'))
        },
        WordMotionTarget::PrevSubWordEnd => {
            is_sub_word_boundary(prev_ch, next_ch, Direction::Backward) && (char_is_line_ending(
                next_ch,
            ) || !(next_ch.is_whitespace() || next_ch == '_'))
        },
        WordMotionTarget::NextSubWordEnd => {
            is_sub_word_boundary(prev_ch, next_ch, Direction::Forward) && (!(
            prev_ch.is_whitespace() || prev_ch == '_') || char_is_line_ending(next_ch))
        },
        WordMotionTarget::PrevSubWordStart => {
            is_sub_word_boundary(prev_ch, next_ch, Direction::Backward) && (!(
            prev_ch.is_whitespace() || prev_ch == '_') || char_is_line_ending(next_ch))
        },
    }
}

/// The character that a scan meets at position `pos` of its stream.
fn stream_char(slice: &RopeSlice, len: usize, backward: bool, pos: usize) -> (ch: char)
    requires
        len == slice_chars(*slice).len(),
        pos < len,
    ensures
        ch == stream(slice_chars(*slice), backward)[pos as int],
{
    if backward {
        slice.char(len - 1 - pos)
    } else {
        slice.char(pos)
    }
}

/// Whether a line ending comes next at position `pos` of the stream.
fn line_ending_at(slice: &RopeSlice, len: usize, backward: bool, pos: usize) -> (b: bool)
    requires
        len == slice_chars(*slice).len(),
    ensures
        b == (pos < len && is_line_ending(stream(slice_chars(*slice), backward)[pos as int])),
{
    pos < len && char_is_line_ending(stream_char(slice, len, backward, pos))
}

/// Whether a scan for `target` stops at position `pos` of the stream: at its
/// end, or where the target is reached.
fn stops_at(
    slice: &RopeSlice,
    len: usize,
    backward: bool,
    target: WordMotionTarget,
    pos: usize,
) -> (b: bool)
    requires
        len == slice_chars(*slice).len(),
        0 < pos,
    ensures
        b == (pos >= len || target_reached(
            target,
            stream(slice_chars(*slice), backward)[pos - 1],
            stream(slice_chars(*slice), backward)[pos as int],
        )),
{
    pos >= len || reached_target(
        target,
        stream_char(slice, len, backward, pos - 1),
        stream_char(slice, len, backward, pos),
    )
}

/// Applies a motion once: scans from the head of `origin` for `target`.
pub fn range_to_target(slice: &RopeSlice, target: WordMotionTarget, origin: Range) -> (range: Range)
    requires
        origin.head <= slice_chars(*slice).len(),
    ensures
        range == target_range(slice_chars(*slice), target, origin),
        range.head <= slice_chars(*slice).len(),
{
    let back = target.is_backward();
    let len = slice.len_chars();
    let ghost line = slice_chars(*slice);
    let ghost st = stream(line, back);
    let start = if back {
        len - origin.head
    } else {
        origin.head
    };
    // Skip any initial newline characters.
    let mut pos = start;
    while line_ending_at(slice, len, back, pos)
        invariant
            len == line.len(),
            line == slice_chars(*slice),
            st == stream(line, back),
            start <= pos <= len,
            skip_line_endings(st, pos as int) == skip_line_endings(st, start as int),
        decreases len - pos,
    {
        pos = pos + 1;
    }
    let skipped = pos;
    let mut moved_anchor = skipped > 0 && char_is_line_ending(
        stream_char(slice, len, back, skipped - 1),
    );
    if pos < len {
        if pos == 0 || reached_target(
            target,
            stream_char(slice, len, back, pos - 1),
            stream_char(slice, len, back, pos),
        ) {
            moved_anchor = true;
        }
        pos = pos + 1;
        while !stops_at(slice, len, back, target, pos)
            invariant
                len == line.len(),
                line == slice_chars(*slice),
                st == stream(line, back),
                skipped < pos <= len,
                first_stop(st, target, pos as int) == first_stop(st, target, skipped + 1),
            decreases len - pos,
        {
            pos = pos + 1;
        }
    }
    let anchor = if moved_anchor {
        if back {
            len - skipped
        } else {
            skipped
        }
    } else {
        origin.anchor
    };
    let head = if back {
        len - pos
    } else {
        pos
    };
    Range::new(anchor, head)
}

pub fn word_move(slice: RopeSlice, range: Range, count: usize, target: WordMotionTarget) -> (moved:
    Range)
    requires
        range.head <= slice_chars(slice).len(),
    ensures
        moved == word_motion(slice_chars(slice), range, count, target),
{
    let prev = target.is_backward();
    let len = slice.len_chars();

    // Early exit if at the start/end.
    if (prev && range.head == 0) || (!prev && range.head == len) {
        return range;
    }
    let start_head = if range.anchor < range.head {
        range.head - 1
    } else if prev {
        if range.head <= len.saturating_sub(1) {
            range.head
        } else {
            len.saturating_sub(1)
        }
    } else {
        if range.head + 1 <= len {
            range.head + 1
        } else {
            len
        }
    };
    let start = Range { anchor: range.anchor, head: start_head };
    let mut range = start;
    let mut done: usize = 0;
    while done < count
        invariant
            done <= count,
            range.head <= slice_chars(slice).len(),
            repeated_target_range(slice_chars(slice), target, range, (count - done) as nat)
                == repeated_target_range(slice_chars(slice), target, start, count as nat),
        decreases count - done,
    {
        range = range_to_target(&slice, target, range);
        done = done + 1;
    }
    range
}

pub fn move_next_word_start(slice: RopeSlice, range: Range, count: usize) -> (moved: Range)
    requires
        range.head <= slice_chars(slice).len(),
    ensures
        moved == word_motion(slice_chars(slice), range, count, WordMotionTarget::NextWordStart),
{
    word_move(slice, range, count, WordMotionTarget::NextWordStart)
}

pub fn move_next_word_end(slice: RopeSlice, range: Range, count: usize) -> (moved: Range)
    requires
        range.head <= slice_chars(slice).len(),
    ensures
        moved == word_motion(slice_chars(slice), range, count, WordMotionTarget::NextWordEnd),
{
    word_move(slice, range, count, WordMotionTarget::NextWordEnd)
}

pub fn move_prev_word_start(slice: RopeSlice, range: Range, count: usize) -> (moved: Range)
    requires
        range.head <= slice_chars(slice).len(),
    ensures
        moved == word_motion(slice_chars(slice), range, count, WordMotionTarget::PrevWordStart),
{
    word_move(slice, range, count, WordMotionTarget::PrevWordStart)
}

pub fn move_prev_word_end(slice: RopeSlice, range: Range, count: usize) -> (moved: Range)
    requires
        range.head <= slice_chars(slice).len(),
    ensures
        moved == word_motion(slice_chars(slice), range, count, WordMotionTarget::PrevWordEnd),
{
    word_move(slice, range, count, WordMotionTarget::PrevWordEnd)
}

pub fn move_next_long_word_start(slice: RopeSlice, range: Range, count: usize) -> (moved: Range)
    requires
        range.head <= slice_chars(slice).len(),
    ensures
        moved == word_motion(slice_chars(slice), range, count, WordMotionTarget::NextLongWordStart),
{
    word_move(slice, range, count, WordMotionTarget::NextLongWordStart)
}

pub fn move_next_long_word_end(slice: RopeSlice, range: Range, count: usize) -> (moved: Range)
    requires
        range.head <= slice_chars(slice).len(),
    ensures
        moved == word_motion(slice_chars(slice), range, count, WordMotionTarget::NextLongWordEnd),
{
    word_move(slice, range, count, WordMotionTarget::NextLongWordEnd)
}

pub fn move_prev_long_word_start(slice: RopeSlice, range: Range, count: usize) -> (moved: Range)
    requires
        range.head <= slice_chars(slice).len(),
    ensures
        moved == word_motion(slice_chars(slice), range, count, WordMotionTarget::PrevLongWordStart),
{
    word_move(slice, range, count, WordMotionTarget::PrevLongWordStart)
}

pub fn move_prev_long_word_end(slice: RopeSlice, range: Range, count: usize) -> (moved: Range)
    requires
        range.head <= slice_chars(slice).len(),
    ensures
        moved == word_motion(slice_chars(slice), range, count, WordMotionTarget::PrevLongWordEnd),
{
    word_move(slice, range, count, WordMotionTarget::PrevLongWordEnd)
}

pub fn move_next_sub_word_start(slice: RopeSlice, range: Range, count: usize) -> (moved: Range)
    requires
        range.head <= slice_chars(slice).len(),
    ensures
        moved == word_motion(slice_chars(slice), range, count, WordMotionTarget::NextSubWordStart),
{
    word_move(slice, range, count, WordMotionTarget::NextSubWordStart)
}

pub fn move_next_sub_word_end(slice: RopeSlice, range: Range, count: usize) -> (moved: Range)
    requires
        range.head <= slice_chars(slice).len(),
    ensures
        moved == word_motion(slice_chars(slice), range, count, WordMotionTarget::NextSubWordEnd),
{
    word_move(slice, range, count, WordMotionTarget::NextSubWordEnd)
}

pub fn move_prev_sub_word_start(slice: RopeSlice, range: Range, count: usize) -> (moved: Range)
    requires
        range.head <= slice_chars(slice).len(),
    ensures
        moved == word_motion(slice_chars(slice), range, count, WordMotionTarget::PrevSubWordStart),
{
    word_move(slice, range, count, WordMotionTarget::PrevSubWordStart)
}

pub fn move_prev_sub_word_end(slice: RopeSlice, range: Range, count: usize) -> (moved: Range)
    requires
        range.head <= slice_chars(slice).len(),
    ensures
        moved == word_motion(slice_chars(slice), range, count, WordMotionTarget::PrevSubWordEnd),
{
    word_move(slice, range, count, WordMotionTarget::PrevSubWordEnd)
}

/// A motion at the boundary of the line is idle: a backward motion from
/// offset 0 and a forward motion from the last offset give back the range
/// they were given, whatever the count.
pub proof fn lemma_motion_idle_at_boundary(
    line: Seq<char>,
    range: Range,
    count: usize,
    target: WordMotionTarget,
)
    ensures
        target.backward() && range.head == 0 ==> word_motion(line, range, count, target) == range,
        !target.backward() && range.head == line.len() ==> word_motion(line, range, count, target)
            == range,
        range.head == 0 ==> word_motion(line, range, count, WordMotionTarget::PrevWordStart)
            == range,
        range.head == line.len() ==> word_motion(line, range, count, WordMotionTarget::NextWordEnd)
            == range,
{
}

} // verus!
