//! The line structure of a text, stated over its characters.
//!
//! The start of the text and every position just after a line break start a
//! line, and a line break belongs to the line that it ends. A carriage return
//! directly followed by a line feed is one line break.

use crate::chars::is_line_ending;
use vstd::prelude::*;

verus! {

/// A line break ends just before position `i` of `text`.
pub open spec fn breaks_before(text: Seq<char>, i: int) -> bool {
    &&& 0 < i <= text.len()
    &&& is_line_ending(text[i - 1])
    &&& !(text[i - 1] == '\r' && i < text.len() && text[i] == '\n')
}

/// The number of line breaks that end at or before position `n`.
pub open spec fn break_count(text: Seq<char>, n: int) -> nat
    decreases n,
{
    if n <= 0 {
        0
    } else {
        break_count(text, n - 1) + if breaks_before(text, n) {
            1nat
        } else {
            0nat
        }
    }
}

/// The number of lines: one more than the number of line breaks.
pub open spec fn line_count(text: Seq<char>) -> nat {
    break_count(text, text.len() as int) + 1
}

/// The first line start after position `from`, or the end of the text.
pub open spec fn next_line_start(text: Seq<char>, from: int) -> int
    decreases text.len() - from,
{
    if from >= text.len() {
        text.len() as int
    } else if breaks_before(text, from + 1) {
        from + 1
    } else {
        next_line_start(text, from + 1)
    }
}

/// The position at which line `row` starts; the end of the text for a row
/// past the last line.
pub open spec fn line_start(text: Seq<char>, row: nat) -> int
    decreases row,
{
    if row == 0 {
        0
    } else {
        next_line_start(text, line_start(text, (row - 1) as nat))
    }
}

/// The characters of line `row`, its line break included.
pub open spec fn line_chars(text: Seq<char>, row: nat) -> Seq<char> {
    text.subrange(line_start(text, row), line_start(text, row + 1))
}

/// The length of a line without a trailing line feed, or carriage return and
/// line feed.
pub open spec fn trimmed_len(line: Seq<char>) -> nat {
    let n = line.len();
    if n == 0 {
        0
    } else if line[n - 1] == '\n' {
        if n > 1 && line[n - 2] == '\r' {
            (n - 2) as nat
        } else {
            (n - 1) as nat
        }
    } else {
        n
    }
}

/// The length of line `row` without its line feed; 0 for a row that the text
/// does not have.
pub open spec fn line_len(text: Seq<char>, row: nat) -> nat {
    if row >= line_count(text) {
        0
    } else {
        trimmed_len(line_chars(text, row))
    }
}

/// `text` with `s` spliced in at position `at`.
pub open spec fn splice(text: Seq<char>, at: int, s: Seq<char>) -> Seq<char> {
    text.subrange(0, at) + s + text.subrange(at, text.len() as int)
}

/// `text` without the characters from `start` up to `end`.
pub open spec fn cut(text: Seq<char>, start: int, end: int) -> Seq<char> {
    text.subrange(0, start) + text.subrange(end, text.len() as int)
}

pub proof fn lemma_next_line_start_bounds(text: Seq<char>, from: int)
    requires
        0 <= from <= text.len(),
    ensures
        from <= next_line_start(text, from) <= text.len(),
        from < text.len() ==> from < next_line_start(text, from),
    decreases text.len() - from,
{
    if from < text.len() && !breaks_before(text, from + 1) {
        lemma_next_line_start_bounds(text, from + 1);
    }
}

pub proof fn lemma_line_start_bounds(text: Seq<char>, row: nat)
    ensures
        0 <= line_start(text, row) <= line_start(text, row + 1) <= text.len(),
    decreases row,
{
    if row > 0 {
        lemma_line_start_bounds(text, (row - 1) as nat);
    }
    lemma_next_line_start_bounds(text, line_start(text, row));
}

pub proof fn lemma_break_count_bounds(text: Seq<char>, n: int)
    requires
        0 <= n,
    ensures
        break_count(text, n) <= n,
    decreases n,
{
    if n > 0 {
        lemma_break_count_bounds(text, n - 1);
    }
}

/// A text has at least one line and at most one more than it has characters.
pub proof fn lemma_line_count_bounds(text: Seq<char>)
    ensures
        1 <= line_count(text) <= text.len() + 1,
{
    lemma_break_count_bounds(text, text.len() as int);
}

/// No line break ends strictly between a position and the line start
/// that follows it.
proof fn lemma_break_count_next(text: Seq<char>, from: int)
    requires
        0 <= from <= text.len(),
    ensures
        from < text.len() ==> break_count(text, next_line_start(text, from)) <= break_count(
            text,
            from,
        ) + 1,
        from < text.len() && next_line_start(text, from) < text.len() ==> break_count(
            text,
            next_line_start(text, from),
        ) == break_count(text, from) + 1,
        from < text.len() && break_count(text, text.len() as int) > break_count(text, from)
            ==> break_count(text, next_line_start(text, from)) == break_count(text, from) + 1,
        from == text.len() ==> next_line_start(text, from) == from,
    decreases text.len() - from,
{
    if from < text.len() {
        if !breaks_before(text, from + 1) {
            lemma_break_count_next(text, from + 1);
            lemma_break_count_monotone(text, from + 1, text.len() as int);
        }
    }
}

pub proof fn lemma_break_count_monotone(text: Seq<char>, a: int, b: int)
    requires
        a <= b,
    ensures
        break_count(text, a) <= break_count(text, b),
    decreases b - a,
{
    if a < b {
        lemma_break_count_monotone(text, a, b - 1);
    }
}

/// Line `row` starts just after the `row`-th line break, for every row that
/// the text has.
pub proof fn lemma_line_start_counts_breaks(text: Seq<char>, row: nat)
    requires
        row < line_count(text),
    ensures
        break_count(text, line_start(text, row)) == row,
        row + 1 < line_count(text) ==> line_start(text, row + 1) > line_start(text, row),
    decreases row,
{
    lemma_line_start_bounds(text, row);
    if row > 0 {
        let prev = (row - 1) as nat;
        lemma_line_start_counts_breaks(text, prev);
        lemma_line_start_bounds(text, prev);
        lemma_break_count_next(text, line_start(text, prev));
        lemma_next_line_start_bounds(text, line_start(text, prev));
    }
    if row + 1 < line_count(text) {
        lemma_break_count_next(text, line_start(text, row));
        lemma_next_line_start_bounds(text, line_start(text, row));
    }
}

/// The row one past the last line starts at the end of the text.
pub proof fn lemma_line_start_past_end(text: Seq<char>)
    ensures
        line_start(text, line_count(text)) == text.len(),
{
    let last = (line_count(text) - 1) as nat;
    lemma_line_start_counts_breaks(text, last);
    lemma_line_start_bounds(text, last);
    lemma_no_break_after(text, line_start(text, last));
}

/// Where all line breaks end at or before `from`, no line starts after it.
proof fn lemma_no_break_after(text: Seq<char>, from: int)
    requires
        0 <= from <= text.len(),
        break_count(text, from) == break_count(text, text.len() as int),
    ensures
        next_line_start(text, from) == text.len(),
    decreases text.len() - from,
{
    if from < text.len() {
        lemma_break_count_monotone(text, from + 1, text.len() as int);
        lemma_no_break_after(text, from + 1);
    }
}

/// A line, with or without its line break, lies inside the text.
pub proof fn lemma_line_len_bounds(text: Seq<char>, row: nat)
    ensures
        line_start(text, row) + line_len(text, row) <= line_start(text, row + 1),
        line_start(text, row) + line_len(text, row) <= text.len(),
        line_chars(text, row).len() == line_start(text, row + 1) - line_start(text, row),
{
    lemma_line_start_bounds(text, row);
}

/// The number of line feeds in `s`.
pub open spec fn newline_count(s: Seq<char>) -> nat
    decreases s.len(),
{
    if s.len() == 0 {
        0
    } else {
        newline_count(s.drop_last()) + if s.last() == '\n' {
            1nat
        } else {
            0nat
        }
    }
}

/// The number of characters after the last line feed of `s`; all of them
/// where it has none.
pub open spec fn tail_len(s: Seq<char>) -> nat
    decreases s.len(),
{
    if s.len() == 0 {
        0
    } else if s.last() == '\n' {
        0
    } else {
        tail_len(s.drop_last()) + 1
    }
}

pub proof fn lemma_newline_count_bounds(s: Seq<char>)
    ensures
        newline_count(s) <= s.len(),
        tail_len(s) <= s.len(),
        newline_count(s) == 0 ==> tail_len(s) == s.len(),
    decreases s.len(),
{
    if s.len() > 0 {
        lemma_newline_count_bounds(s.drop_last());
    }
}

/// Every row past the last line starts at the end of the text.
pub proof fn lemma_line_start_saturates(text: Seq<char>, row: nat)
    requires
        row >= line_count(text),
    ensures
        line_start(text, row) == text.len(),
    decreases row,
{
    if row == line_count(text) {
        lemma_line_start_past_end(text);
    } else {
        lemma_line_start_saturates(text, (row - 1) as nat);
    }
}

} // verus!
