//! The word motions as they act on a buffer.
//!
//! A motion works on the cursor's line: it starts from the cursor's column,
//! moves the cursor to the head of the range that it gives, and leaves the
//! range pending for an operator to consume.

use crate::buffer::{Buffer, BufferView, Cursor};
use crate::lines::{line_chars, line_count};
use crate::movement::movement::{word_motion, word_move, WordMotionTarget};
use crate::movement::selection::Range;
use vstd::prelude::*;

verus! {

impl BufferView {
    /// The buffer after a word motion. With the cursor outside its line
    /// nothing happens.
    pub open spec fn move_word(self, target: WordMotionTarget, count: usize) -> BufferView {
        let line = line_chars(self.text, self.cursor.row as nat);
        if self.cursor.row < line_count(self.text) && self.cursor.col <= line.len() {
            let moved = word_motion(
                line,
                Range { anchor: self.cursor.col, head: self.cursor.col },
                count,
                target,
            );
            BufferView {
                cursor: Cursor { row: self.cursor.row, col: moved.head },
                range: Some(moved),
                ..self
            }
        } else {
            self
        }
    }
}

pub fn move_word_impl(buf: &mut Buffer, target: WordMotionTarget, count: usize)
    ensures
        final(buf)@ == old(buf)@.move_word(target, count),
        final(buf).wf() == old(buf).wf(),
{
    if buf.cursor.row < buf.line_count() {
        let rope_line = buf.line(buf.cursor.row);
        if buf.cursor.col <= rope_line.len_chars() {
            let selection = Range { anchor: buf.cursor.col, head: buf.cursor.col };
            let new_range = word_move(rope_line, selection, count, target);
            buf.cursor.col = new_range.head;
            buf.range = Some(new_range);
        }
    }
}

pub fn move_next_word_start(buf: &mut Buffer, count: usize)
    ensures
        final(buf)@ == old(buf)@.move_word(WordMotionTarget::NextWordStart, count),
        final(buf).wf() == old(buf).wf(),
{
    move_word_impl(buf, WordMotionTarget::NextWordStart, count)
}

pub fn move_next_word_end(buf: &mut Buffer, count: usize)
    ensures
        final(buf)@ == old(buf)@.move_word(WordMotionTarget::NextWordEnd, count),
        final(buf).wf() == old(buf).wf(),
{
    move_word_impl(buf, WordMotionTarget::NextWordEnd, count)
}

pub fn move_prev_word_start(buf: &mut Buffer, count: usize)
    ensures
        final(buf)@ == old(buf)@.move_word(WordMotionTarget::PrevWordStart, count),
        final(buf).wf() == old(buf).wf(),
{
    move_word_impl(buf, WordMotionTarget::PrevWordStart, count)
}

pub fn move_prev_word_end(buf: &mut Buffer, count: usize)
    ensures
        final(buf)@ == old(buf)@.move_word(WordMotionTarget::PrevWordEnd, count),
        final(buf).wf() == old(buf).wf(),
{
    move_word_impl(buf, WordMotionTarget::PrevWordEnd, count)
}

pub fn move_next_long_word_start(buf: &mut Buffer, count: usize)
    ensures
        final(buf)@ == old(buf)@.move_word(WordMotionTarget::NextLongWordStart, count),
        final(buf).wf() == old(buf).wf(),
{
    move_word_impl(buf, WordMotionTarget::NextLongWordStart, count)
}

pub fn move_next_long_word_end(buf: &mut Buffer, count: usize)
    ensures
        final(buf)@ == old(buf)@.move_word(WordMotionTarget::NextLongWordEnd, count),
        final(buf).wf() == old(buf).wf(),
{
    move_word_impl(buf, WordMotionTarget::NextLongWordEnd, count)
}

pub fn move_prev_long_word_start(buf: &mut Buffer, count: usize)
    ensures
        final(buf)@ == old(buf)@.move_word(WordMotionTarget::PrevLongWordStart, count),
        final(buf).wf() == old(buf).wf(),
{
    move_word_impl(buf, WordMotionTarget::PrevLongWordStart, count)
}

pub fn move_prev_long_word_end(buf: &mut Buffer, count: usize)
    ensures
        final(buf)@ == old(buf)@.move_word(WordMotionTarget::PrevLongWordEnd, count),
        final(buf).wf() == old(buf).wf(),
{
    move_word_impl(buf, WordMotionTarget::PrevLongWordEnd, count)
}

pub fn move_next_sub_word_start(buf: &mut Buffer, count: usize)
    ensures
        final(buf)@ == old(buf)@.move_word(WordMotionTarget::NextSubWordStart, count),
        final(buf).wf() == old(buf).wf(),
{
    move_word_impl(buf, WordMotionTarget::NextSubWordStart, count)
}

pub fn move_next_sub_word_end(buf: &mut Buffer, count: usize)
    ensures
        final(buf)@ == old(buf)@.move_word(WordMotionTarget::NextSubWordEnd, count),
        final(buf).wf() == old(buf).wf(),
{
    move_word_impl(buf, WordMotionTarget::NextSubWordEnd, count)
}

pub fn move_prev_sub_word_start(buf: &mut Buffer, count: usize)
    ensures
        final(buf)@ == old(buf)@.move_word(WordMotionTarget::PrevSubWordStart, count),
        final(buf).wf() == old(buf).wf(),
{
    move_word_impl(buf, WordMotionTarget::PrevSubWordStart, count)
}

pub fn move_prev_sub_word_end(buf: &mut Buffer, count: usize)
    ensures
        final(buf)@ == old(buf)@.move_word(WordMotionTarget::PrevSubWordEnd, count),
        final(buf).wf() == old(buf).wf(),
{
    move_word_impl(buf, WordMotionTarget::PrevSubWordEnd, count)
}

} // verus!
