//! The commands that act on one buffer.

use crate::buffer::{sat_add, sat_sub, Buffer, BufferView, Cursor, Mode, Selection};
use crate::chars::unicode_whitespace;
use crate::lines::{lemma_line_start_bounds, line_chars, line_count, line_len, line_start};
use crate::movement::selection::Range;
use vstd::prelude::*;

verus! {

/// The place of the first character at or after `from` that is not
/// whitespace, or the length of the line.
pub open spec fn first_non_blank(line: Seq<char>, from: int) -> int
    decreases line.len() - from,
{
    if from < 0 || from >= line.len() {
        line.len() as int
    } else if !unicode_whitespace(line[from]) {
        from
    } else {
        first_non_blank(line, from + 1)
    }
}

impl BufferView {
    /// The cursor moved to `cursor`.
    pub open spec fn at(self, cursor: Cursor) -> BufferView {
        BufferView { cursor, ..self }
    }

    /// The column `col`, but not past the end of line `row`.
    pub open spec fn clamped(self, row: usize, col: usize) -> Cursor {
        let len = line_len(self.text, row as nat);
        Cursor {
            row,
            col: if col <= len {
                col
            } else {
                len as usize
            },
        }
    }

    /// The last row of the text.
    pub open spec fn last_row(self) -> usize {
        (line_count(self.text) - 1) as usize
    }

    /// One column to the left, if there is one.
    pub open spec fn move_left(self) -> BufferView {
        self.at(Cursor { row: self.cursor.row, col: sat_sub(self.cursor.col, 1) })
    }

    /// One column to the right, but not past the end of the line.
    pub open spec fn move_right(self) -> BufferView {
        self.at(self.clamped(self.cursor.row, sat_add(self.cursor.col, 1)))
    }

    /// One row up, if there is one, and not past the end of that line.
    pub open spec fn move_up(self) -> BufferView {
        self.at(self.clamped(sat_sub(self.cursor.row, 1), self.cursor.col))
    }

    /// `rows` rows down, but not past the last row, and not past the end of
    /// that line.
    pub open spec fn rows_down(self, rows: usize) -> BufferView {
        let row = sat_add(self.cursor.row, rows);
        self.at(
            self.clamped(
                if row <= self.last_row() {
                    row
                } else {
                    self.last_row()
                },
                self.cursor.col,
            ),
        )
    }

    /// `rows` rows up, but not before the first row, and not past the end of
    /// that line.
    pub open spec fn rows_up(self, rows: usize) -> BufferView {
        self.at(self.clamped(sat_sub(self.cursor.row, rows), self.cursor.col))
    }

    /// To the start of the line.
    pub open spec fn beginning_of_line(self) -> BufferView {
        self.at(Cursor { row: self.cursor.row, col: 0 })
    }

    /// To the end of the line.
    pub open spec fn end_of_line(self) -> BufferView {
        self.at(
            Cursor {
                row: self.cursor.row,
                col: line_len(self.text, self.cursor.row as nat) as usize,
            },
        )
    }

    /// To the first character of the line that is not whitespace, or to the
    /// end of a line of whitespace. On a row that the text does not have
    /// nothing happens.
    pub open spec fn start_of_line(self) -> BufferView {
        if self.cursor.row >= line_count(self.text) {
            self
        } else {
            self.at(
                Cursor {
                    row: self.cursor.row,
                    col: first_non_blank(line_chars(self.text, self.cursor.row as nat), 0) as usize,
                },
            )
        }
    }

    /// To the first row.
    pub open spec fn goto_first_line(self) -> BufferView {
        self.at(self.clamped(0, self.cursor.col))
    }

    /// To the last row.
    pub open spec fn goto_last_line(self) -> BufferView {
        self.at(self.clamped(self.last_row(), self.cursor.col))
    }

    /// A line break put in at the start of the cursor's line, and the cursor
    /// at the start of the new line. The mode is left as it is.
    pub open spec fn new_line_above(self) -> BufferView {
        self.insert(line_start(self.text, self.cursor.row as nat) as nat, seq!['\n']).at(
            Cursor { row: self.cursor.row, col: 0 },
        )
    }

    /// A line break put in at the start of the line below, and the cursor at
    /// the start of the new line. The mode is left as it is.
    pub open spec fn new_line_below(self) -> BufferView {
        self.insert(
            line_start(self.text, sat_add(self.cursor.row, 1) as nat) as nat,
            seq!['\n'],
        ).at(Cursor { row: sat_add(self.cursor.row, 1), col: 0 })
    }

    /// A selection begun at the cursor, outside visual mode.
    pub open spec fn enter_visual_mode(self) -> BufferView {
        if self.mode == Mode::Visual {
            self
        } else {
            BufferView { selection: Some(Selection { start: self.cursor }), ..self }.set_mode(
                Mode::Visual,
            )
        }
    }

    /// The selection dropped, and normal mode.
    pub open spec fn exit_visual_mode(self) -> BufferView {
        BufferView { selection: None, ..self }.set_mode(Mode::Normal)
    }

    /// The cursor and the anchor of the selection change places.
    pub open spec fn visual_select_other_end(self) -> BufferView {
        match self.selection {
            Some(selection) if self.mode == Mode::Visual => BufferView {
                selection: Some(Selection { start: self.cursor }),
                cursor: selection.start,
                ..self
            },
            _ => self,
        }
    }

    /// In visual mode the selected text is deleted and the mode becomes
    /// `next`; in another mode nothing happens.
    pub open spec fn consume_selection(self, next: Mode) -> BufferView {
        if self.mode == Mode::Visual {
            self.delete_selection().set_mode(next)
        } else {
            self
        }
    }

    /// The length of the cursor's line, its line break included.
    pub open spec fn full_line_len(self) -> int {
        line_start(self.text, sat_add(self.cursor.row, 1) as nat) - line_start(
            self.text,
            self.cursor.row as nat,
        )
    }

    /// The span of `range` deleted from the cursor's line, no further than
    /// the line goes; the cursor at the start of the span, and no range
    /// pending.
    pub open spec fn delete_span(self, range: Range) -> BufferView {
        let line = line_start(self.text, self.cursor.row as nat);
        let len = self.full_line_len();
        let from = if range.spec_from() <= len {
            range.spec_from() as int
        } else {
            len
        };
        let to = if range.spec_to() <= len {
            range.spec_to() as int
        } else {
            len
        };
        BufferView { range: None, ..self }.remove((line + from) as nat, (line + to) as nat).at(
            Cursor { row: self.cursor.row, col: range.spec_from() },
        )
    }

    /// The pending range deleted; without one, the character under the
    /// cursor.
    pub open spec fn delete_range(self) -> BufferView {
        match self.range {
            Some(range) => self.delete_span(range),
            None => {
                let line = line_start(self.text, self.cursor.row as nat);
                let len = self.full_line_len();
                if len > 0 {
                    let col = if self.cursor.col <= len - 1 {
                        self.cursor.col as int
                    } else {
                        len - 1
                    };
                    self.remove((line + col) as nat, (line + col + 1) as nat)
                } else {
                    self
                }
            },
        }
    }

    /// The pending range deleted, and insert mode; without a range nothing
    /// happens.
    pub open spec fn change_range(self) -> BufferView {
        match self.range {
            Some(range) => self.delete_span(range).set_mode(Mode::Insert),
            None => self,
        }
    }
}

/// The column `col`, but not past the end of line `row`.
fn clamp(buf: &Buffer, row: usize, col: usize) -> (cursor: Cursor)
    ensures
        cursor == buf@.clamped(row, col),
{
    let len = buf.line_len(row);
    Cursor {
        row,
        col: if col <= len {
            col
        } else {
            len
        },
    }
}

pub fn move_left(buf: &mut Buffer)
    ensures
        final(buf)@ == old(buf)@.move_left(),
        final(buf).wf() == old(buf).wf(),
{
    buf.cursor.col = buf.cursor.col.saturating_sub(1);
}

pub fn move_right(buf: &mut Buffer)
    ensures
        final(buf)@ == old(buf)@.move_right(),
        final(buf).wf() == old(buf).wf(),
{
    buf.cursor = clamp(buf, buf.cursor.row, buf.cursor.col.saturating_add(1));
}

pub fn move_up(buf: &mut Buffer)
    ensures
        final(buf)@ == old(buf)@.move_up(),
        final(buf).wf() == old(buf).wf(),
{
    buf.cursor = clamp(buf, buf.cursor.row.saturating_sub(1), buf.cursor.col);
}

pub fn move_down(buf: &mut Buffer)
    ensures
        final(buf)@ == old(buf)@.rows_down(1),
        final(buf).wf() == old(buf).wf(),
{
    scroll_down(buf, 1);
}

/// Moves the cursor `rows` rows down.
pub fn scroll_down(buf: &mut Buffer, rows: usize)
    ensures
        final(buf)@ == old(buf)@.rows_down(rows),
        final(buf).wf() == old(buf).wf(),
{
    let last = buf.line_count() - 1;
    let row = buf.cursor.row.saturating_add(rows);
    buf.cursor = clamp(
        buf,
        if row <= last {
            row
        } else {
            last
        },
        buf.cursor.col,
    );
}

/// Moves the cursor `rows` rows up.
pub fn scroll_up(buf: &mut Buffer, rows: usize)
    ensures
        final(buf)@ == old(buf)@.rows_up(rows),
        final(buf).wf() == old(buf).wf(),
{
    buf.cursor = clamp(buf, buf.cursor.row.saturating_sub(rows), buf.cursor.col);
}

pub fn beginning_of_line(buf: &mut Buffer)
    ensures
        final(buf)@ == old(buf)@.beginning_of_line(),
        final(buf).wf() == old(buf).wf(),
{
    buf.cursor.col = 0;
}

pub fn end_of_line(buf: &mut Buffer)
    ensures
        final(buf)@ == old(buf)@.end_of_line(),
        final(buf).wf() == old(buf).wf(),
{
    buf.cursor.col = buf.line_len(buf.cursor.row);
}

pub fn start_of_line(buf: &mut Buffer)
    ensures
        final(buf)@ == old(buf)@.start_of_line(),
        final(buf).wf() == old(buf).wf(),
{
    if buf.cursor.row >= buf.line_count() {
        return ;
    }
    let line = buf.line(buf.cursor.row);
    let len = line.len_chars();
    let ghost chars = line_chars(buf@.text, buf.cursor.row as nat);
    let mut i: usize = 0;
    while i < len && line.char(i).is_whitespace()
        invariant
            i <= len,
            len == chars.len(),
            chars == crate::rope::slice_chars(line),
            first_non_blank(chars, i as int) == first_non_blank(chars, 0),
        decreases len - i,
    {
        i = i + 1;
    }
    buf.cursor.col = i;
}

pub fn goto_first_line(buf: &mut Buffer)
    ensures
        final(buf)@ == old(buf)@.goto_first_line(),
        final(buf).wf() == old(buf).wf(),
{
    buf.cursor = clamp(buf, 0, buf.cursor.col);
}

pub fn goto_last_line(buf: &mut Buffer)
    ensures
        final(buf)@ == old(buf)@.goto_last_line(),
        final(buf).wf() == old(buf).wf(),
{
    let last = buf.line_count() - 1;
    buf.cursor = clamp(buf, last, buf.cursor.col);
}

pub fn new_line_above(buf: &mut Buffer)
    requires
        old(buf).wf(),
    ensures
        final(buf).wf(),
        final(buf)@ == old(buf)@.new_line_above(),
{
    let char_idx = buf.get_cursor_to_char();
    proof {
        reveal_strlit("\n");
        assert("\n"@ =~= seq!['\n']);
    }
    buf.insert_idx(char_idx, "\n");
    buf.cursor.col = 0;
}

pub fn new_line_below(buf: &mut Buffer)
    requires
        old(buf).wf(),
    ensures
        final(buf).wf(),
        final(buf)@ == old(buf)@.new_line_below(),
{
    let row = buf.cursor.row.saturating_add(1);
    let char_idx = buf.get_line_to_char(row);
    proof {
        reveal_strlit("\n");
        assert("\n"@ =~= seq!['\n']);
    }
    buf.insert_idx(char_idx, "\n");
    buf.cursor.row = row;
    buf.cursor.col = 0;
}

pub fn set_mode(buf: &mut Buffer, mode: Mode)
    requires
        old(buf).wf(),
    ensures
        final(buf).wf(),
        final(buf)@ == old(buf)@.set_mode(mode),
{
    buf.set_mode(mode);
}

pub fn insert_char(buf: &mut Buffer, ch: char)
    requires
        old(buf).wf(),
    ensures
        final(buf).wf(),
        final(buf)@ == old(buf)@.insert_str(seq![ch]),
{
    buf.insert_char(ch);
}

pub fn enter_visual_mode(buf: &mut Buffer)
    requires
        old(buf).wf(),
    ensures
        final(buf).wf(),
        final(buf)@ == old(buf)@.enter_visual_mode(),
{
    if buf.mode != Mode::Visual {
        buf.selection = Some(Selection { start: buf.cursor });
        buf.set_mode(Mode::Visual);
    }
}

pub fn exit_visual_mode(buf: &mut Buffer)
    requires
        old(buf).wf(),
    ensures
        final(buf).wf(),
        final(buf)@ == old(buf)@.exit_visual_mode(),
{
    buf.selection = None;
    buf.set_mode(Mode::Normal);
}

pub fn visual_select_other_end(buf: &mut Buffer)
    ensures
        final(buf)@ == old(buf)@.visual_select_other_end(),
        final(buf).wf() == old(buf).wf(),
{
    if buf.mode == Mode::Visual {
        match buf.selection {
            Some(selection) => {
                buf.selection = Some(Selection { start: buf.cursor });
                buf.cursor = selection.start;
            },
            None => {},
        }
    }
}

/// In visual mode, deletes the selected text and goes on in mode `next`.
pub fn consume_selection(buf: &mut Buffer, next: Mode)
    requires
        old(buf).wf(),
    ensures
        final(buf).wf(),
        final(buf)@ == old(buf)@.consume_selection(next),
{
    if buf.mode == Mode::Visual {
        buf.delete_selection();
        buf.set_mode(next);
    }
}

/// Deletes the span of `range` from the cursor's line.
fn delete_span(buf: &mut Buffer, range: Range)
    requires
        old(buf).wf(),
    ensures
        final(buf).wf(),
        final(buf)@ == old(buf)@.delete_span(range),
{
    let row = buf.cursor.row;
    let line_start = buf.get_line_to_char(row);
    let line_end = buf.get_line_to_char(row.saturating_add(1));
    proof {
        lemma_line_start_bounds(buf@.text, row as nat);
        if row == usize::MAX {
            assert(sat_add(row, 1) == row);
        }
    }
    let line_len = line_end - line_start;
    let start = range.from();
    let end = range.to();
    let del_start = line_start + if start <= line_len {
        start
    } else {
        line_len
    };
    let del_end = line_start + if end <= line_len {
        end
    } else {
        line_len
    };
    buf.range = None;
    buf.remove_line(del_start, del_end);
    buf.cursor.col = start;
}

pub fn delete_range(buf: &mut Buffer)
    requires
        old(buf).wf(),
    ensures
        final(buf).wf(),
        final(buf)@ == old(buf)@.delete_range(),
{
    match buf.range {
        Some(range) => {
            delete_span(buf, range);
        },
        None => {
            let row = buf.cursor.row;
            let line_start = buf.get_line_to_char(row);
            let line_end = buf.get_line_to_char(row.saturating_add(1));
            proof {
                lemma_line_start_bounds(buf@.text, row as nat);
                if row == usize::MAX {
                    assert(sat_add(row, 1) == row);
                }
            }
            let line_len = line_end - line_start;
            if line_len > 0 {
                let col = if buf.cursor.col <= line_len - 1 {
                    buf.cursor.col
                } else {
                    line_len - 1
                };
                buf.remove_line(line_start + col, line_start + col + 1);
            }
        },
    }
}

pub fn change_range(buf: &mut Buffer)
    requires
        old(buf).wf(),
    ensures
        final(buf).wf(),
        final(buf)@ == old(buf)@.change_range(),
{
    match buf.range {
        Some(range) => {
            delete_span(buf, range);
            buf.set_mode(Mode::Insert);
        },
        None => {},
    }
}

} // verus!
