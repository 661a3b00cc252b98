//! The text buffer: the document, the cursor, the selection, the mode and the
//! history of edits.
//!
//! Positions are character offsets into the text or pairs of row and column.
//! Every operation is stated over [`BufferView`], the mathematical value of a
//! buffer.

use crate::lines::{
    cut, lemma_line_count_bounds, lemma_line_len_bounds, lemma_line_start_bounds,
    lemma_line_start_saturates, lemma_newline_count_bounds, line_chars, line_count, line_len,
    line_start, newline_count, splice, tail_len,
};
use crate::movement::selection::Range;
use crate::rope::{rope_chars, rope_remove, rope_substring, rope_to_string, slice_chars};
use crate::strings::lowercase_of;
use crate::undotree::{
    apply_edits, edit_views, lemma_single_edit, revert_edits, Edit, EditView, TreeView,
    UndoEntry, UndoTree,
};
use ropey::Rope;
use ropey::RopeSlice;
use vstd::prelude::*;

verus! {

/// The identity of a buffer.
#[derive(Debug, Clone, Copy, PartialEq, Eq, Structural, PartialOrd, Ord, Hash)]
pub struct BufferId(pub u64);

/// A place in the text: a row and a column in it.
#[derive(Debug, Clone, Copy, PartialEq, Eq, Structural, PartialOrd, Ord)]
pub struct Cursor {
    pub row: usize,
    pub col: usize,
}

impl Cursor {
    pub fn new() -> (cursor: Cursor)
        ensures
            cursor == (Cursor { row: 0, col: 0 }),
    {
        Cursor { row: 0, col: 0 }
    }

    pub fn start() -> (cursor: Cursor)
        ensures
            cursor == (Cursor { row: 0, col: 0 }),
    {
        Cursor { row: 0, col: 0 }
    }

    /// Whether `self` comes before `other` or at it: by row, then by column.
    pub open spec fn at_or_before(self, other: Cursor) -> bool {
        self.row < other.row || (self.row == other.row && self.col <= other.col)
    }
}

/// The fixed end of a selection. The moving end is the cursor.
#[derive(Debug, Clone, Copy, PartialEq, Eq, Structural)]
pub struct Selection {
    pub start: Cursor,
}

impl Selection {
    /// The two ends in order, the earlier one first.
    pub open spec fn spec_normalized(self, end: Cursor) -> (Cursor, Cursor) {
        if self.start.at_or_before(end) {
            (self.start, end)
        } else {
            (end, self.start)
        }
    }

    pub fn normalized(&self, end: &Cursor) -> (ends: (Cursor, Cursor))
        ensures
            ends == self.spec_normalized(*end),
            ends.0.at_or_before(ends.1),
    {
        if self.start.row < end.row || self.start.row == end.row && self.start.col <= end.col {
            (self.start, *end)
        } else {
            (*end, self.start)
        }
    }
}

/// The editing mode of a buffer.
#[derive(Copy, Clone, Debug, Eq, PartialEq, Structural, Hash)]
pub enum Mode {
    Normal,
    Insert,
    Visual,
    Command,
    Minibuffer,
}

/// The name that was given where no mode has it.
#[derive(Debug)]
pub struct InvalidMode {
    pub name: String,
}

impl InvalidMode {
    /// The words of the error.
    pub fn message(&self) -> (text: String)
        ensures
            text@ == "Invalid mode: "@ + self.name@,
    {
        String::from_str("Invalid mode: ").concat(self.name.as_str())
    }
}

impl Mode {
    /// The mode that a lower-case name stands for. The picker's mode has no
    /// name.
    pub open spec fn of_lowercase(name: Seq<char>) -> Option<Mode> {
        if name == "normal"@ {
            Some(Mode::Normal)
        } else if name == "insert"@ {
            Some(Mode::Insert)
        } else if name == "visual"@ {
            Some(Mode::Visual)
        } else if name == "command"@ {
            Some(Mode::Command)
        } else {
            None
        }
    }

    /// The mode with the given name in lower case.
    pub fn from_lowercase(name: &str) -> (mode: Option<Mode>)
        ensures
            mode == Mode::of_lowercase(name@),
    {
        let name = String::from_str(name);
        if name == String::from_str("normal") {
            Some(Mode::Normal)
        } else if name == String::from_str("insert") {
            Some(Mode::Insert)
        } else if name == String::from_str("visual") {
            Some(Mode::Visual)
        } else if name == String::from_str("command") {
            Some(Mode::Command)
        } else {
            None
        }
    }

    /// The mode that `s` names, whatever the case of its letters.
    pub fn from_str(s: &str) -> (mode: Result<Mode, InvalidMode>)
        ensures
            match mode {
                Ok(m) => Mode::of_lowercase(lowercase_of(s@)) == Some(m),
                Err(e) => Mode::of_lowercase(lowercase_of(s@)) is None && e.name@ == s@,
            },
    {
        let lower = s.to_lowercase();
        match Mode::from_lowercase(lower.as_str()) {
            Some(m) => Ok(m),
            None => Err(InvalidMode { name: String::from_str(s) }),
        }
    }
}

/// A text with its cursor and its history.
#[derive(Debug, Clone)]
pub struct Buffer {
    pub id: BufferId,
    pub(crate) lines: Rope,
    pub name: String,
    pub cursor: Cursor,
    pub scroll_offset: usize,
    pub scroll_left: usize,
    pub mode: Mode,
    pub file_path: Option<String>,
    pub selection: Option<Selection>,
    pub range: Option<Range>,
    pub(crate) undo_tree: UndoTree,
    pub(crate) undo_recording: bool,
    pub(crate) modified: bool,
}

/// The value of a [`Buffer`]: its text as a sequence of characters, its
/// history as a tree, and the rest as it is.
#[verifier::ext_equal]
pub struct BufferView {
    pub id: BufferId,
    pub name: Seq<char>,
    pub text: Seq<char>,
    pub cursor: Cursor,
    pub scroll_offset: usize,
    pub scroll_left: usize,
    pub mode: Mode,
    pub file_path: Option<Seq<char>>,
    pub selection: Option<Selection>,
    pub range: Option<Range>,
    pub history: TreeView,
    pub recording: bool,
    pub modified: bool,
}

/// The sum of two sizes, or the largest size where it does not fit.
pub open spec fn sat_add(a: usize, b: usize) -> usize {
    if a + b > usize::MAX {
        usize::MAX
    } else {
        (a + b) as usize
    }
}

/// The difference of two sizes, or 0 where it would be negative.
pub open spec fn sat_sub(a: usize, b: usize) -> usize {
    if a < b {
        0
    } else {
        (a - b) as usize
    }
}

/// The first visible row after the view follows a cursor on `row`: the
/// cursor keeps `margin` rows from the top and from the bottom of a view of
/// `height` rows.
pub open spec fn scroll_rows(offset: usize, row: usize, height: usize, margin: usize) -> usize {
    let up = if row < sat_add(offset, margin) {
        sat_sub(row, margin)
    } else {
        offset
    };
    if row >= sat_sub(sat_add(up, height), margin) {
        sat_sub(sat_add(sat_add(row, margin), 1), height)
    } else {
        up
    }
}

/// The first visible column after the view follows a cursor on `col`.
pub open spec fn scroll_cols(left: usize, col: usize, width: usize, margin: usize) -> usize {
    if col < sat_add(left, margin) {
        sat_sub(col, margin)
    } else if col >= sat_sub(sat_add(left, width), margin) {
        sat_sub(col, sat_sub(width, margin))
    } else {
        left
    }
}

/// The first row and column of a view of `width` columns and `height` rows,
/// the last of which is taken by the status line, after it moved from `top`
/// and `left` just far enough to show the cursor.
pub open spec fn visible_origin(cursor: Cursor, top: usize, left: usize, width: u16, height: u16) -> (
    usize,
    usize,
) {
    let h = sat_sub(height as usize, 1);
    let up = if cursor.row < top {
        cursor.row
    } else {
        top
    };
    let row = if cursor.row >= sat_add(up, h) {
        sat_sub(sat_add(cursor.row, 1), h)
    } else {
        up
    };
    let back = if cursor.col < left {
        cursor.col
    } else {
        left
    };
    let col = if cursor.col >= sat_add(back, width as usize) {
        sat_sub(sat_add(cursor.col, 1), width as usize)
    } else {
        back
    };
    (row, col)
}

/// The first visible row that puts `row` in the middle of a view of `height`
/// rows, without scrolling past the last of `lines` lines.
pub open spec fn centered_offset(row: usize, lines: usize, height: usize) -> usize {
    let row = if row <= sat_sub(lines, 1) {
        row
    } else {
        sat_sub(lines, 1)
    };
    let half = height / 2;
    let offset = if row >= half {
        (row - half) as usize
    } else {
        0
    };
    if sat_add(offset, height) > lines {
        sat_sub(lines, height)
    } else {
        offset
    }
}

impl BufferView {
    /// A buffer as it is made: the cursor at the start, normal mode, nothing
    /// selected, an empty history that records.
    pub open spec fn fresh(
        id: BufferId,
        name: Seq<char>,
        text: Seq<char>,
        file_path: Option<Seq<char>>,
    ) -> BufferView {
        BufferView {
            id,
            name,
            text,
            cursor: Cursor { row: 0, col: 0 },
            scroll_offset: 0,
            scroll_left: 0,
            mode: Mode::Normal,
            file_path,
            selection: None,
            range: None,
            history: TreeView::empty(),
            recording: true,
            modified: false,
        }
    }

    /// The history after `edit`, which is recorded unless recording is
    /// suspended.
    pub open spec fn recorded(self, edit: EditView) -> TreeView {
        if self.recording {
            self.history.record(edit)
        } else {
            self.history
        }
    }

    /// `s` spliced in at offset `at`, and the insertion recorded.
    pub open spec fn insert(self, at: nat, s: Seq<char>) -> BufferView {
        BufferView {
            text: splice(self.text, at as int, s),
            history: self.recorded(EditView::Insert { at, text: s }),
            modified: true,
            ..self
        }
    }

    /// The characters from `start` up to `end` taken out, and the deletion
    /// recorded together with the deleted text. An empty or inverted range
    /// changes nothing.
    pub open spec fn remove(self, start: nat, end: nat) -> BufferView {
        if start < end <= self.text.len() {
            BufferView {
                text: cut(self.text, start as int, end as int),
                history: self.recorded(
                    EditView::Delete { at: start, text: self.text.subrange(start as int, end as int) },
                ),
                modified: true,
                ..self
            }
        } else {
            self
        }
    }

    /// The cursor lies inside the text.
    pub open spec fn cursor_valid(self) -> bool {
        self.cursor.row < line_count(self.text) && self.cursor.col <= line_len(
            self.text,
            self.cursor.row as nat,
        )
    }

    /// The column at which text is inserted: that of the cursor, but not
    /// past the end of its line.
    pub open spec fn insert_col(self) -> nat {
        let len = line_len(self.text, self.cursor.row as nat);
        if self.cursor.col <= len {
            self.cursor.col as nat
        } else {
            len
        }
    }

    /// The offset of a row and column.
    pub open spec fn offset_of(self, at: Cursor) -> int {
        line_start(self.text, at.row as nat) + at.col
    }

    /// `s` inserted at the cursor. With line feeds in `s` the cursor goes down
    /// by their number and to the column after the last of them; without, it
    /// goes right by the length of `s`. On a row that the text does not have
    /// nothing happens.
    pub open spec fn insert_str(self, s: Seq<char>) -> BufferView {
        if self.cursor.row >= line_count(self.text) {
            self
        } else {
            let col = self.insert_col();
            let at = (line_start(self.text, self.cursor.row as nat) + col) as nat;
            let cursor = if newline_count(s) > 0 {
                Cursor {
                    row: (self.cursor.row + newline_count(s)) as usize,
                    col: tail_len(s) as usize,
                }
            } else {
                Cursor { row: self.cursor.row, col: (col + s.len()) as usize }
            };
            BufferView { cursor, ..self.insert(at, s) }
        }
    }

    /// The character before the cursor deleted. At the start of a line that
    /// is the line break before it, and the cursor goes to the end of the
    /// line above. At the start of the text, and for a cursor outside the
    /// text, nothing happens.
    pub open spec fn delete_char_before_cursor(self) -> BufferView {
        let row = self.cursor.row;
        let col = self.cursor.col;
        if !self.cursor_valid() || (row == 0 && col == 0) {
            self
        } else if col > 0 {
            let at = (line_start(self.text, row as nat) + col - 1) as nat;
            BufferView { cursor: Cursor { row, col: (col - 1) as usize }, ..self.remove(at, at + 1) }
        } else {
            let at = line_start(self.text, row as nat);
            if at > 0 {
                BufferView {
                    cursor: Cursor {
                        row: (row - 1) as usize,
                        col: line_len(self.text, (row - 1) as nat) as usize,
                    },
                    ..self.remove((at - 1) as nat, at as nat)
                }
            } else {
                self
            }
        }
    }

    /// The selected text deleted: the span between the anchor and the cursor,
    /// taken in order. The cursor goes to its start and the selection ends.
    /// Without a selection nothing happens.
    pub open spec fn delete_selection(self) -> BufferView {
        match self.selection {
            None => self,
            Some(selection) => {
                let (first, last) = selection.spec_normalized(self.cursor);
                let from = self.offset_of(first);
                let to = self.offset_of(last);
                let deleted = if from <= to <= self.text.len() {
                    self.remove(from as nat, to as nat)
                } else {
                    self
                };
                BufferView { cursor: first, selection: None, ..deleted }
            },
        }
    }

    /// The mode changed. The edits made in insert mode form one undo unit:
    /// it is begun on entering insert mode and committed on leaving it.
    pub open spec fn set_mode(self, mode: Mode) -> BufferView {
        let history = if self.mode != Mode::Insert && mode == Mode::Insert {
            self.history.commit_group().begin_group()
        } else if self.mode == Mode::Insert && mode != Mode::Insert {
            self.history.commit_group()
        } else {
            self.history
        };
        BufferView { mode, history, ..self }
    }

    /// One step back in the history: the unit that is left is reverted on the
    /// text, without being recorded.
    pub open spec fn undo(self) -> BufferView {
        BufferView {
            text: match self.history.undo_entry() {
                Some(entry) => entry.revert(self.text),
                None => self.text,
            },
            history: self.history.undo(),
            modified: self.modified || self.history.undo_entry() is Some,
            ..self
        }
    }

    /// One step forward in the history: the unit of the active child is made
    /// again on the text, without being recorded.
    pub open spec fn redo(self) -> BufferView {
        BufferView {
            text: match self.history.redo_entry() {
                Some(entry) => entry.apply(self.text),
                None => self.text,
            },
            history: self.history.redo(),
            modified: self.modified || self.history.redo_entry() is Some,
            ..self
        }
    }

    /// The view scrolled so that the cursor is visible with its margins.
    pub open spec fn update_scroll(
        self,
        screen_height: usize,
        vertical_scrolloff: usize,
        screen_width: usize,
        horizontal_scrolloff: usize,
    ) -> BufferView {
        BufferView {
            scroll_offset: scroll_rows(
                self.scroll_offset,
                self.cursor.row,
                screen_height,
                vertical_scrolloff,
            ),
            scroll_left: scroll_cols(
                self.scroll_left,
                self.cursor.col,
                screen_width,
                horizontal_scrolloff,
            ),
            ..self
        }
    }

    /// The view scrolled so that the cursor's row is in its middle.
    pub open spec fn center_cursor(self, screen_height: usize) -> BufferView {
        BufferView {
            scroll_offset: centered_offset(
                self.cursor.row,
                line_count(self.text) as usize,
                screen_height,
            ),
            ..self
        }
    }
}

/// The view of a path that may be missing.
pub open spec fn path_view(path: Option<String>) -> Option<Seq<char>> {
    match path {
        Some(p) => Some(p@),
        None => None,
    }
}

impl View for Buffer {
    type V = BufferView;

    open(crate) spec fn view(&self) -> BufferView {
        BufferView {
            id: self.id,
            name: self.name@,
            text: rope_chars(self.lines),
            cursor: self.cursor,
            scroll_offset: self.scroll_offset,
            scroll_left: self.scroll_left,
            mode: self.mode,
            file_path: path_view(self.file_path),
            selection: self.selection,
            range: self.range,
            history: self.undo_tree@,
            recording: self.undo_recording,
            modified: self.modified,
        }
    }
}

impl Buffer {
    /// The history of the buffer is a tree.
    pub open(crate) spec fn wf(&self) -> bool {
        self.undo_tree.wf()
    }

    pub fn new(id: BufferId, name: &str, file_path: Option<String>) -> (buffer: Buffer)
        ensures
            buffer.wf(),
            buffer@ == BufferView::fresh(id, name@, Seq::empty(), path_view(file_path)),
    {
        Buffer {
            id,
            name: String::from_str(name),
            lines: Rope::new(),
            cursor: Cursor::new(),
            mode: Mode::Normal,
            file_path,
            scroll_offset: 0,
            scroll_left: 0,
            selection: None,
            range: None,
            undo_tree: UndoTree::new(),
            undo_recording: true,
            modified: false,
        }
    }

    pub fn from(id: BufferId, name: &str, text: &str, file_path: Option<String>) -> (buffer: Buffer)
        ensures
            buffer.wf(),
            buffer@ == BufferView::fresh(id, name@, text@, path_view(file_path)),
    {
        Buffer {
            id,
            name: String::from_str(name),
            lines: Rope::from_str(text),
            cursor: Cursor::new(),
            mode: Mode::Normal,
            file_path,
            scroll_offset: 0,
            scroll_left: 0,
            selection: None,
            range: None,
            undo_tree: UndoTree::new(),
            undo_recording: true,
            modified: false,
        }
    }

    /// A copy of the buffer.
    pub fn duplicate(&self) -> (copy: Buffer)
        ensures
            copy@ == self@,
            copy.wf() == self.wf(),
    {
        Buffer {
            id: self.id,
            lines: self.lines.clone(),
            name: self.name.clone(),
            cursor: self.cursor,
            scroll_offset: self.scroll_offset,
            scroll_left: self.scroll_left,
            mode: self.mode,
            file_path: match &self.file_path {
                Some(p) => Some(p.clone()),
                None => None,
            },
            selection: self.selection,
            range: self.range,
            undo_tree: self.undo_tree.duplicate(),
            undo_recording: self.undo_recording,
            modified: self.modified,
        }
    }

    /// Scrolls a view whose first row and column are `top` and `left` so
    /// that the cursor is inside it.
    pub fn ensure_cursor_on_screen(&self, top: usize, left: usize, width: u16, height: u16) -> (view:
        (usize, usize))
        ensures
            view == visible_origin(self@.cursor, top, left, width, height),
    {
        let h = (height as usize).saturating_sub(1);
        let mut top = top;
        let mut left = left;
        if self.cursor.row < top {
            top = self.cursor.row;
        }
        if self.cursor.row >= top.saturating_add(h) {
            top = self.cursor.row.saturating_add(1).saturating_sub(h);
        }
        if self.cursor.col < left {
            left = self.cursor.col;
        }
        if self.cursor.col >= left.saturating_add(width as usize) {
            left = self.cursor.col.saturating_add(1).saturating_sub(width as usize);
        }
        (top, left)
    }

    pub fn to_string(&self) -> (text: String)
        ensures
            text@ == self@.text,
    {
        rope_to_string(&self.lines)
    }

    /// The number of characters in the text.
    pub fn len_chars(&self) -> (n: usize)
        ensures
            n == self@.text.len(),
    {
        self.lines.len_chars()
    }

    pub fn line_count(&self) -> (n: usize)
        ensures
            n == line_count(self@.text),
            n >= 1,
    {
        proof {
            lemma_line_count_bounds(self@.text);
        }
        self.lines.len_lines()
    }

    /// The line `row`, with its line break.
    pub fn line(&self, row: usize) -> (line: RopeSlice<'_>)
        requires
            row < line_count(self@.text),
        ensures
            slice_chars(line) == line_chars(self@.text, row as nat),
    {
        self.lines.line(row)
    }

    /// The offset at which line `row` starts; the length of the text for a
    /// row past the last line.
    pub fn get_line_to_char(&self, row: usize) -> (idx: usize)
        ensures
            idx == line_start(self@.text, row as nat),
            idx <= self@.text.len(),
    {
        proof {
            lemma_line_start_bounds(self@.text, row as nat);
        }
        if row <= self.lines.len_lines() {
            self.lines.line_to_char(row)
        } else {
            proof {
                lemma_line_start_saturates(self@.text, row as nat);
            }
            self.lines.len_chars()
        }
    }

    /// The offset at which the cursor's line starts.
    pub fn get_cursor_to_char(&self) -> (idx: usize)
        ensures
            idx == line_start(self@.text, self@.cursor.row as nat),
            idx <= self@.text.len(),
    {
        self.get_line_to_char(self.cursor.row)
    }

    /// The length of line `row` without its line feed; 0 for a row that the
    /// text does not have.
    pub fn line_len(&self, row: usize) -> (len: usize)
        ensures
            len == line_len(self@.text, row as nat),
    {
        if row >= self.lines.len_lines() {
            return 0;
        }
        let line = self.lines.line(row);
        let len_chars = line.len_chars();
        if len_chars == 0 {
            return 0;
        }
        let last_char = line.char(len_chars - 1);
        if last_char == '\n' {
            if len_chars > 1 && line.char(len_chars - 2) == '\r' {
                len_chars - 2
            } else {
                len_chars - 1
            }
        } else {
            len_chars
        }
    }

    /// Splices `text` in at offset `at` and records the insertion.
    fn insert(&mut self, at: usize, text: &str)
        requires
            old(self).wf(),
            at <= old(self)@.text.len(),
        ensures
            final(self).wf(),
            final(self)@ == old(self)@.insert(at as nat, text@),
    {
        if self.undo_recording {
            self.undo_tree.record(Edit::Insert { at, text: String::from_str(text) });
        }
        self.lines.insert(at, text);
        self.modified = true;
    }

    /// Takes the characters from `start` up to `end` out and records the
    /// deletion.
    fn remove(&mut self, start: usize, end: usize)
        requires
            old(self).wf(),
            start < end ==> end <= old(self)@.text.len(),
        ensures
            final(self).wf(),
            final(self)@ == old(self)@.remove(start as nat, end as nat),
    {
        if start >= end {
            return ;
        }
        let deleted = rope_substring(&self.lines, start, end);
        if self.undo_recording {
            self.undo_tree.record(Edit::Delete { at: start, text: deleted });
        }
        rope_remove(&mut self.lines, start, end);
        self.modified = true;
    }

    /// Inserts `text` at the offset `idx`, which lies inside the text.
    pub fn insert_idx(&mut self, idx: usize, text: &str)
        requires
            old(self).wf(),
            idx <= old(self)@.text.len(),
        ensures
            final(self).wf(),
            final(self)@ == old(self)@.insert(idx as nat, text@),
    {
        self.insert(idx, text);
    }

    /// Deletes the characters from `start` up to `end`. An empty or inverted
    /// range deletes nothing.
    pub fn remove_line(&mut self, start: usize, end: usize)
        requires
            old(self).wf(),
            start < end ==> end <= old(self)@.text.len(),
        ensures
            final(self).wf(),
            final(self)@ == old(self)@.remove(start as nat, end as nat),
    {
        self.remove(start, end)
    }

    pub fn insert_char(&mut self, c: char)
        requires
            old(self).wf(),
        ensures
            final(self).wf(),
            final(self)@ == old(self)@.insert_str(seq![c]),
    {
        let mut s = String::new();
        s.push(c);
        assert(s@ =~= seq![c]);
        self.insert_str(s.as_str());
    }

    /// Inserts `s` at the cursor and moves the cursor behind it.
    pub fn insert_str(&mut self, s: &str)
        requires
            old(self).wf(),
        ensures
            final(self).wf(),
            final(self)@ == old(self)@.insert_str(s@),
    {
        broadcast use vstd::string::group_string_axioms;

        let row = self.cursor.row;
        let col = self.cursor.col;
        if row >= self.lines.len_lines() {
            return ;
        }
        let line_len = self.line_len(row);
        let insert_col = if col <= line_len {
            col
        } else {
            line_len
        };
        proof {
            lemma_line_len_bounds(self@.text, row as nat);
            lemma_line_count_bounds(self@.text);
            lemma_newline_count_bounds(s@);
        }
        let old_len = self.lines.len_chars();
        let char_idx = self.lines.line_to_char(row) + insert_col;
        self.insert(char_idx, s);
        let new_len = self.lines.len_chars();
        assert(new_len == old_len + s@.len());

        let mut newlines: usize = 0;
        let mut last_line_len: usize = 0;
        for ch in it: s.chars()
            invariant
                it.seq() == s@,
                new_len == old_len + s@.len(),
                newlines == newline_count(s@.take(it.index() as int)),
                last_line_len == tail_len(s@.take(it.index() as int)),
        {
            proof {
                assert(s@.take(it.index() + 1).drop_last() =~= s@.take(it.index() as int));
                lemma_newline_count_bounds(s@.take(it.index() as int));
            }
            if ch == '\n' {
                newlines = newlines + 1;
                last_line_len = 0;
            } else {
                last_line_len = last_line_len + 1;
            }
        }
        assert(s@.take(s@.len() as int) =~= s@);

        if newlines > 0 {
            self.cursor.row = row + newlines;
            self.cursor.col = last_line_len;
        } else {
            self.cursor.col = insert_col + last_line_len;
        }
    }

    pub fn delete_char_before_cursor(&mut self)
        requires
            old(self).wf(),
        ensures
            final(self).wf(),
            final(self)@ == old(self)@.delete_char_before_cursor(),
    {
        let row = self.cursor.row;
        let col = self.cursor.col;
        if row == 0 && col == 0 {
            return ;
        }
        if row >= self.lines.len_lines() || col > self.line_len(row) {
            return ;
        }
        proof {
            lemma_line_len_bounds(self@.text, row as nat);
        }
        let len = self.lines.len_chars();
        if col > 0 {
            let char_idx = self.lines.line_to_char(row) + col - 1;
            self.remove(char_idx, char_idx + 1);
            self.cursor.col = col - 1;
        } else {
            let prev_line_len = self.line_len(row - 1);
            let char_idx = self.lines.line_to_char(row);
            if char_idx > 0 {
                self.remove(char_idx - 1, char_idx);
                self.cursor.row = row - 1;
                self.cursor.col = prev_line_len;
            }
        }
    }

    pub fn update_scroll(
        &mut self,
        screen_height: usize,
        vertical_scrolloff: usize,
        screen_width: usize,
        horizontal_scrolloff: usize,
    )
        ensures
            final(self).wf() == old(self).wf(),
            final(self)@ == old(self)@.update_scroll(
                screen_height,
                vertical_scrolloff,
                screen_width,
                horizontal_scrolloff,
            ),
    {
        let row = self.cursor.row;
        let col = self.cursor.col;

        if row < self.scroll_offset.saturating_add(vertical_scrolloff) {
            self.scroll_offset = row.saturating_sub(vertical_scrolloff);
        }
        if row >= self.scroll_offset.saturating_add(screen_height).saturating_sub(
            vertical_scrolloff,
        ) {
            self.scroll_offset = row.saturating_add(vertical_scrolloff).saturating_add(
                1,
            ).saturating_sub(screen_height);
        }
        if col < self.scroll_left.saturating_add(horizontal_scrolloff) {
            self.scroll_left = col.saturating_sub(horizontal_scrolloff);
        } else if col >= self.scroll_left.saturating_add(screen_width).saturating_sub(
            horizontal_scrolloff,
        ) {
            self.scroll_left = col.saturating_sub(
                screen_width.saturating_sub(horizontal_scrolloff),
            );
        }
    }

    /// Deletes the selected text, if there is a selection, and hands out the
    /// place where the cursor then stands.
    pub fn delete_selection(&mut self) -> (cursor: Option<Cursor>)
        requires
            old(self).wf(),
        ensures
            final(self).wf(),
            final(self)@ == old(self)@.delete_selection(),
            cursor == match old(self)@.selection {
                Some(selection) => Some(selection.spec_normalized(old(self)@.cursor).0),
                None => None,
            },
    {
        match self.selection {
            Some(selection) => {
                let (start, end) = selection.normalized(&self.cursor);
                let len = self.lines.len_chars();
                let start_char = self.get_line_to_char(start.row).checked_add(start.col);
                let end_char = self.get_line_to_char(end.row).checked_add(end.col);
                match (start_char, end_char) {
                    (Some(from), Some(to)) => {
                        if from <= to && to <= len {
                            self.remove(from, to);
                        }
                    },
                    _ => {},
                }
                self.cursor = start;
                self.selection = None;
                Some(start)
            },
            None => None,
        }
    }

    pub fn center_cursor(&mut self, screen_height: usize)
        ensures
            final(self).wf() == old(self).wf(),
            final(self)@ == old(self)@.center_cursor(screen_height),
    {
        let lines = self.lines.len_lines();
        let last = lines.saturating_sub(1);
        let cursor_row = if self.cursor.row <= last {
            self.cursor.row
        } else {
            last
        };
        let half_screen = screen_height / 2;
        if cursor_row >= half_screen {
            self.scroll_offset = cursor_row - half_screen;
        } else {
            self.scroll_offset = 0;
        }
        if self.scroll_offset.saturating_add(screen_height) > lines {
            self.scroll_offset = lines.saturating_sub(screen_height);
        }
    }

    /// Changes the mode. Entering insert mode begins an undo unit, leaving it
    /// commits the unit.
    pub fn set_mode(&mut self, mode: Mode)
        requires
            old(self).wf(),
        ensures
            final(self).wf(),
            final(self)@ == old(self)@.set_mode(mode),
    {
        if self.mode != Mode::Insert && mode == Mode::Insert {
            self.undo_tree.commit_group();
            self.undo_tree.begin_group();
        } else if self.mode == Mode::Insert && mode != Mode::Insert {
            self.undo_tree.commit_group();
        }
        self.mode = mode;
    }

    /// Whether the text changed since the buffer was made or last saved.
    pub fn is_modified(&self) -> (modified: bool)
        ensures
            modified == self@.modified,
    {
        self.modified
    }

    /// Notes that the text is saved as it is.
    pub fn mark_saved(&mut self)
        ensures
            final(self)@ == (BufferView { modified: false, ..old(self)@ }),
            final(self).wf() == old(self).wf(),
    {
        self.modified = false;
    }

    /// Makes `edit` on the text, without recording it.
    fn apply_edit(&mut self, edit: &Edit)
        ensures
            final(self)@ == (BufferView { text: edit@.apply(old(self)@.text), ..old(self)@ }),
            final(self).wf() == old(self).wf(),
    {
        let len = self.lines.len_chars();
        match edit {
            Edit::Insert { at, text } => {
                if *at <= len {
                    self.lines.insert(*at, text.as_str());
                }
            },
            Edit::Delete { at, text } => {
                let n = text.as_str().unicode_len();
                if n <= len && *at <= len - n {
                    rope_remove(&mut self.lines, *at, *at + n);
                }
            },
        }
    }

    /// Reverts `edit` on the text, without recording it.
    fn apply_inverse_edit(&mut self, edit: &Edit)
        ensures
            final(self)@ == (BufferView { text: edit@.revert(old(self)@.text), ..old(self)@ }),
            final(self).wf() == old(self).wf(),
    {
        let len = self.lines.len_chars();
        match edit {
            Edit::Insert { at, text } => {
                let n = text.as_str().unicode_len();
                if n <= len && *at <= len - n {
                    rope_remove(&mut self.lines, *at, *at + n);
                }
            },
            Edit::Delete { at, text } => {
                if *at <= len {
                    self.lines.insert(*at, text.as_str());
                }
            },
        }
    }

    /// Makes the edits of a unit on the text, in order.
    fn apply_entry(&mut self, entry: &UndoEntry)
        ensures
            final(self)@ == (BufferView { text: entry@.apply(old(self)@.text), ..old(self)@ }),
            final(self).wf() == old(self).wf(),
    {
        match entry {
            UndoEntry::Single(edit) => {
                proof {
                    lemma_single_edit(edit@, self@.text);
                }
                self.apply_edit(edit);
            },
            UndoEntry::Group(edits) => {
                let ghost all = edit_views(edits@);
                let ghost start = self@.text;
                let mut i: usize = 0;
                assert(all.subrange(0, all.len() as int) =~= all);
                while i < edits.len()
                    invariant
                        i <= edits.len(),
                        all == edit_views(edits@),
                        self@ == (BufferView { text: self@.text, ..old(self)@ }),
                        self.wf() == old(self).wf(),
                        apply_edits(all.subrange(i as int, all.len() as int), self@.text)
                            == apply_edits(all, start),
                    decreases edits.len() - i,
                {
                    assert(all.subrange(i as int, all.len() as int).drop_first() =~= all.subrange(
                        i + 1,
                        all.len() as int,
                    ));
                    self.apply_edit(&edits[i]);
                    i = i + 1;
                }
            },
        }
    }

    /// Reverts the edits of a unit on the text, the last one first.
    fn apply_inverse_entry(&mut self, entry: &UndoEntry)
        ensures
            final(self)@ == (BufferView { text: entry@.revert(old(self)@.text), ..old(self)@ }),
            final(self).wf() == old(self).wf(),
    {
        match entry {
            UndoEntry::Single(edit) => {
                proof {
                    lemma_single_edit(edit@, self@.text);
                }
                self.apply_inverse_edit(edit);
            },
            UndoEntry::Group(edits) => {
                let ghost all = edit_views(edits@);
                let ghost start = self@.text;
                let mut i: usize = edits.len();
                assert(all.subrange(all.len() as int, all.len() as int) =~= Seq::<
                    EditView,
                >::empty());
                while i > 0
                    invariant
                        i <= edits.len(),
                        all == edit_views(edits@),
                        self@ == (BufferView { text: self@.text, ..old(self)@ }),
                        self.wf() == old(self).wf(),
                        self@.text == revert_edits(all.subrange(i as int, all.len() as int), start),
                    decreases i,
                {
                    i = i - 1;
                    assert(all.subrange(i as int, all.len() as int).drop_first() =~= all.subrange(
                        i + 1,
                        all.len() as int,
                    ));
                    self.apply_inverse_edit(&edits[i]);
                }
                assert(all.subrange(0, all.len() as int) =~= all);
            },
        }
    }

    /// Takes back the last undo unit. At the root of the history nothing
    /// happens.
    pub fn undo(&mut self)
        requires
            old(self).wf(),
        ensures
            final(self).wf(),
            final(self)@ == old(self)@.undo(),
    {
        match self.undo_tree.undo() {
            Some(entry) => {
                let recording = self.undo_recording;
                self.undo_recording = false;
                self.apply_inverse_entry(&entry);
                self.undo_recording = recording;
                self.modified = true;
            },
            None => {},
        }
    }

    /// Makes the undo unit of the active branch again. At a leaf of the
    /// history nothing happens.
    pub fn redo(&mut self)
        requires
            old(self).wf(),
        ensures
            final(self).wf(),
            final(self)@ == old(self)@.redo(),
    {
        match self.undo_tree.redo() {
            Some(entry) => {
                let recording = self.undo_recording;
                self.undo_recording = false;
                self.apply_entry(&entry);
                self.undo_recording = recording;
                self.modified = true;
            },
            None => {},
        }
    }
}

} // verus!
