use benihime::buffer::{Buffer, BufferId, Cursor, Mode};
use benihime::commands;
use benihime::movement::movement::WordMotionTarget;
use benihime::movement::movement_commands::{
    move_next_long_word_end, move_next_long_word_start, move_next_sub_word_end,
    move_next_sub_word_start, move_next_word_end, move_next_word_start,
    move_prev_long_word_end, move_prev_long_word_start, move_prev_sub_word_end,
    move_prev_sub_word_start, move_prev_word_end, move_prev_word_start, move_word_impl,
};
use benihime::movement::selection::Range;

fn buffer(text: &str, row: usize, col: usize) -> Buffer {
    let mut buf = Buffer::from(BufferId(1), "t", text, None);
    buf.cursor = Cursor { row, col };
    buf
}

#[test]
fn cursor_steps() {
    let mut buf = buffer("abc\nde", 0, 2);
    commands::move_right(&mut buf);
    assert_eq!(buf.cursor, Cursor { row: 0, col: 3 });
    commands::move_right(&mut buf);
    assert_eq!(buf.cursor, Cursor { row: 0, col: 3 });
    commands::move_down(&mut buf);
    assert_eq!(buf.cursor, Cursor { row: 1, col: 2 });
    commands::move_left(&mut buf);
    assert_eq!(buf.cursor, Cursor { row: 1, col: 1 });
    commands::move_up(&mut buf);
    assert_eq!(buf.cursor, Cursor { row: 0, col: 1 });
    commands::end_of_line(&mut buf);
    assert_eq!(buf.cursor.col, 3);
    commands::beginning_of_line(&mut buf);
    assert_eq!(buf.cursor.col, 0);
    commands::scroll_down(&mut buf, 9);
    assert_eq!(buf.cursor.row, 1);
    commands::scroll_up(&mut buf, 9);
    assert_eq!(buf.cursor.row, 0);
    commands::goto_last_line(&mut buf);
    assert_eq!(buf.cursor.row, 1);
    commands::goto_first_line(&mut buf);
    assert_eq!(buf.cursor.row, 0);
}

#[test]
fn start_of_line_finds_the_first_non_blank() {
    let mut buf = buffer("\t  x y\n   \nz", 0, 5);
    commands::start_of_line(&mut buf);
    assert_eq!(buf.cursor.col, 3);
    // A line of blanks: the line feed is whitespace too.
    buf.cursor = Cursor { row: 1, col: 0 };
    commands::start_of_line(&mut buf);
    assert_eq!(buf.cursor.col, 4);
    buf.cursor = Cursor { row: 2, col: 1 };
    commands::start_of_line(&mut buf);
    assert_eq!(buf.cursor.col, 0);
    buf.cursor = Cursor { row: 7, col: 1 };
    commands::start_of_line(&mut buf);
    assert_eq!(buf.cursor, Cursor { row: 7, col: 1 });
}

#[test]
fn new_lines_above_and_below() {
    let mut buf = buffer("ab\ncd", 1, 1);
    commands::new_line_above(&mut buf);
    assert_eq!(buf.to_string(), "ab\n\ncd");
    assert_eq!(buf.cursor, Cursor { row: 1, col: 0 });
    commands::new_line_below(&mut buf);
    assert_eq!(buf.to_string(), "ab\n\n\ncd");
    assert_eq!(buf.cursor, Cursor { row: 2, col: 0 });
    let mut last = buffer("end", 0, 3);
    commands::new_line_below(&mut last);
    assert_eq!(last.to_string(), "end\n");
    assert_eq!(last.cursor, Cursor { row: 1, col: 0 });
}

#[test]
fn modes_and_typing() {
    let mut buf = buffer("", 0, 0);
    commands::set_mode(&mut buf, Mode::Insert);
    assert_eq!(buf.mode, Mode::Insert);
    commands::insert_char(&mut buf, 'q');
    assert_eq!(buf.to_string(), "q");
    commands::enter_visual_mode(&mut buf);
    assert_eq!(buf.mode, Mode::Visual);
    assert_eq!(buf.selection.unwrap().start, Cursor { row: 0, col: 1 });
    commands::exit_visual_mode(&mut buf);
    assert_eq!(buf.mode, Mode::Normal);
    commands::visual_select_other_end(&mut buf);
    assert_eq!(buf.cursor, Cursor { row: 0, col: 1 });
    commands::consume_selection(&mut buf, Mode::Insert);
    assert_eq!(buf.mode, Mode::Normal);
}

#[test]
fn range_operators() {
    let mut buf = buffer("hello world", 0, 0);
    buf.range = Some(Range::new(8, 2));
    commands::delete_range(&mut buf);
    assert_eq!(buf.to_string(), "herld");
    assert_eq!(buf.cursor.col, 2);
    assert_eq!(buf.range, None);
    // A range past the line is cut off at its end.
    buf.range = Some(Range::new(3, 90));
    commands::change_range(&mut buf);
    assert_eq!(buf.to_string(), "her");
    assert_eq!(buf.mode, Mode::Insert);
    // The line break counts as part of the line.
    let mut lines = buffer("ab\ncd", 0, 9);
    commands::delete_range(&mut lines);
    assert_eq!(lines.to_string(), "abcd");
    let mut empty = buffer("", 0, 0);
    commands::delete_range(&mut empty);
    assert_eq!(empty.to_string(), "");
}

#[test]
fn word_motions_move_the_cursor_and_leave_a_range() {
    let mut buf = buffer("fooBar baz.qux\nnext", 0, 0);
    move_next_word_start(&mut buf, 1);
    assert_eq!((buf.cursor.col, buf.range), (7, Some(Range::new(0, 7))));
    move_prev_word_start(&mut buf, 1);
    assert_eq!((buf.cursor.col, buf.range), (0, Some(Range::new(7, 0))));
    move_next_word_end(&mut buf, 1);
    assert_eq!(buf.cursor.col, 6);
    move_prev_word_end(&mut buf, 1);
    assert_eq!(buf.cursor.col, 0);
    move_next_long_word_start(&mut buf, 2);
    assert_eq!(buf.cursor.col, 14);
    move_prev_long_word_start(&mut buf, 1);
    assert_eq!(buf.cursor.col, 7);
    move_next_long_word_end(&mut buf, 1);
    assert_eq!(buf.cursor.col, 14);
    move_prev_long_word_end(&mut buf, 1);
    assert_eq!(buf.cursor.col, 6);
    buf.cursor.col = 0;
    move_next_sub_word_start(&mut buf, 1);
    assert_eq!(buf.cursor.col, 3);
    move_next_sub_word_end(&mut buf, 1);
    assert_eq!(buf.cursor.col, 6);
    move_prev_sub_word_start(&mut buf, 1);
    assert_eq!(buf.cursor.col, 3);
    move_prev_sub_word_end(&mut buf, 1);
    assert_eq!(buf.cursor.col, 0);
    // Outside the line nothing happens.
    buf.cursor = Cursor { row: 0, col: 99 };
    buf.range = None;
    move_word_impl(&mut buf, WordMotionTarget::NextWordStart, 1);
    assert_eq!((buf.cursor, buf.range), (Cursor { row: 0, col: 99 }, None));
    buf.cursor = Cursor { row: 5, col: 0 };
    move_word_impl(&mut buf, WordMotionTarget::NextWordStart, 1);
    assert_eq!((buf.cursor, buf.range), (Cursor { row: 5, col: 0 }, None));
}
