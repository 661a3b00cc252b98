use benihime::buffer::{Buffer, BufferId, Cursor, Mode, Selection};
use benihime::movement::selection::Range;

fn buffer(text: &str) -> Buffer {
    Buffer::from(BufferId(1), "test", text, None)
}

#[test]
fn new_buffer_is_empty() {
    let buf = Buffer::new(BufferId(7), "scratch", Some("/tmp/x".to_string()));
    assert_eq!(buf.to_string(), "");
    assert_eq!(buf.line_count(), 1);
    assert_eq!(buf.cursor, Cursor { row: 0, col: 0 });
    assert_eq!(buf.mode, Mode::Normal);
    assert_eq!(buf.id, BufferId(7));
    assert_eq!(buf.name, "scratch");
    assert_eq!(buf.file_path, Some("/tmp/x".to_string()));
    assert!(!buf.is_modified());
}

#[test]
fn cursor_start_is_origin() {
    assert_eq!(Cursor::start(), Cursor { row: 0, col: 0 });
    assert_eq!(Cursor::new(), Cursor { row: 0, col: 0 });
}

#[test]
fn selection_normalizes_by_row_then_column() {
    let sel = Selection { start: Cursor { row: 2, col: 1 } };
    assert_eq!(
        sel.normalized(&Cursor { row: 1, col: 9 }),
        (Cursor { row: 1, col: 9 }, Cursor { row: 2, col: 1 })
    );
    assert_eq!(
        sel.normalized(&Cursor { row: 2, col: 1 }),
        (Cursor { row: 2, col: 1 }, Cursor { row: 2, col: 1 })
    );
    assert_eq!(
        sel.normalized(&Cursor { row: 2, col: 0 }),
        (Cursor { row: 2, col: 0 }, Cursor { row: 2, col: 1 })
    );
    assert_eq!(
        sel.normalized(&Cursor { row: 3, col: 0 }),
        (Cursor { row: 2, col: 1 }, Cursor { row: 3, col: 0 })
    );
}

#[test]
fn mode_from_str_ignores_case() {
    assert_eq!(Mode::from_str("normal").unwrap(), Mode::Normal);
    assert_eq!(Mode::from_str("INSERT").unwrap(), Mode::Insert);
    assert_eq!(Mode::from_str("Visual").unwrap(), Mode::Visual);
    assert_eq!(Mode::from_str("cOmMaNd").unwrap(), Mode::Command);
    let err = Mode::from_str("minibuffer").unwrap_err();
    assert_eq!(err.name, "minibuffer");
    assert_eq!(err.message(), "Invalid mode: minibuffer");
    assert!(Mode::from_str("").is_err());
}

#[test]
fn line_count_counts_line_breaks() {
    assert_eq!(buffer("").line_count(), 1);
    assert_eq!(buffer("Hello").line_count(), 1);
    assert_eq!(buffer("Hello\nworld").line_count(), 2);
    assert_eq!(buffer("Hello\nworld\n").line_count(), 3);
    assert_eq!(buffer("a\r\nb").line_count(), 2);
    assert_eq!(buffer("a\rb").line_count(), 2);
    assert_eq!(buffer("a\r\r\nb").line_count(), 3);
    assert_eq!(buffer("a\u{000B}b\u{000C}c\u{0085}d\u{2028}e\u{2029}f").line_count(), 6);
}

#[test]
fn line_starts_follow_line_breaks() {
    let buf = buffer("foo bar\nbaz\r\nq");
    assert_eq!(buf.get_line_to_char(0), 0);
    assert_eq!(buf.get_line_to_char(1), 8);
    assert_eq!(buf.get_line_to_char(2), 13);
    assert_eq!(buf.get_line_to_char(3), 14);
    assert_eq!(buf.get_line_to_char(99), 14);
    assert_eq!(buf.len_chars(), 14);
    assert_eq!(buf.line(1).to_string(), "baz\r\n");
}

#[test]
fn line_len_leaves_out_the_line_feed() {
    let buf = buffer("foo bar\nbaz\r\n\nlast");
    assert_eq!(buf.line_len(0), 7);
    assert_eq!(buf.line_len(1), 3);
    assert_eq!(buf.line_len(2), 0);
    assert_eq!(buf.line_len(3), 4);
    assert_eq!(buf.line_len(4), 0);
    assert_eq!(buf.line_len(100), 0);
    // A lone carriage return is kept in the count.
    assert_eq!(buffer("ab\rcd").line_len(0), 3);
}

#[test]
fn insert_str_without_line_feed_moves_right() {
    let mut buf = buffer("foo bar\nbaz");
    buf.cursor = Cursor { row: 0, col: 3 };
    buf.insert_str("XY");
    assert_eq!(buf.to_string(), "fooXY bar\nbaz");
    assert_eq!(buf.cursor, Cursor { row: 0, col: 5 });
    assert!(buf.is_modified());
}

#[test]
fn insert_str_with_line_feeds_moves_down() {
    let mut buf = buffer("foo bar\nbaz");
    buf.cursor = Cursor { row: 1, col: 1 };
    buf.insert_str("1\n22\n333");
    assert_eq!(buf.to_string(), "foo bar\nb1\n22\n333az");
    assert_eq!(buf.cursor, Cursor { row: 3, col: 3 });
}

#[test]
fn insert_str_clamps_the_column() {
    let mut buf = buffer("ab\ncd");
    buf.cursor = Cursor { row: 0, col: 50 };
    buf.insert_str("!");
    assert_eq!(buf.to_string(), "ab!\ncd");
    assert_eq!(buf.cursor, Cursor { row: 0, col: 3 });
}

#[test]
fn insert_str_on_missing_row_does_nothing() {
    let mut buf = buffer("ab");
    buf.cursor = Cursor { row: 5, col: 0 };
    buf.insert_str("x");
    assert_eq!(buf.to_string(), "ab");
    assert_eq!(buf.cursor, Cursor { row: 5, col: 0 });
    assert!(!buf.is_modified());
}

#[test]
fn insert_char_types_one_character() {
    let mut buf = buffer("");
    buf.insert_char('h');
    buf.insert_char('i');
    buf.insert_char('\n');
    buf.insert_char('!');
    assert_eq!(buf.to_string(), "hi\n!");
    assert_eq!(buf.cursor, Cursor { row: 1, col: 1 });
}

#[test]
fn delete_char_before_cursor_inside_a_line() {
    let mut buf = buffer("hello");
    buf.cursor = Cursor { row: 0, col: 3 };
    buf.delete_char_before_cursor();
    assert_eq!(buf.to_string(), "helo");
    assert_eq!(buf.cursor, Cursor { row: 0, col: 2 });
}

#[test]
fn delete_char_before_cursor_joins_lines() {
    let mut buf = buffer("ab\ncd");
    buf.cursor = Cursor { row: 1, col: 0 };
    buf.delete_char_before_cursor();
    assert_eq!(buf.to_string(), "abcd");
    assert_eq!(buf.cursor, Cursor { row: 0, col: 2 });
}

#[test]
fn delete_char_before_cursor_at_origin_does_nothing() {
    let mut buf = buffer("ab");
    buf.delete_char_before_cursor();
    assert_eq!(buf.to_string(), "ab");
    assert_eq!(buf.cursor, Cursor { row: 0, col: 0 });
}

#[test]
fn delete_char_before_cursor_outside_the_text_does_nothing() {
    let mut buf = buffer("ab");
    buf.cursor = Cursor { row: 0, col: 9 };
    buf.delete_char_before_cursor();
    assert_eq!(buf.to_string(), "ab");
    buf.cursor = Cursor { row: 4, col: 1 };
    buf.delete_char_before_cursor();
    assert_eq!(buf.to_string(), "ab");
}

#[test]
fn delete_selection_removes_the_span() {
    let mut buf = buffer("foo bar\nbaz");
    buf.selection = Some(Selection { start: Cursor { row: 1, col: 1 } });
    buf.cursor = Cursor { row: 0, col: 4 };
    let at = buf.delete_selection();
    assert_eq!(at, Some(Cursor { row: 0, col: 4 }));
    assert_eq!(buf.to_string(), "foo az");
    assert_eq!(buf.cursor, Cursor { row: 0, col: 4 });
    assert_eq!(buf.selection, None);
}

#[test]
fn delete_selection_without_selection_gives_nothing() {
    let mut buf = buffer("abc");
    assert_eq!(buf.delete_selection(), None);
    assert_eq!(buf.to_string(), "abc");
}

#[test]
fn insert_idx_and_remove_line_edit_by_offset() {
    let mut buf = buffer("hello");
    buf.insert_idx(5, " world");
    assert_eq!(buf.to_string(), "hello world");
    buf.remove_line(0, 6);
    assert_eq!(buf.to_string(), "world");
    // An empty and an inverted range delete nothing.
    buf.remove_line(2, 2);
    buf.remove_line(4, 1);
    assert_eq!(buf.to_string(), "world");
}

#[test]
fn update_scroll_follows_the_cursor() {
    let mut buf = buffer("x");
    buf.cursor = Cursor { row: 30, col: 100 };
    buf.update_scroll(20, 3, 80, 5);
    assert_eq!(buf.scroll_offset, 14);
    assert_eq!(buf.scroll_left, 25);
    buf.cursor = Cursor { row: 2, col: 1 };
    buf.update_scroll(20, 3, 80, 5);
    assert_eq!(buf.scroll_offset, 0);
    assert_eq!(buf.scroll_left, 0);
    buf.cursor = Cursor { row: 10, col: 10 };
    buf.update_scroll(20, 3, 80, 5);
    assert_eq!(buf.scroll_offset, 0);
    assert_eq!(buf.scroll_left, 0);
}

#[test]
fn center_cursor_puts_the_row_in_the_middle() {
    let text = "l\n".repeat(100);
    let mut buf = buffer(&text);
    buf.cursor = Cursor { row: 50, col: 0 };
    buf.center_cursor(20);
    assert_eq!(buf.scroll_offset, 40);
    buf.cursor = Cursor { row: 3, col: 0 };
    buf.center_cursor(20);
    assert_eq!(buf.scroll_offset, 0);
    buf.cursor = Cursor { row: 100, col: 0 };
    buf.center_cursor(20);
    assert_eq!(buf.scroll_offset, 81);
}

#[test]
fn undo_takes_back_and_redo_makes_again() {
    let mut buf = buffer("abc");
    buf.insert_idx(3, "def");
    buf.remove_line(0, 2);
    buf.insert_idx(0, "Z");
    assert_eq!(buf.to_string(), "Zcdef");
    buf.undo();
    assert_eq!(buf.to_string(), "cdef");
    buf.undo();
    assert_eq!(buf.to_string(), "abcdef");
    buf.undo();
    assert_eq!(buf.to_string(), "abc");
    // At the root nothing is left to undo.
    buf.undo();
    assert_eq!(buf.to_string(), "abc");
    buf.redo();
    buf.redo();
    buf.redo();
    assert_eq!(buf.to_string(), "Zcdef");
    // At a leaf nothing is left to redo.
    buf.redo();
    assert_eq!(buf.to_string(), "Zcdef");
}

#[test]
fn undo_counts_characters_not_bytes() {
    let mut buf = buffer("aé");
    buf.insert_idx(2, "üß");
    assert_eq!(buf.to_string(), "aéüß");
    buf.undo();
    assert_eq!(buf.to_string(), "aé");
    buf.redo();
    assert_eq!(buf.to_string(), "aéüß");
    buf.remove_line(1, 3);
    assert_eq!(buf.to_string(), "aß");
    buf.undo();
    assert_eq!(buf.to_string(), "aéüß");
}

#[test]
fn edit_after_undo_starts_a_new_branch() {
    let mut buf = buffer("");
    buf.insert_idx(0, "one");
    buf.insert_idx(3, " two");
    buf.undo();
    assert_eq!(buf.to_string(), "one");
    buf.insert_idx(3, " three");
    assert_eq!(buf.to_string(), "one three");
    // Redo from the new node leads nowhere.
    buf.redo();
    buf.redo();
    assert_eq!(buf.to_string(), "one three");
    // From the parent, redo takes the new branch, not the old one.
    buf.undo();
    assert_eq!(buf.to_string(), "one");
    buf.redo();
    assert_eq!(buf.to_string(), "one three");
}

#[test]
fn insert_session_is_one_undo_unit() {
    let mut buf = buffer("start ");
    buf.insert_idx(6, "x");
    buf.cursor = Cursor { row: 0, col: 7 };
    buf.set_mode(Mode::Insert);
    for ch in "typed".chars() {
        buf.insert_char(ch);
    }
    buf.set_mode(Mode::Normal);
    assert_eq!(buf.to_string(), "start xtyped");
    buf.undo();
    assert_eq!(buf.to_string(), "start x");
    buf.undo();
    assert_eq!(buf.to_string(), "start ");
    buf.redo();
    buf.redo();
    assert_eq!(buf.to_string(), "start xtyped");
}

#[test]
fn mark_saved_clears_the_modified_flag() {
    let mut buf = buffer("a");
    buf.insert_idx(0, "b");
    assert!(buf.is_modified());
    buf.mark_saved();
    assert!(!buf.is_modified());
    buf.undo();
    assert!(buf.is_modified());
}

#[test]
fn deleting_a_motion_range_shortens_the_line() {
    let mut buf = buffer("foo bar\nbaz");
    assert_eq!(buf.line_len(0), 7);
    let line = buf.line(0);
    let moved = benihime::movement::movement::move_next_word_start(line, Range::point(0), 1);
    assert_eq!(moved.head, 4);
    buf.remove_line(moved.from(), moved.to());
    assert_eq!(buf.to_string(), "bar\nbaz");
    assert_eq!(buf.line_len(0), 3);
}

#[test]
fn cursors_order_by_row_then_column() {
    assert!(Cursor { row: 0, col: 9 } < Cursor { row: 1, col: 0 });
    assert!(Cursor { row: 2, col: 3 } < Cursor { row: 2, col: 4 });
    assert!(Cursor { row: 2, col: 3 } <= Cursor { row: 2, col: 3 });
    assert_eq!(
        Cursor { row: 1, col: 7 }.max(Cursor { row: 2, col: 0 }),
        Cursor { row: 2, col: 0 }
    );
}
