use benihime::movement::movement::{
    is_long_word_boundary, is_sub_word_boundary, is_word_boundary, move_next_long_word_end,
    move_next_long_word_start, move_next_sub_word_end, move_next_sub_word_start,
    move_next_word_end, move_next_word_start, move_prev_long_word_end,
    move_prev_long_word_start, move_prev_sub_word_end, move_prev_sub_word_start,
    move_prev_word_end, move_prev_word_start, range_to_target, reached_target, word_move,
    Direction, WordMotionTarget,
};
use benihime::movement::selection::Range;
use ropey::Rope;

fn r(anchor: usize, head: usize) -> Range {
    Range::new(anchor, head)
}

#[test]
fn range_basics() {
    assert_eq!(Range::point(3), r(3, 3));
    assert!(Range::point(3).is_empty());
    assert!(!r(1, 2).is_empty());
    assert_eq!(r(5, 2).from(), 2);
    assert_eq!(r(5, 2).to(), 5);
    assert_eq!(r(2, 5).from(), 2);
    assert_eq!(r(2, 5).to(), 5);
    assert_eq!(r(5, 2).direction(), Direction::Backward);
    assert_eq!(r(2, 5).direction(), Direction::Forward);
    assert_eq!(r(4, 4).direction(), Direction::Forward);
    assert_eq!(r(2, 5).flip(), r(5, 2));
    assert_eq!(r(2, 5).with_direction(Direction::Backward), r(5, 2));
    assert_eq!(r(2, 5).with_direction(Direction::Forward), r(2, 5));
    assert_eq!(r(5, 2).with_direction(Direction::Forward), r(2, 5));
}

#[test]
fn range_relations() {
    assert!(r(0, 5).overlaps(&r(4, 8)));
    assert!(!r(0, 4).overlaps(&r(4, 8)));
    assert!(r(8, 4).overlaps(&r(5, 0)));
    assert!(r(0, 10).contains_range(&r(8, 2)));
    assert!(!r(0, 5).contains_range(&r(2, 6)));
    assert!(r(5, 2).contains(2));
    assert!(r(5, 2).contains(4));
    assert!(!r(5, 2).contains(5));
    assert_eq!(r(5, 2).merge(r(7, 9)), r(2, 9));
    assert_eq!(r(0, 3).merge(r(2, 1)), r(0, 3));
}

#[test]
fn boundaries_between_categories() {
    assert!(is_word_boundary('a', ' '));
    assert!(is_word_boundary('a', '.'));
    assert!(!is_word_boundary('a', 'b'));
    assert!(!is_long_word_boundary('a', '.'));
    assert!(!is_long_word_boundary('.', 'a'));
    assert!(is_long_word_boundary('a', ' '));
    assert!(!is_long_word_boundary(' ', ' '));
    assert!(is_sub_word_boundary('a', 'B', Direction::Forward));
    assert!(!is_sub_word_boundary('a', 'B', Direction::Backward));
    assert!(is_sub_word_boundary('B', 'a', Direction::Backward));
    assert!(is_sub_word_boundary('a', '_', Direction::Forward));
    assert!(!is_sub_word_boundary('_', '_', Direction::Forward));
    assert!(is_sub_word_boundary('a', ' ', Direction::Backward));
}

#[test]
fn reached_target_tests_the_right_side() {
    assert!(reached_target(WordMotionTarget::NextWordStart, ' ', 'b'));
    assert!(!reached_target(WordMotionTarget::NextWordStart, 'o', ' '));
    assert!(reached_target(WordMotionTarget::NextWordStart, 'o', '\n'));
    assert!(reached_target(WordMotionTarget::NextWordEnd, 'o', ' '));
    assert!(!reached_target(WordMotionTarget::NextWordEnd, ' ', 'b'));
    assert!(reached_target(WordMotionTarget::NextLongWordEnd, '.', ' '));
    assert!(!reached_target(WordMotionTarget::NextLongWordStart, 'a', '.'));
    assert!(reached_target(WordMotionTarget::NextSubWordStart, 'a', 'B'));
    assert!(!reached_target(WordMotionTarget::NextSubWordStart, 'a', '_'));
    assert!(reached_target(WordMotionTarget::NextSubWordEnd, 'a', '_'));
    assert!(reached_target(WordMotionTarget::PrevSubWordStart, 'B', 'a'));
}

#[test]
fn next_word_start_lands_on_the_next_word() {
    let rope = Rope::from_str("foo bar\nbaz");
    let line = rope.line(0);
    assert_eq!(move_next_word_start(line, Range::point(0), 1), r(0, 4));
    assert_eq!(move_next_word_start(line, Range::point(0), 2), r(4, 7));
    assert_eq!(move_next_word_start(line, r(0, 4), 1), r(0, 4));
}

#[test]
fn next_word_end_lands_after_the_word() {
    let rope = Rope::from_str("foo bar baz");
    let line = rope.slice(..);
    assert_eq!(move_next_word_end(line, Range::point(0), 1), r(0, 3));
    assert_eq!(move_next_word_end(line, Range::point(0), 2), r(3, 7));
    assert_eq!(move_next_word_end(line, r(3, 7), 1), r(3, 7));
}

#[test]
fn prev_word_start_lands_on_the_word_before() {
    let rope = Rope::from_str("foo bar baz");
    let line = rope.slice(..);
    assert_eq!(move_prev_word_start(line, Range::point(11), 1), r(11, 8));
    assert_eq!(move_prev_word_start(line, Range::point(8), 1), r(8, 4));
    assert_eq!(move_prev_word_start(line, Range::point(8), 2), r(4, 0));
}

#[test]
fn prev_word_end_lands_after_the_word_before() {
    let rope = Rope::from_str("foo bar baz");
    let line = rope.slice(..);
    assert_eq!(move_prev_word_end(line, Range::point(9), 1), r(9, 7));
}

#[test]
fn long_words_span_punctuation() {
    let rope = Rope::from_str("foo.bar baz");
    let line = rope.slice(..);
    assert_eq!(move_next_word_start(line, Range::point(0), 1), r(0, 3));
    assert_eq!(move_next_long_word_start(line, Range::point(0), 1), r(0, 8));
    assert_eq!(move_next_long_word_end(line, Range::point(0), 1), r(0, 7));
    assert_eq!(move_prev_long_word_start(line, Range::point(7), 1), r(7, 0));
    assert_eq!(move_prev_long_word_end(line, Range::point(10), 1), r(10, 7));
}

#[test]
fn sub_words_split_at_case_and_underscore() {
    let rope = Rope::from_str("fooBar_baz qux");
    let line = rope.slice(..);
    assert_eq!(move_next_sub_word_start(line, Range::point(0), 1), r(0, 3));
    assert_eq!(move_next_sub_word_end(line, Range::point(0), 1), r(0, 3));
    assert_eq!(move_next_sub_word_start(line, Range::point(3), 1), r(3, 7));
    assert_eq!(move_prev_sub_word_start(line, Range::point(10), 1), r(10, 7));
    assert_eq!(move_prev_sub_word_end(line, Range::point(10), 1), r(10, 6));
}

#[test]
fn motions_are_idle_at_the_boundaries() {
    let rope = Rope::from_str("foo bar");
    let line = rope.slice(..);
    for count in [0usize, 1, 2, 7] {
        assert_eq!(move_prev_word_start(line, Range::point(0), count), Range::point(0));
        assert_eq!(move_prev_word_start(line, r(5, 0), count), r(5, 0));
        assert_eq!(move_next_word_end(line, Range::point(7), count), Range::point(7));
        assert_eq!(move_next_word_end(line, r(2, 7), count), r(2, 7));
        assert_eq!(move_prev_word_end(line, r(3, 0), count), r(3, 0));
        assert_eq!(move_next_word_start(line, r(3, 7), count), r(3, 7));
    }
    let empty = Rope::from_str("");
    assert_eq!(move_next_word_start(empty.slice(..), Range::point(0), 1), Range::point(0));
    assert_eq!(move_prev_word_start(empty.slice(..), Range::point(0), 1), Range::point(0));
}

#[test]
fn motions_stop_at_the_end_of_the_line() {
    let rope = Rope::from_str("foo");
    let line = rope.slice(..);
    assert_eq!(move_next_word_start(line, Range::point(0), 1), r(0, 3));
    assert_eq!(move_next_word_start(line, Range::point(0), 5), r(0, 3));
    assert_eq!(move_prev_word_start(line, Range::point(3), 5), r(3, 0));
}

#[test]
fn initial_line_endings_are_skipped() {
    let rope = Rope::from_str("a\n\nb c");
    let line = rope.slice(..);
    assert_eq!(
        range_to_target(&line, WordMotionTarget::NextWordStart, r(0, 1)),
        r(3, 5)
    );
}

#[test]
fn word_move_takes_the_target() {
    let rope = Rope::from_str("alpha beta");
    let line = rope.slice(..);
    assert_eq!(word_move(line, Range::point(0), 1, WordMotionTarget::NextWordStart), r(0, 6));
    assert_eq!(word_move(line, Range::point(0), 1, WordMotionTarget::NextWordEnd), r(0, 5));
    assert_eq!(word_move(line, Range::point(10), 1, WordMotionTarget::PrevWordStart), r(10, 6));
    assert!(WordMotionTarget::PrevWordEnd.is_backward());
    assert!(!WordMotionTarget::NextSubWordEnd.is_backward());
}

#[test]
fn motions_count_characters_of_any_script() {
    let rope = Rope::from_str("héllo wörld ünï");
    assert_eq!(move_next_word_start(rope.slice(..), Range::point(0), 3), r(12, 15));
}

#[test]
fn punctuation_is_a_word_of_its_own() {
    let rope = Rope::from_str("a, b; c");
    assert_eq!(move_next_word_start(rope.slice(..), Range::point(0), 4), r(6, 7));
    let lead = Rope::from_str("  lead");
    assert_eq!(move_next_word_start(lead.slice(..), Range::point(0), 1), r(0, 2));
    let gap = Rope::from_str("x  y");
    assert_eq!(move_prev_word_end(gap.slice(..), Range::point(4), 1), r(4, 1));
}
