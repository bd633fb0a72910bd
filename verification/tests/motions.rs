use helix_motion::buffer::{BufferSnapshot, Position};
use helix_motion::classify::ScopeHint;
use helix_motion::motion::{
    apply_motion, next_long_word_start, next_word_end, next_word_start, prev_word_start, Motion,
};
use helix_motion::scan::{scan, BoundaryPredicate, ScanDirection, SpanPolicy};

fn buf(text: &str) -> BufferSnapshot {
    BufferSnapshot::from_chars(text.chars().collect())
}

fn next(b: &BufferSnapshot, at: usize) -> (usize, bool) {
    let r = next_word_start(b, Position::new(at));
    (r.position.offset, r.found)
}

fn prev(b: &BufferSnapshot, at: usize) -> (usize, bool) {
    let r = prev_word_start(b, Position::new(at));
    (r.position.offset, r.found)
}

#[test]
fn ordinary_word_starts_stop_at_class_changes() {
    let b = buf("foo-bar baz");
    assert_eq!(next(&b, 0), (3, true)); // word to punctuation: at '-'
    assert_eq!(next(&b, 3), (4, true)); // punctuation to word: at "bar"
    assert_eq!(next(&b, 4), (8, true)); // across the space: at "baz"
}

#[test]
fn long_word_start_coalesces_punctuation() {
    let b = buf("foo-bar baz");
    let r = next_long_word_start(&b, Position::new(0));
    assert_eq!((r.position.offset, r.found), (8, true));
}

#[test]
fn whitespace_run_is_skipped_to_first_content() {
    let b = buf("a   b");
    assert_eq!(next(&b, 0), (4, true));
    // From inside the run of spaces.
    assert_eq!(next(&b, 2), (4, true));
}

#[test]
fn whitespace_then_buffer_end_clamps() {
    let b = buf("a  ");
    assert_eq!(next(&b, 0), (3, false));
}

#[test]
fn newline_forces_word_start_on_next_line() {
    // Same class on both sides of the newline; the boundary is still forced.
    let b = buf("ab\ncd");
    assert_eq!(next(&b, 1), (3, true)); // from the last character of the line
    assert_eq!(next(&b, 0), (3, true));
}

#[test]
fn newline_before_blank_line_still_forces() {
    let b = buf("ab\n\ncd");
    assert_eq!(next(&b, 1), (3, true)); // lands on the empty line
    assert_eq!(next(&b, 3), (4, true)); // then on the start of "cd"
}

#[test]
fn clamp_at_end_without_trailing_newline() {
    let b = buf("foo bar");
    assert_eq!(next(&b, 4), (7, false));
}

#[test]
fn empty_and_all_whitespace_buffers_clamp() {
    let b = buf("");
    assert_eq!(next(&b, 0), (0, false));
    let w = buf("   ");
    assert_eq!(next(&w, 0), (3, false));
    assert_eq!(prev(&w, 3), (0, false));
}

#[test]
fn scan_advances_at_least_one_character() {
    // Position 4 is itself a word start; the scan must not stall there.
    let b = buf("a b c");
    assert_eq!(next(&b, 2), (4, true));
    let end = buf("a b");
    assert_eq!(next(&end, 2), (3, false));
}

#[test]
fn prev_word_start_mirrors_next() {
    let b = buf("foo bar");
    assert_eq!(prev(&b, 7), (4, true));
    assert_eq!(prev(&b, 4), (0, false));
    assert_eq!(prev(&b, 0), (0, false));
}

#[test]
fn prev_word_start_crosses_newlines() {
    let b = buf("ab\ncd");
    assert_eq!(prev(&b, 4), (3, true));
}

#[test]
fn prev_undoes_next_along_the_chain() {
    let b = buf("foo bar baz");
    // 4 and 8 are word starts; the backward motion walks the chain back.
    assert_eq!(next(&b, 4), (8, true));
    assert_eq!(prev(&b, 8), (4, true));
    // Clamped forward from the last word start, backward still returns to it.
    assert_eq!(next(&b, 8), (11, false));
    assert_eq!(prev(&b, 11), (8, true));
}

#[test]
fn word_end_stops_at_class_transitions() {
    let b = buf("foo-bar");
    let r = next_word_end(&b, Position::new(0));
    assert_eq!((r.position.offset, r.found), (3, true));
    let s = buf("foo bar");
    let r2 = next_word_end(&s, Position::new(0));
    // Whitespace on the right never ends a word; the transition into "bar"
    // is the first stopping pair.
    assert_eq!((r2.position.offset, r2.found), (4, true));
}

#[test]
fn single_line_scan_clamps_at_newline() {
    let b = buf("ab cd\nef");
    let r = scan(
        &b,
        Position::new(4),
        ScanDirection::Forward,
        SpanPolicy::SingleLine,
        BoundaryPredicate::word_start(),
    );
    assert_eq!((r.position.offset, r.found), (5, false));
    let back = scan(
        &b,
        Position::new(6),
        ScanDirection::Backward,
        SpanPolicy::SingleLine,
        BoundaryPredicate::word_start(),
    );
    assert_eq!((back.position.offset, back.found), (6, false));
}

#[test]
fn scope_is_resolved_once_at_the_start_position() {
    // The scope at position 0 treats '-' as a word character; every other
    // position carries the default scope.
    let text: Vec<char> = "ab-cd ef".chars().collect();
    let mut scopes = Vec::new();
    for i in 0..text.len() {
        if i == 0 {
            scopes.push(ScopeHint { extra_word_chars: vec!['-'] });
        } else {
            scopes.push(ScopeHint { extra_word_chars: Vec::new() });
        }
    }
    let hinted = BufferSnapshot::with_scopes(text, scopes);
    // Started at 0, the scan carries that scope past position 2, so the '-'
    // does not end the word and the motion runs to "ef".
    assert_eq!(next(&hinted, 0), (6, true));
    // The same text under the default scope everywhere stops at the '-'.
    let plain = buf("ab-cd ef");
    assert_eq!(next(&plain, 0), (2, true));
    // Started past position 0, the hinted buffer behaves like the plain one.
    assert_eq!(next(&hinted, 1), (2, true));
}

#[test]
fn apply_motion_dispatches_like_the_named_motions() {
    let b = buf("foo-bar baz");
    let head = Position::new(0);
    assert_eq!(
        apply_motion(&b, head, Motion::NextWordStart).position.offset,
        next_word_start(&b, head).position.offset
    );
    assert_eq!(
        apply_motion(&b, head, Motion::NextLongWordStart).position.offset,
        next_long_word_start(&b, head).position.offset
    );
    assert_eq!(
        apply_motion(&b, head, Motion::NextWordEnd).position.offset,
        next_word_end(&b, head).position.offset
    );
    let r = apply_motion(&b, Position::new(8), Motion::PrevWordStart);
    assert_eq!((r.position.offset, r.found), (4, true));
}
