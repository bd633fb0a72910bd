//! The word motions: each composes the scanner with a boundary predicate and
//! a direction, always across lines. The scope hint in force at the head
//! position is used for the whole motion.

use vstd::prelude::*;

use crate::buffer::{BufferSnapshot, Position};
use crate::scan::{
    scan, spec_scan, BoundaryPredicate, PredicateKind, ScanDirection, ScanResult, SpanPolicy,
};

verus! {

/// The word motions a host can dispatch.
#[derive(Clone, Copy, Debug, PartialEq, Eq, Structural)]
pub enum Motion {
    NextWordStart,
    PrevWordStart,
    NextWordEnd,
    NextLongWordStart,
}

/// The direction a motion scans in.
pub open spec fn motion_direction(motion: Motion) -> ScanDirection {
    match motion {
        Motion::PrevWordStart => ScanDirection::Backward,
        _ => ScanDirection::Forward,
    }
}

/// The boundary shape a motion looks for.
pub open spec fn motion_kind(motion: Motion) -> PredicateKind {
    match motion {
        Motion::NextWordEnd => PredicateKind::WordEnd,
        _ => PredicateKind::WordStart,
    }
}

/// Whether a motion coalesces word and punctuation into one class.
pub open spec fn motion_coalesces(motion: Motion) -> bool {
    motion == Motion::NextLongWordStart
}

/// Where a motion stops, as a function of the text, the scope extras at the
/// head position, and the head offset.
pub open spec fn spec_motion_result(
    text: Seq<char>,
    scope: Seq<char>,
    motion: Motion,
    start: int,
) -> (int, bool) {
    spec_scan(
        text,
        scope,
        motion_direction(motion),
        SpanPolicy::MultiLine,
        motion_kind(motion),
        motion_coalesces(motion),
        start,
    )
}

/// Run one motion from `head`. The head must lie inside the buffer,
/// including its end position; a host passing anything else has broken the
/// calling contract and must not reach this function.
pub fn apply_motion(buffer: &BufferSnapshot, head: Position, motion: Motion) -> (r: ScanResult)
    requires
        buffer.wf(),
        head.offset <= buffer.text().len(),
    ensures
        (r.position.offset as int, r.found) == spec_motion_result(
            buffer.text(),
            buffer.scope_at_spec(head.offset as int),
            motion,
            head.offset as int,
        ),
{
    match motion {
        Motion::NextWordStart => scan(
            buffer,
            head,
            ScanDirection::Forward,
            SpanPolicy::MultiLine,
            BoundaryPredicate::word_start(),
        ),
        Motion::PrevWordStart => scan(
            buffer,
            head,
            ScanDirection::Backward,
            SpanPolicy::MultiLine,
            BoundaryPredicate::word_start(),
        ),
        Motion::NextWordEnd => scan(
            buffer,
            head,
            ScanDirection::Forward,
            SpanPolicy::MultiLine,
            BoundaryPredicate::word_end(),
        ),
        Motion::NextLongWordStart => scan(
            buffer,
            head,
            ScanDirection::Forward,
            SpanPolicy::MultiLine,
            BoundaryPredicate::long_word_start(),
        ),
    }
}

/// Move to the start of the next word.
pub fn next_word_start(buffer: &BufferSnapshot, head: Position) -> (r: ScanResult)
    requires
        buffer.wf(),
        head.offset <= buffer.text().len(),
    ensures
        (r.position.offset as int, r.found) == spec_motion_result(
            buffer.text(),
            buffer.scope_at_spec(head.offset as int),
            Motion::NextWordStart,
            head.offset as int,
        ),
{
    apply_motion(buffer, head, Motion::NextWordStart)
}

/// Move to the start of the previous word.
pub fn prev_word_start(buffer: &BufferSnapshot, head: Position) -> (r: ScanResult)
    requires
        buffer.wf(),
        head.offset <= buffer.text().len(),
    ensures
        (r.position.offset as int, r.found) == spec_motion_result(
            buffer.text(),
            buffer.scope_at_spec(head.offset as int),
            Motion::PrevWordStart,
            head.offset as int,
        ),
{
    apply_motion(buffer, head, Motion::PrevWordStart)
}

/// Move to the end of the current run: the first class transition ahead.
pub fn next_word_end(buffer: &BufferSnapshot, head: Position) -> (r: ScanResult)
    requires
        buffer.wf(),
        head.offset <= buffer.text().len(),
    ensures
        (r.position.offset as int, r.found) == spec_motion_result(
            buffer.text(),
            buffer.scope_at_spec(head.offset as int),
            Motion::NextWordEnd,
            head.offset as int,
        ),
{
    apply_motion(buffer, head, Motion::NextWordEnd)
}

/// Move to the start of the next long word: punctuation attached to a word
/// does not end it, only whitespace and newlines do.
pub fn next_long_word_start(buffer: &BufferSnapshot, head: Position) -> (r: ScanResult)
    requires
        buffer.wf(),
        head.offset <= buffer.text().len(),
    ensures
        (r.position.offset as int, r.found) == spec_motion_result(
            buffer.text(),
            buffer.scope_at_spec(head.offset as int),
            Motion::NextLongWordStart,
            head.offset as int,
        ),
{
    apply_motion(buffer, head, Motion::NextLongWordStart)
}

} // verus!
