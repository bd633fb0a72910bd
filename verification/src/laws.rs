//! Laws of the scanner and of the word motions, each proved from the
//! specifications in `scan` and `motion`: where a scan can stop, that forward
//! motions strictly advance and clamp exactly when nothing is ahead, that the
//! backward word-start motion undoes the forward one, how whitespace runs and
//! newlines shape the word-start motion, and that a motion sees only the
//! scope hint of its head position.

use vstd::prelude::*;

use crate::buffer::BufferSnapshot;
use crate::classify::{spec_classify, CharacterClass};
use crate::motion::{motion_coalesces, motion_direction, motion_kind, spec_motion_result, Motion};
use crate::scan::{
    spec_boundary, spec_scan_backward, spec_scan_forward, PredicateKind, ScanDirection,
};

verus! {

/// Position `q` is one where a scan with this predicate may stop: a boundary
/// holds between the characters around it.
pub open spec fn stop_at(
    text: Seq<char>,
    scope: Seq<char>,
    kind: PredicateKind,
    coalesce: bool,
    q: int,
) -> bool {
    &&& 1 <= q < text.len()
    &&& spec_boundary(kind, coalesce, scope, text[q - 1], text[q])
}

proof fn lemma_scan_forward_from(
    text: Seq<char>,
    scope: Seq<char>,
    kind: PredicateKind,
    coalesce: bool,
    start: int,
    cursor: int,
)
    requires
        0 <= start <= cursor <= text.len(),
    ensures
        ({
            let r = spec_scan_forward(text, scope, kind, coalesce, false, start, cursor);
            &&& cursor <= r.0 <= text.len()
            &&& r.1 ==> start < r.0 < text.len() && stop_at(text, scope, kind, coalesce, r.0)
                && (forall|q: int|
                    cursor <= q < r.0 && start < q ==> !stop_at(text, scope, kind, coalesce, q))
            &&& !r.1 ==> r.0 == text.len() && (forall|q: int|
                cursor <= q < text.len() && start < q ==> !stop_at(text, scope, kind, coalesce, q))
        }),
    decreases text.len() - cursor,
{
    if cursor >= text.len() {
    } else if start < cursor && spec_boundary(kind, coalesce, scope, text[cursor - 1], text[cursor]) {
    } else {
        lemma_scan_forward_from(text, scope, kind, coalesce, start, cursor + 1);
        assert(start < cursor ==> !stop_at(text, scope, kind, coalesce, cursor));
    }
}

proof fn lemma_scan_backward_from(
    text: Seq<char>,
    scope: Seq<char>,
    kind: PredicateKind,
    coalesce: bool,
    start: int,
    cursor: int,
)
    requires
        0 <= cursor <= start <= text.len(),
    ensures
        ({
            let r = spec_scan_backward(text, scope, kind, coalesce, false, start, cursor);
            &&& 0 <= r.0 <= cursor
            &&& r.1 ==> 1 <= r.0 && r.0 < start && stop_at(text, scope, kind, coalesce, r.0)
                && (forall|q: int|
                    r.0 < q <= cursor && q < start ==> !stop_at(text, scope, kind, coalesce, q))
            &&& !r.1 ==> r.0 == 0 && (forall|q: int|
                0 < q <= cursor && q < start ==> !stop_at(text, scope, kind, coalesce, q))
        }),
    decreases cursor,
{
    if cursor <= 0 {
    } else if cursor < start && spec_boundary(kind, coalesce, scope, text[cursor - 1], text[cursor]) {
    } else {
        lemma_scan_backward_from(text, scope, kind, coalesce, start, cursor - 1);
        assert(cursor < start ==> !stop_at(text, scope, kind, coalesce, cursor));
    }
}

/// Law: a forward scan across lines stops at the first boundary strictly
/// past its start, and clamps at the buffer end exactly when no boundary
/// lies ahead. The position reached never precedes the start and never
/// leaves the buffer, so every scan ends within buffer length of its start.
pub proof fn lemma_scan_forward_finds_first_boundary(
    text: Seq<char>,
    scope: Seq<char>,
    kind: PredicateKind,
    coalesce: bool,
    start: int,
)
    requires
        0 <= start <= text.len(),
    ensures
        ({
            let r = spec_scan_forward(text, scope, kind, coalesce, false, start, start);
            &&& start <= r.0 <= text.len()
            &&& r.1 ==> start < r.0 < text.len() && stop_at(text, scope, kind, coalesce, r.0)
                && (forall|q: int|
                    start < q < r.0 ==> !stop_at(text, scope, kind, coalesce, q))
            &&& !r.1 ==> r.0 == text.len() && (forall|q: int|
                start < q < text.len() ==> !stop_at(text, scope, kind, coalesce, q))
        }),
{
    lemma_scan_forward_from(text, scope, kind, coalesce, start, start);
}

/// Law: a backward scan across lines stops at the last boundary strictly
/// before its start, and clamps at the buffer start exactly when no boundary
/// lies behind.
pub proof fn lemma_scan_backward_finds_previous_boundary(
    text: Seq<char>,
    scope: Seq<char>,
    kind: PredicateKind,
    coalesce: bool,
    start: int,
)
    requires
        0 <= start <= text.len(),
    ensures
        ({
            let r = spec_scan_backward(text, scope, kind, coalesce, false, start, start);
            &&& 0 <= r.0 <= start
            &&& r.1 ==> 1 <= r.0 && r.0 < start && stop_at(text, scope, kind, coalesce, r.0)
                && (forall|q: int|
                    r.0 < q < start ==> !stop_at(text, scope, kind, coalesce, q))
            &&& !r.1 ==> r.0 == 0 && (forall|q: int|
                0 < q < start ==> !stop_at(text, scope, kind, coalesce, q))
        }),
{
    lemma_scan_backward_from(text, scope, kind, coalesce, start, start);
}

/// Law: every forward motion strictly advances until it clamps at the buffer
/// end, and a found position is a genuine boundary of that motion — so
/// repeated application visits boundaries in strictly increasing position
/// order until clamped.
pub proof fn lemma_forward_motion_advances(
    text: Seq<char>,
    scope: Seq<char>,
    motion: Motion,
    start: int,
)
    requires
        0 <= start <= text.len(),
        motion_direction(motion) == ScanDirection::Forward,
    ensures
        ({
            let r = spec_motion_result(text, scope, motion, start);
            &&& start <= r.0 <= text.len()
            &&& r.1 ==> start < r.0 < text.len() && stop_at(
                text,
                scope,
                motion_kind(motion),
                motion_coalesces(motion),
                r.0,
            )
            &&& !r.1 ==> r.0 == text.len()
        }),
{
    lemma_scan_forward_finds_first_boundary(
        text,
        scope,
        motion_kind(motion),
        motion_coalesces(motion),
        start,
    );
}

/// Law: the backward word-start motion never advances: it stops strictly
/// before its start at a word-start boundary, or clamps at the buffer start.
pub proof fn lemma_prev_word_start_retreats(text: Seq<char>, scope: Seq<char>, start: int)
    requires
        0 <= start <= text.len(),
    ensures
        ({
            let r = spec_motion_result(text, scope, Motion::PrevWordStart, start);
            &&& 0 <= r.0 <= start
            &&& r.1 ==> 1 <= r.0 && r.0 < start && stop_at(
                text,
                scope,
                PredicateKind::WordStart,
                false,
                r.0,
            )
            &&& !r.1 ==> r.0 == 0
        }),
{
    lemma_scan_backward_finds_previous_boundary(
        text,
        scope,
        PredicateKind::WordStart,
        false,
        start,
    );
}

/// Law: the backward word-start motion undoes the forward one. From a
/// position that is itself a word-start boundary, moving to the next word
/// start (found or clamped at the end) and then to the previous word start
/// comes back exactly to where the chain stood — the two motions are
/// order-inverse along the chain of boundaries, apart from clamping at the
/// buffer edges.
pub proof fn lemma_prev_word_start_undoes_next(text: Seq<char>, scope: Seq<char>, start: int)
    requires
        0 <= start <= text.len(),
        stop_at(text, scope, PredicateKind::WordStart, false, start),
    ensures
        ({
            let fwd = spec_motion_result(text, scope, Motion::NextWordStart, start);
            spec_motion_result(text, scope, Motion::PrevWordStart, fwd.0) == (start, true)
        }),
{
    let fwd = spec_motion_result(text, scope, Motion::NextWordStart, start);
    lemma_scan_forward_finds_first_boundary(text, scope, PredicateKind::WordStart, false, start);
    assert(start < fwd.0 <= text.len());
    lemma_scan_backward_finds_previous_boundary(
        text,
        scope,
        PredicateKind::WordStart,
        false,
        fwd.0,
    );
    let bwd = spec_scan_backward(text, scope, PredicateKind::WordStart, false, false, fwd.0, fwd.0);
    if !bwd.1 {
        assert(!stop_at(text, scope, PredicateKind::WordStart, false, start));
        assert(false);
    }
    if bwd.0 > start {
        assert(!stop_at(text, scope, PredicateKind::WordStart, false, bwd.0));
        assert(false);
    }
    if bwd.0 < start {
        assert(!stop_at(text, scope, PredicateKind::WordStart, false, start));
        assert(false);
    }
}

/// Law: a word-start boundary never sits on whitespace: while the
/// right-hand character of a scanned pair is still whitespace the predicate
/// keeps skipping, so wherever a word-start motion reports found, the
/// character at the position reached is not whitespace.
pub proof fn lemma_word_start_never_lands_on_whitespace(
    text: Seq<char>,
    scope: Seq<char>,
    coalesce: bool,
    q: int,
)
    requires
        stop_at(text, scope, PredicateKind::WordStart, coalesce, q),
    ensures
        spec_classify(text[q], scope) != CharacterClass::Whitespace,
{
}

/// Law: the word-start scan skips whitespace. Scanning forward from inside a
/// run of whitespace characters reports no boundary while the right-hand
/// character is still whitespace, and reports found exactly at the first
/// character after the run, provided that character is not a newline (a
/// newline is crossed, and the boundary forced just after it instead).
pub proof fn lemma_whitespace_skip(
    text: Seq<char>,
    scope: Seq<char>,
    coalesce: bool,
    start: int,
    target: int,
)
    requires
        0 <= start < target < text.len(),
        forall|i: int|
            start <= i < target ==> spec_classify(text[i], scope) == CharacterClass::Whitespace,
        spec_classify(text[target], scope) != CharacterClass::Whitespace,
        text[target] != '\n',
    ensures
        spec_scan_forward(text, scope, PredicateKind::WordStart, coalesce, false, start, start)
            == (target, true),
{
    lemma_whitespace_skip_from(text, scope, coalesce, start, target, start);
}

proof fn lemma_whitespace_skip_from(
    text: Seq<char>,
    scope: Seq<char>,
    coalesce: bool,
    start: int,
    target: int,
    cursor: int,
)
    requires
        0 <= start < target < text.len(),
        start <= cursor <= target,
        forall|i: int|
            start <= i < target ==> spec_classify(text[i], scope) == CharacterClass::Whitespace,
        spec_classify(text[target], scope) != CharacterClass::Whitespace,
        text[target] != '\n',
    ensures
        spec_scan_forward(text, scope, PredicateKind::WordStart, coalesce, false, start, cursor)
            == (target, true),
    decreases target - cursor,
{
    if cursor == target {
        assert(spec_classify(text[target - 1], scope) == CharacterClass::Whitespace);
        assert(spec_boundary(
            PredicateKind::WordStart,
            coalesce,
            scope,
            text[target - 1],
            text[target],
        ));
    } else {
        assert(spec_classify(text[cursor], scope) == CharacterClass::Whitespace);
        assert(!spec_boundary(
            PredicateKind::WordStart,
            coalesce,
            scope,
            text[cursor - 1],
            text[cursor],
        ));
        lemma_whitespace_skip_from(text, scope, coalesce, start, target, cursor + 1);
    }
}

/// Law: a newline forces a word start. Scanning forward from the last
/// character of a non-empty line reports found at the first position of the
/// following line — whatever the class of that line's first character, as
/// long as it is not whitespace (whitespace there is skipped further) —
/// because the newline on the left of the pair forces the boundary.
pub proof fn lemma_newline_forces_word_start(
    text: Seq<char>,
    scope: Seq<char>,
    coalesce: bool,
    start: int,
)
    requires
        0 <= start,
        start + 2 < text.len(),
        text[start] != '\n',
        text[start + 1] == '\n',
        spec_classify(text[start + 2], scope) != CharacterClass::Whitespace,
    ensures
        spec_scan_forward(text, scope, PredicateKind::WordStart, coalesce, false, start, start)
            == (start + 2, true),
{
    assert(!spec_boundary(
        PredicateKind::WordStart,
        coalesce,
        scope,
        text[start],
        text[start + 1],
    ));
    assert(spec_boundary(
        PredicateKind::WordStart,
        coalesce,
        scope,
        text[start + 1],
        text[start + 2],
    ));
    assert(spec_scan_forward(text, scope, PredicateKind::WordStart, coalesce, false, start, start)
        == spec_scan_forward(text, scope, PredicateKind::WordStart, coalesce, false, start, start + 1));
    assert(spec_scan_forward(text, scope, PredicateKind::WordStart, coalesce, false, start, start + 1)
        == spec_scan_forward(text, scope, PredicateKind::WordStart, coalesce, false, start, start + 2));
    assert(spec_scan_forward(text, scope, PredicateKind::WordStart, coalesce, false, start, start + 2)
        == (start + 2, true));
}

/// Law: with no boundary ahead, a forward motion returns clamped, not
/// found, at the buffer's final position.
pub proof fn lemma_clamps_at_end(text: Seq<char>, scope: Seq<char>, motion: Motion, start: int)
    requires
        0 <= start <= text.len(),
        motion_direction(motion) == ScanDirection::Forward,
        forall|q: int|
            start < q < text.len() ==> !stop_at(
                text,
                scope,
                motion_kind(motion),
                motion_coalesces(motion),
                q,
            ),
    ensures
        spec_motion_result(text, scope, motion, start) == (text.len() as int, false),
{
    lemma_scan_forward_finds_first_boundary(
        text,
        scope,
        motion_kind(motion),
        motion_coalesces(motion),
        start,
    );
}

/// Law: a motion's outcome depends on the buffer text and the scope hint at
/// its head position alone. Two buffers that agree on their text and on the
/// scope at the head give every motion the same result, however their scopes
/// differ at the positions the scan crosses.
pub proof fn lemma_scope_stability(
    b1: &BufferSnapshot,
    b2: &BufferSnapshot,
    motion: Motion,
    head: int,
)
    requires
        b1.text() == b2.text(),
        b1.scope_at_spec(head) == b2.scope_at_spec(head),
    ensures
        spec_motion_result(b1.text(), b1.scope_at_spec(head), motion, head) == spec_motion_result(
            b2.text(),
            b2.scope_at_spec(head),
            motion,
            head,
        ),
{
}

} // verus!
