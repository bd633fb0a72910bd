//! The boundary scanner.
//!
//! A scan walks adjacent character pairs from a start position, one character
//! at a time in the chosen direction, and stops the first time the boundary
//! predicate holds between the pair, or when it runs out of text: the buffer
//! edge, or — under the single-line policy — the nearest newline. The result
//! records the position reached and whether a boundary was actually found
//! there ("found") or the scan ran off the available text ("clamped").
//!
//! The scan always advances at least one character before testing, so a
//! start position already sitting on a boundary still makes progress. The
//! scope hint is resolved once, at the start position, and used for every
//! classification of the scan.

use vstd::prelude::*;

use crate::buffer::{BufferSnapshot, Position};
use crate::classify::{
    classify, effective_class, spec_classify, spec_effective_class, CharacterClass, ScopeHint,
};

verus! {

/// Which way a scan walks.
#[derive(Clone, Copy, Debug, PartialEq, Eq, Structural)]
pub enum ScanDirection {
    Forward,
    Backward,
}

/// Whether a scan may cross newlines while searching, or stops at the first
/// line boundary.
#[derive(Clone, Copy, Debug, PartialEq, Eq, Structural)]
pub enum SpanPolicy {
    SingleLine,
    MultiLine,
}

/// The shape of the boundary test: the start of the next run, or the end of
/// the current one.
#[derive(Clone, Copy, Debug, PartialEq, Eq, Structural)]
pub enum PredicateKind {
    WordStart,
    WordEnd,
}

/// A boundary predicate, fresh for each scan: the kind of boundary looked
/// for, whether word and punctuation are coalesced into one class (the "long
/// word" variants), and the scan-local flag recording whether the pair seen
/// last showed a class transition.
#[derive(Clone, Copy, Debug, PartialEq, Eq, Structural)]
pub struct BoundaryPredicate {
    pub kind: PredicateKind,
    pub coalesce: bool,
    pub observed_change: bool,
}

/// Where a scan stopped, and whether a boundary was found there or the scan
/// was clamped at the edge of the available text.
#[derive(Clone, Copy, Debug, PartialEq, Eq, Structural)]
pub struct ScanResult {
    pub position: Position,
    pub found: bool,
}

/// A class transition worth stopping for: the comparison classes of the pair
/// differ and the right character is neither whitespace nor newline.
pub open spec fn spec_transition(left: char, right: char, scope: Seq<char>, coalesce: bool) -> bool {
    &&& spec_effective_class(left, scope, coalesce) != spec_effective_class(right, scope, coalesce)
    &&& spec_classify(right, scope) != CharacterClass::Whitespace
    &&& right != '\n'
}

/// The boundary decision for the pair `(left, right)`, `left` being the
/// earlier character in the text.
///
/// For a word start: a run of non-newline whitespace on the right is skipped
/// unconditionally; a newline on the left always forces a boundary, so the
/// first character of a new line is a fresh word start; otherwise a boundary
/// is exactly a class transition. For a word end: a boundary is exactly a
/// class transition.
pub open spec fn spec_boundary(
    kind: PredicateKind,
    coalesce: bool,
    scope: Seq<char>,
    left: char,
    right: char,
) -> bool {
    match kind {
        PredicateKind::WordStart => {
            if spec_classify(right, scope) == CharacterClass::Whitespace {
                false
            } else if left == '\n' {
                true
            } else {
                spec_transition(left, right, scope, coalesce)
            }
        },
        PredicateKind::WordEnd => spec_transition(left, right, scope, coalesce),
    }
}

impl BoundaryPredicate {
    pub fn new(kind: PredicateKind, coalesce: bool) -> (p: BoundaryPredicate)
        ensures
            p.kind == kind,
            p.coalesce == coalesce,
            !p.observed_change,
    {
        BoundaryPredicate { kind, coalesce, observed_change: false }
    }

    /// The ordinary next/previous word start predicate.
    pub fn word_start() -> (p: BoundaryPredicate)
        ensures
            p.kind == PredicateKind::WordStart,
            !p.coalesce,
            !p.observed_change,
    {
        BoundaryPredicate::new(PredicateKind::WordStart, false)
    }

    /// The ordinary next word end predicate.
    pub fn word_end() -> (p: BoundaryPredicate)
        ensures
            p.kind == PredicateKind::WordEnd,
            !p.coalesce,
            !p.observed_change,
    {
        BoundaryPredicate::new(PredicateKind::WordEnd, false)
    }

    /// The long-word start predicate: word and punctuation are one class.
    pub fn long_word_start() -> (p: BoundaryPredicate)
        ensures
            p.kind == PredicateKind::WordStart,
            p.coalesce,
            !p.observed_change,
    {
        BoundaryPredicate::new(PredicateKind::WordStart, true)
    }

    /// Evaluate the predicate on one pair, updating the scan-local
    /// transition flag.
    pub fn eval(&mut self, left: char, right: char, scope: &ScopeHint) -> (stop: bool)
        ensures
            final(self).kind == old(self).kind,
            final(self).coalesce == old(self).coalesce,
            final(self).observed_change == spec_transition(left, right, scope@, old(self).coalesce),
            stop == spec_boundary(old(self).kind, old(self).coalesce, scope@, left, right),
    {
        let left_class = effective_class(left, scope, self.coalesce);
        let right_class = effective_class(right, scope, self.coalesce);
        let right_plain = classify(right, scope);
        self.observed_change = left_class != right_class
            && right_plain != CharacterClass::Whitespace && right != '\n';
        match self.kind {
            PredicateKind::WordStart => {
                if right_plain == CharacterClass::Whitespace {
                    false
                } else if left == '\n' {
                    true
                } else {
                    self.observed_change
                }
            },
            PredicateKind::WordEnd => self.observed_change,
        }
    }
}

/// The position and found flag of a forward scan whose cursor stands at
/// `cursor`, having started at `start`: clamped at the buffer end, clamped
/// before a newline under the single-line policy, stopped at the first pair
/// past the start whose boundary test holds, or moved on one character.
pub open spec fn spec_scan_forward(
    text: Seq<char>,
    scope: Seq<char>,
    kind: PredicateKind,
    coalesce: bool,
    single_line: bool,
    start: int,
    cursor: int,
) -> (int, bool)
    decreases text.len() - cursor,
{
    if cursor >= text.len() {
        (text.len() as int, false)
    } else if single_line && text[cursor] == '\n' {
        (cursor, false)
    } else if start < cursor && spec_boundary(kind, coalesce, scope, text[cursor - 1], text[cursor]) {
        (cursor, true)
    } else {
        spec_scan_forward(text, scope, kind, coalesce, single_line, start, cursor + 1)
    }
}

/// The mirror of `spec_scan_forward` for a backward scan: clamped at the
/// buffer start, clamped after a newline under the single-line policy, or
/// stopped at the first pair before the start whose boundary test holds. The
/// pair is still read in text order: `text[cursor - 1]` on the left.
pub open spec fn spec_scan_backward(
    text: Seq<char>,
    scope: Seq<char>,
    kind: PredicateKind,
    coalesce: bool,
    single_line: bool,
    start: int,
    cursor: int,
) -> (int, bool)
    decreases cursor,
{
    if cursor <= 0 {
        (0, false)
    } else if single_line && text[cursor - 1] == '\n' {
        (cursor, false)
    } else if cursor < start && spec_boundary(kind, coalesce, scope, text[cursor - 1], text[cursor]) {
        (cursor, true)
    } else {
        spec_scan_backward(text, scope, kind, coalesce, single_line, start, cursor - 1)
    }
}

/// What a whole scan returns, as a function of the text, the scope extras in
/// force at the start position, and the scan parameters.
pub open spec fn spec_scan(
    text: Seq<char>,
    scope: Seq<char>,
    direction: ScanDirection,
    policy: SpanPolicy,
    kind: PredicateKind,
    coalesce: bool,
    start: int,
) -> (int, bool) {
    let single_line = policy == SpanPolicy::SingleLine;
    match direction {
        ScanDirection::Forward => spec_scan_forward(text, scope, kind, coalesce, single_line, start, start),
        ScanDirection::Backward => spec_scan_backward(text, scope, kind, coalesce, single_line, start, start),
    }
}

/// Walk the buffer from `start` in `direction`, testing `predicate` on each
/// adjacent character pair after advancing at least one character, until the
/// predicate holds (found) or the text runs out (clamped). Classification
/// uses the scope hint at `start` for the entire scan.
pub fn scan(
    buffer: &BufferSnapshot,
    start: Position,
    direction: ScanDirection,
    policy: SpanPolicy,
    predicate: BoundaryPredicate,
) -> (r: ScanResult)
    requires
        buffer.wf(),
        start.offset <= buffer.text().len(),
    ensures
        (r.position.offset as int, r.found) == spec_scan(
            buffer.text(),
            buffer.scope_at_spec(start.offset as int),
            direction,
            policy,
            predicate.kind,
            predicate.coalesce,
            start.offset as int,
        ),
{
    let ghost text = buffer.text();
    let ghost scope_spec = buffer.scope_at_spec(start.offset as int);
    let n = buffer.len();
    let s = start.offset;
    let single_line = policy == SpanPolicy::SingleLine;
    let default_scope = ScopeHint { extra_word_chars: Vec::new() };
    let scope: &ScopeHint = if s < n {
        buffer.scope_ref(s)
    } else {
        &default_scope
    };
    proof {
        assert(scope@ =~= scope_spec);
    }
    let mut pred = predicate;
    match direction {
        ScanDirection::Forward => {
            let mut p = s;
            loop
                invariant
                    buffer.wf(),
                    text == buffer.text(),
                    n == text.len(),
                    s == start.offset,
                    s <= p <= n,
                    scope_spec == buffer.scope_at_spec(s as int),
                    scope@ == scope_spec,
                    pred.kind == predicate.kind,
                    pred.coalesce == predicate.coalesce,
                    single_line == (policy == SpanPolicy::SingleLine),
                    spec_scan_forward(text, scope_spec, pred.kind, pred.coalesce, single_line, s as int, p as int)
                        == spec_scan(text, scope_spec, direction, policy, pred.kind, pred.coalesce, s as int),
                    direction == ScanDirection::Forward,
                decreases n - p,
            {
                if p >= n {
                    return ScanResult { position: Position { offset: n }, found: false };
                }
                let right = buffer.char_at(p);
                if single_line && right == '\n' {
                    return ScanResult { position: Position { offset: p }, found: false };
                }
                if p > s {
                    let left = buffer.char_at(p - 1);
                    let stop = pred.eval(left, right, scope);
                    if stop {
                        return ScanResult { position: Position { offset: p }, found: true };
                    }
                }
                p = p + 1;
            }
        },
        ScanDirection::Backward => {
            let mut p = s;
            loop
                invariant
                    buffer.wf(),
                    text == buffer.text(),
                    n == text.len(),
                    s == start.offset,
                    p <= s,
                    s <= n,
                    scope_spec == buffer.scope_at_spec(s as int),
                    scope@ == scope_spec,
                    pred.kind == predicate.kind,
                    pred.coalesce == predicate.coalesce,
                    single_line == (policy == SpanPolicy::SingleLine),
                    spec_scan_backward(text, scope_spec, pred.kind, pred.coalesce, single_line, s as int, p as int)
                        == spec_scan(text, scope_spec, direction, policy, pred.kind, pred.coalesce, s as int),
                    direction == ScanDirection::Backward,
                decreases p,
            {
                if p == 0 {
                    return ScanResult { position: Position { offset: 0 }, found: false };
                }
                let left = buffer.char_at(p - 1);
                if single_line && left == '\n' {
                    return ScanResult { position: Position { offset: p }, found: false };
                }
                if p < s {
                    let right = buffer.char_at(p);
                    let stop = pred.eval(left, right, scope);
                    if stop {
                        return ScanResult { position: Position { offset: p }, found: true };
                    }
                }
                p = p - 1;
            }
        },
    }
}

} // verus!
