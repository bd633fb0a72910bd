//! The buffer snapshot a scan walks over.
//!
//! A position is a flat character offset: offset `i` sits between the
//! characters at indices `i - 1` and `i`, so offsets run from `0` (buffer
//! start) to the character count (buffer end). The snapshot pairs each
//! character with the lexical scope hint in force at its position; the
//! scanner resolves the hint once, at the start position, and holds it fixed
//! for the whole scan.

use vstd::prelude::*;

use crate::classify::ScopeHint;

verus! {

/// A coordinate into a buffer: the number of characters before it. Totally
/// ordered by `offset`; one character forward or back is one step of
/// `offset`.
#[derive(Clone, Copy, Debug, PartialEq, Eq, Structural)]
pub struct Position {
    pub offset: usize,
}

impl Position {
    pub fn new(offset: usize) -> (p: Position)
        ensures
            p.offset == offset,
    {
        Position { offset }
    }
}

/// An immutable snapshot of buffer text, with the scope hint at each
/// character position. The scanner never mutates it.
pub struct BufferSnapshot {
    pub chars: Vec<char>,
    pub scopes: Vec<ScopeHint>,
}

impl BufferSnapshot {
    /// Well-formed: one scope hint per character.
    pub open spec fn wf(&self) -> bool {
        self.scopes@.len() == self.chars@.len()
    }

    /// The text as a sequence of characters.
    pub open spec fn text(&self) -> Seq<char> {
        self.chars@
    }

    /// The extra word characters of the scope at position `i`; the default
    /// (empty) scope outside the buffer, in particular at the end position.
    pub open spec fn scope_at_spec(&self, i: int) -> Seq<char> {
        if 0 <= i < self.scopes@.len() {
            self.scopes@[i]@
        } else {
            Seq::empty()
        }
    }

    /// A snapshot of the given text with the default scope everywhere.
    pub fn from_chars(chars: Vec<char>) -> (b: BufferSnapshot)
        ensures
            b.wf(),
            b.text() == chars@,
            forall|i: int| b.scope_at_spec(i) == Seq::<char>::empty(),
    {
        let n = chars.len();
        let mut scopes: Vec<ScopeHint> = Vec::new();
        let mut i: usize = 0;
        while i < n
            invariant
                i <= n,
                scopes@.len() == i,
                forall|j: int| 0 <= j < i ==> scopes@[j]@.len() == 0,
            decreases n - i,
        {
            scopes.push(ScopeHint { extra_word_chars: Vec::new() });
            i = i + 1;
        }
        let b = BufferSnapshot { chars, scopes };
        proof {
            assert forall|k: int| b.scope_at_spec(k) == Seq::<char>::empty() by {
                assert(b.scope_at_spec(k) =~= Seq::<char>::empty());
            }
        }
        b
    }

    /// A snapshot of the given text, with the scope hint for each character
    /// supplied by the caller.
    pub fn with_scopes(chars: Vec<char>, scopes: Vec<ScopeHint>) -> (b: BufferSnapshot)
        requires
            chars@.len() == scopes@.len(),
        ensures
            b.wf(),
            b.text() == chars@,
            forall|i: int| 0 <= i < scopes@.len() ==> b.scope_at_spec(i) == scopes@[i]@,
    {
        BufferSnapshot { chars, scopes }
    }

    /// The number of characters in the buffer; also its end position.
    pub fn len(&self) -> (n: usize)
        ensures
            n == self.text().len(),
    {
        self.chars.len()
    }

    /// The character at index `i`.
    pub fn char_at(&self, i: usize) -> (c: char)
        requires
            i < self.text().len(),
        ensures
            c == self.text()[i as int],
    {
        self.chars[i]
    }

    /// The scope hint at position `i`.
    pub fn scope_ref(&self, i: usize) -> (s: &ScopeHint)
        requires
            self.wf(),
            i < self.text().len(),
        ensures
            s@ == self.scope_at_spec(i as int),
    {
        &self.scopes[i]
    }
}

} // verus!
