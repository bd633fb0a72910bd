//! Character classification.
//!
//! Every character maps to exactly one of three classes: word, punctuation or
//! whitespace. Newline is deliberately kept out of the whitespace class: the
//! scanner treats it as a boundary-forcing sentinel and checks it by identity,
//! so here it falls back to punctuation like every other unclassified
//! character. A lexical scope hint may widen the word class (for example, a
//! scope may treat `-` as a word character inside identifiers).

use vstd::prelude::*;

verus! {

/// The class of a single character, as seen by the boundary predicates.
#[derive(Clone, Copy, Debug, PartialEq, Eq, Structural)]
pub enum CharacterClass {
    Word,
    Punctuation,
    Whitespace,
}

/// A lexical scope hint: the extra characters that the scope classifies as
/// word characters, beyond letters, digits and `_`. An empty list is the
/// default scope.
pub struct ScopeHint {
    pub extra_word_chars: Vec<char>,
}

impl View for ScopeHint {
    type V = Seq<char>;

    open spec fn view(&self) -> Seq<char> {
        self.extra_word_chars@
    }
}

impl ScopeHint {
    /// The default scope: no extra word characters.
    pub fn default_scope() -> (s: ScopeHint)
        ensures
            s@ == Seq::<char>::empty(),
    {
        let s = ScopeHint { extra_word_chars: Vec::new() };
        proof {
            assert(s@ =~= Seq::<char>::empty());
        }
        s
    }
}

/// Whitespace for classification purposes: blank characters other than
/// newline.
pub open spec fn is_space_char(c: char) -> bool {
    c == ' ' || c == '\t' || c == '\r'
}

/// Word characters of every scope: ASCII letters, digits and `_`.
pub open spec fn is_default_word_char(c: char) -> bool {
    (97 <= c as u32 && c as u32 <= 122)  // 'a' ..= 'z'
    || (65 <= c as u32 && c as u32 <= 90)  // 'A' ..= 'Z'
    || (48 <= c as u32 && c as u32 <= 57)  // '0' ..= '9'
    || c == '_'
}

/// The classification of `c` under the scope whose extra word characters are
/// `scope`. Total: every character gets a class, and anything unclassified is
/// punctuation. Newline is never whitespace here, and no scope can turn it
/// into a word character.
pub open spec fn spec_classify(c: char, scope: Seq<char>) -> CharacterClass {
    if is_space_char(c) {
        CharacterClass::Whitespace
    } else if c == '\n' {
        CharacterClass::Punctuation
    } else if is_default_word_char(c) || scope.contains(c) {
        CharacterClass::Word
    } else {
        CharacterClass::Punctuation
    }
}

/// The classification used for boundary comparison: with `coalesce` set (the
/// "long word" variants), punctuation counts as word, so only transitions to
/// and from whitespace remain.
pub open spec fn spec_effective_class(c: char, scope: Seq<char>, coalesce: bool) -> CharacterClass {
    let k = spec_classify(c, scope);
    if coalesce && k == CharacterClass::Punctuation {
        CharacterClass::Word
    } else {
        k
    }
}

fn scope_lists(scope: &ScopeHint, c: char) -> (b: bool)
    ensures
        b == scope@.contains(c),
{
    let mut i: usize = 0;
    while i < scope.extra_word_chars.len()
        invariant
            i <= scope.extra_word_chars@.len(),
            forall|j: int| 0 <= j < i ==> scope.extra_word_chars@[j] != c,
        decreases scope.extra_word_chars@.len() - i,
    {
        if scope.extra_word_chars[i] == c {
            proof {
                assert(scope@[i as int] == c);
            }
            return true;
        }
        i = i + 1;
    }
    false
}

/// Classify one character under the given scope hint.
pub fn classify(c: char, scope: &ScopeHint) -> (k: CharacterClass)
    ensures
        k == spec_classify(c, scope@),
{
    if c == ' ' || c == '\t' || c == '\r' {
        CharacterClass::Whitespace
    } else if c == '\n' {
        CharacterClass::Punctuation
    } else {
        let u = c as u32;
        if (97 <= u && u <= 122) || (65 <= u && u <= 90) || (48 <= u && u <= 57) || c == '_' {
            CharacterClass::Word
        } else if scope_lists(scope, c) {
            CharacterClass::Word
        } else {
            CharacterClass::Punctuation
        }
    }
}

/// Classify one character for boundary comparison, coalescing punctuation
/// into the word class when asked to.
pub fn effective_class(c: char, scope: &ScopeHint, coalesce: bool) -> (k: CharacterClass)
    ensures
        k == spec_effective_class(c, scope@, coalesce),
{
    let k = classify(c, scope);
    if coalesce && k == CharacterClass::Punctuation {
        CharacterClass::Word
    } else {
        k
    }
}

} // verus!
