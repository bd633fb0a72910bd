use helix_motion::classify::{classify, CharacterClass, ScopeHint};

fn default_scope() -> ScopeHint {
    ScopeHint { extra_word_chars: Vec::new() }
}

#[test]
fn letters_digits_underscore_are_word() {
    let s = default_scope();
    assert_eq!(classify('a', &s), CharacterClass::Word);
    assert_eq!(classify('Z', &s), CharacterClass::Word);
    assert_eq!(classify('0', &s), CharacterClass::Word);
    assert_eq!(classify('9', &s), CharacterClass::Word);
    assert_eq!(classify('_', &s), CharacterClass::Word);
}

#[test]
fn blanks_are_whitespace_but_newline_is_not() {
    let s = default_scope();
    assert_eq!(classify(' ', &s), CharacterClass::Whitespace);
    assert_eq!(classify('\t', &s), CharacterClass::Whitespace);
    assert_eq!(classify('\r', &s), CharacterClass::Whitespace);
    assert_eq!(classify('\n', &s), CharacterClass::Punctuation);
}

#[test]
fn unclassified_characters_default_to_punctuation() {
    let s = default_scope();
    assert_eq!(classify('-', &s), CharacterClass::Punctuation);
    assert_eq!(classify('.', &s), CharacterClass::Punctuation);
    assert_eq!(classify('#', &s), CharacterClass::Punctuation);
}

#[test]
fn scope_hint_widens_word_class() {
    let s = ScopeHint { extra_word_chars: vec!['-'] };
    assert_eq!(classify('-', &s), CharacterClass::Word);
    assert_eq!(classify('.', &s), CharacterClass::Punctuation);
    // No scope turns newline into a word character.
    let odd = ScopeHint { extra_word_chars: vec!['\n', ' '] };
    assert_eq!(classify('\n', &odd), CharacterClass::Punctuation);
    assert_eq!(classify(' ', &odd), CharacterClass::Whitespace);
}
