//! Word-boundary motions for a modal text editor.
//!
//! The crate classifies characters into word, punctuation and whitespace
//! classes (optionally adjusted by a lexical scope hint), and walks a buffer
//! snapshot character pair by character pair to find the position where a
//! word motion should stop: the next or previous word start, or the next
//! word end, with a "long word" variant that treats word and punctuation
//! characters as one class.

pub mod buffer;
pub mod classify;
pub mod laws;
pub mod motion;
pub mod scan;
