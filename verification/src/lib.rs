//! Verified counting engine for a word-count utility.
//!
//! Given the full text of a file, the engine computes any subset of four
//! statistics — byte count, line count, word count, and Unicode character
//! count — and renders them as a single summary line next to the file path.
//! All counting rules and the formatting policy are stated as contracts over
//! the text's character sequence and proved.

pub mod counts;
pub mod format;
pub mod stats;

pub use stats::Wc;
