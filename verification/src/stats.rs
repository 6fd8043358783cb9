//! The statistics record of one file and its computations.

use vstd::prelude::*;
use vstd::string::StringExecFns;
use crate::counts::byte_count;
use crate::counts::byte_len;
use crate::counts::char_count;
use crate::counts::char_len;
use crate::counts::lemma_char_count_le_byte_count;
use crate::counts::line_count;
use crate::counts::line_len;
use crate::counts::word_count;
use crate::counts::word_len;
use crate::format::append_field;
use crate::format::field;

verus! {

/// Size statistics of one text file. `value` holds the full decoded content;
/// each count starts at zero and is filled only by its own computation.
pub struct Wc {
    /// Path of the file, kept only for display.
    pub path: String,
    /// The full decoded content of the file.
    pub value: String,
    /// Byte count, once computed.
    pub count: usize,
    /// Line count, once computed.
    pub lines: usize,
    /// Word count, once computed.
    pub words: usize,
    /// Unicode scalar value count, once computed.
    pub multibyte: usize,
}

/// The byte-count computation: it fills `count` with the byte count of the
/// content and touches nothing else.
pub open spec fn count_step(pre: Wc, post: Wc) -> bool {
    &&& post.path == pre.path
    &&& post.value == pre.value
    &&& post.count == byte_count(pre.value@)
    &&& post.lines == pre.lines
    &&& post.words == pre.words
    &&& post.multibyte == pre.multibyte
}

/// The line-count computation: it fills `lines` with the line count of the
/// content and touches nothing else.
pub open spec fn line_step(pre: Wc, post: Wc) -> bool {
    &&& post.path == pre.path
    &&& post.value == pre.value
    &&& post.count == pre.count
    &&& post.lines == line_count(pre.value@)
    &&& post.words == pre.words
    &&& post.multibyte == pre.multibyte
}

/// The word-count computation: it fills `words` with the word count of the
/// content and touches nothing else.
pub open spec fn word_step(pre: Wc, post: Wc) -> bool {
    &&& post.path == pre.path
    &&& post.value == pre.value
    &&& post.count == pre.count
    &&& post.lines == pre.lines
    &&& post.words == word_count(pre.value@)
    &&& post.multibyte == pre.multibyte
}

/// The character-count computation: it fills `multibyte` with the number of
/// Unicode scalar values of the content and touches nothing else.
pub open spec fn multibyte_step(pre: Wc, post: Wc) -> bool {
    &&& post.path == pre.path
    &&& post.value == pre.value
    &&& post.count == pre.count
    &&& post.lines == pre.lines
    &&& post.words == pre.words
    &&& post.multibyte == char_count(pre.value@)
}

/// All four computations together, on the same content.
pub open spec fn all_counts_step(pre: Wc, post: Wc) -> bool {
    &&& post.path == pre.path
    &&& post.value == pre.value
    &&& post.count == byte_count(pre.value@)
    &&& post.lines == line_count(pre.value@)
    &&& post.words == word_count(pre.value@)
    &&& post.multibyte == char_count(pre.value@)
}

/// The summary line: line count, character count, byte count and word count,
/// each rendered as its decimal value with one trailing space and wholly
/// omitted when zero, followed by the file path.
pub open spec fn display_line(w: Wc) -> Seq<char> {
    field(w.lines as nat) + field(w.multibyte as nat) + field(w.count as nat) + field(
        w.words as nat,
    ) + w.path@
}

impl Wc {
    /// A fresh record for the given path and decoded content, with every
    /// count still zero.
    pub fn new(path: String, value: String) -> (w: Wc)
        ensures
            w.path == path,
            w.value == value,
            w.count == 0,
            w.lines == 0,
            w.words == 0,
            w.multibyte == 0,
    {
        Wc { path, value, count: 0, lines: 0, words: 0, multibyte: 0 }
    }

    /// Computes the byte count of the content: the length of its UTF-8
    /// encoding, not the number of characters.
    pub fn count(self) -> (r: Wc)
        ensures
            count_step(self, r),
    {
        let count: usize = byte_len(self.value.as_str());
        Wc { count, ..self }
    }

    /// Computes the line count of the content: the number of line-feed
    /// terminators, decremented by one so that the final line feed before end
    /// of input does not open a new empty line. Content without any line feed
    /// has zero lines: the decrement is clamped instead of underflowing.
    pub fn line(self) -> (r: Wc)
        ensures
            line_step(self, r),
    {
        let lines: usize = line_len(self.value.as_str());
        Wc { lines, ..self }
    }

    /// Computes the word count of the content: maximal runs of characters
    /// separated by ASCII whitespace.
    pub fn word(self) -> (r: Wc)
        ensures
            word_step(self, r),
    {
        let words: usize = word_len(self.value.as_str());
        Wc { words, ..self }
    }

    /// Computes the character count of the content: the number of Unicode
    /// scalar values, each counted once whatever its encoded width.
    pub fn multibyte(self) -> (r: Wc)
        ensures
            multibyte_step(self, r),
    {
        let multibyte: usize = char_len(self.value.as_str());
        Wc { multibyte, ..self }
    }

    /// Applies the single-flag-wins priority chain of the command line: the
    /// byte count alone if requested; else the line count alone; else the
    /// character count alone; else the word count alone; and all four
    /// together when no flag is set.
    pub fn compute(self, count: bool, line: bool, word: bool, multibyte: bool) -> (r: Wc)
        ensures
            count ==> count_step(self, r),
            !count && line ==> line_step(self, r),
            !count && !line && multibyte ==> multibyte_step(self, r),
            !count && !line && !multibyte && word ==> word_step(self, r),
            !count && !line && !multibyte && !word ==> all_counts_step(self, r),
    {
        if count {
            self.count()
        } else if line {
            self.line()
        } else if multibyte {
            self.multibyte()
        } else if word {
            self.word()
        } else {
            self.count().line().word().multibyte()
        }
    }

    /// Renders the summary line for this record.
    pub fn display(&self) -> (out: String)
        ensures
            out@ == display_line(*self),
    {
        let mut out = String::new();
        append_field(&mut out, self.lines);
        append_field(&mut out, self.multibyte);
        append_field(&mut out, self.count);
        append_field(&mut out, self.words);
        out.append(self.path.as_str());
        proof {
            assert(out@ =~= display_line(*self));
        }
        out
    }
}

/// Law: the line-count computation is idempotent. It is a pure function of
/// the content, which it preserves, so invoking it twice yields the same
/// value both times.
pub proof fn lemma_line_idempotent(w: Wc, once: Wc, twice: Wc)
    requires
        line_step(w, once),
        line_step(once, twice),
    ensures
        twice.lines == once.lines,
{
}

/// Law: chaining all four computations yields the same individual values as
/// invoking each computation alone on the same content — the computations
/// are order-independent and never contaminate one another's fields.
pub proof fn lemma_combined_matches_single(
    w: Wc,
    c1: Wc,
    c2: Wc,
    c3: Wc,
    c4: Wc,
    only_count: Wc,
    only_line: Wc,
    only_word: Wc,
    only_multibyte: Wc,
)
    requires
        count_step(w, c1),
        line_step(c1, c2),
        word_step(c2, c3),
        multibyte_step(c3, c4),
        count_step(w, only_count),
        line_step(w, only_line),
        word_step(w, only_word),
        multibyte_step(w, only_multibyte),
    ensures
        all_counts_step(w, c4),
        c4.count == only_count.count,
        c4.lines == only_line.lines,
        c4.words == only_word.words,
        c4.multibyte == only_multibyte.multibyte,
{
}

/// Law: once all four counts are computed, the character count never exceeds
/// the byte count.
pub proof fn lemma_multibyte_le_count(w: Wc, post: Wc)
    requires
        all_counts_step(w, post),
    ensures
        post.multibyte <= post.count,
{
    lemma_char_count_le_byte_count(w.value@);
}

} // verus!
