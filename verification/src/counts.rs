//! Counting rules: bytes, Unicode scalar values, lines, and words of a text.

use vstd::prelude::*;
use vstd::string::StrSliceExecFns;
use vstd::utf8::encode_scalar;
use vstd::utf8::encode_utf8;

verus! {

/// Number of bytes in the UTF-8 encoding of the given text.
pub open spec fn byte_count(s: Seq<char>) -> nat {
    encode_utf8(s).len()
}

/// Number of Unicode scalar values in the given text.
pub open spec fn char_count(s: Seq<char>) -> nat {
    s.len()
}

/// Length in bytes of the UTF-8 encoding of `s`.
pub fn byte_len(s: &str) -> (n: usize)
    ensures
        n == byte_count(s@),
{
    s.as_bytes().len()
}

/// Number of Unicode scalar values in `s`.
pub fn char_len(s: &str) -> (n: usize)
    ensures
        n == char_count(s@),
{
    s.unicode_len()
}

/// Number of line-feed characters in the given text.
pub open spec fn newline_count(s: Seq<char>) -> nat
    decreases s.len(),
{
    if s.len() == 0 {
        0
    } else {
        (if s[0] == '\n' {
            1nat
        } else {
            0nat
        }) + newline_count(s.drop_first())
    }
}

/// Number of lines of the given text: the raw count of line-feed terminators,
/// decremented by one so that the final line feed before end of input does
/// not start a new empty line — matching how the system word-count tool
/// behaves on some platforms. Text with no line feed at all has zero lines
/// (the decrement is clamped rather than allowed to underflow).
pub open spec fn line_count(s: Seq<char>) -> nat {
    if newline_count(s) == 0 {
        0
    } else {
        (newline_count(s) - 1) as nat
    }
}

/// Number of line-feed characters in `s`.
pub fn newline_len(s: &str) -> (n: usize)
    ensures
        n == newline_count(s@),
{
    let total: usize = s.unicode_len();
    let mut n: usize = 0;
    proof {
        assert(s@.skip(0) =~= s@);
    }
    for c in it: s.chars()
        invariant
            it.seq() == s@,
            total == s@.len(),
            n <= it.index(),
            n + newline_count(s@.skip(it.index())) == newline_count(s@),
    {
        proof {
            let k: int = it.index();
            assert(s@.skip(k).drop_first() =~= s@.skip(k + 1));
            assert(s@.skip(k)[0] == s@[k]);
        }
        if c == '\n' {
            n = n + 1;
        }
    }
    proof {
        assert(s@.skip(s@.len() as int) =~= Seq::<char>::empty());
    }
    n
}

/// Number of lines in `s`, under the clamped decrement convention of
/// [`line_count`].
pub fn line_len(s: &str) -> (n: usize)
    ensures
        n == line_count(s@),
{
    let nl: usize = newline_len(s);
    if nl == 0 {
        0
    } else {
        nl - 1
    }
}

/// Whether `c` is one of the six ASCII whitespace characters that separate
/// words: space, tab, line feed, carriage return, vertical tab, form feed.
/// Non-ASCII whitespace does not separate words.
pub open spec fn is_word_separator(c: char) -> bool {
    c == ' ' || c == '\t' || c == '\n' || c == '\r' || c == '\x0b' || c == '\x0c'
}

/// Number of maximal runs of non-separator characters in `s`, given whether
/// the character just before `s` belongs to a word.
pub open spec fn word_count_from(s: Seq<char>, in_word: bool) -> nat
    decreases s.len(),
{
    if s.len() == 0 {
        0
    } else {
        (if !is_word_separator(s[0]) && !in_word {
            1nat
        } else {
            0nat
        }) + word_count_from(s.drop_first(), !is_word_separator(s[0]))
    }
}

/// Number of words of the given text: maximal runs of characters separated by
/// one or more ASCII whitespace characters.
pub open spec fn word_count(s: Seq<char>) -> nat {
    word_count_from(s, false)
}

/// Whether `c` separates words.
pub fn is_separator(c: char) -> (b: bool)
    ensures
        b == is_word_separator(c),
{
    c == ' ' || c == '\t' || c == '\n' || c == '\r' || c == '\x0B' || c == '\x0C'
}

/// Number of words in `s`.
pub fn word_len(s: &str) -> (n: usize)
    ensures
        n == word_count(s@),
{
    let total: usize = s.unicode_len();
    let mut n: usize = 0;
    let mut in_word = false;
    proof {
        assert(s@.skip(0) =~= s@);
    }
    for c in it: s.chars()
        invariant
            it.seq() == s@,
            total == s@.len(),
            n <= it.index(),
            n + word_count_from(s@.skip(it.index()), in_word) == word_count(s@),
    {
        proof {
            let k: int = it.index();
            assert(s@.skip(k).drop_first() =~= s@.skip(k + 1));
            assert(s@.skip(k)[0] == s@[k]);
        }
        let sep = is_separator(c);
        if !sep && !in_word {
            n = n + 1;
        }
        in_word = !sep;
    }
    proof {
        assert(s@.skip(s@.len() as int) =~= Seq::<char>::empty());
    }
    n
}

/// Empty text contains no words.
pub proof fn lemma_word_count_empty()
    ensures
        word_count(Seq::<char>::empty()) == 0,
{
}

/// A text never has more Unicode scalar values than encoded bytes: every
/// scalar value occupies at least one byte of its UTF-8 encoding.
pub proof fn lemma_char_count_le_byte_count(s: Seq<char>)
    ensures
        char_count(s) <= byte_count(s),
    decreases s.len(),
{
    if s.len() > 0 {
        lemma_char_count_le_byte_count(s.drop_first());
        assert(encode_scalar(s[0] as u32).len() >= 1);
    }
}

} // verus!
