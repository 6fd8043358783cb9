use wcount::Wc;

fn stats(content: &str) -> Wc {
    Wc::new(String::from("test.txt"), String::from(content))
}

#[test]
fn byte_count_ascii() {
    let w = stats("hello world\n").count();
    assert_eq!(w.count, 12);
}

#[test]
fn byte_count_counts_encoded_bytes() {
    // One two-byte character: the byte count exceeds the character count.
    let w = stats("h\u{e9}llo\n").count();
    assert_eq!(w.count, 7);
}

#[test]
fn char_count_ascii() {
    let w = stats("hello world\n").multibyte();
    assert_eq!(w.multibyte, 12);
}

#[test]
fn char_count_counts_scalar_values() {
    // The two-byte character counts once.
    let w = stats("h\u{e9}llo\n").multibyte();
    assert_eq!(w.multibyte, 6);
}

#[test]
fn word_count_basic() {
    let w = stats("hello world\n").word();
    assert_eq!(w.words, 2);
}

#[test]
fn word_count_empty_is_zero() {
    let w = stats("").word();
    assert_eq!(w.words, 0);
}

#[test]
fn word_count_whitespace_only_is_zero() {
    let w = stats(" \t\r\n  ").word();
    assert_eq!(w.words, 0);
}

#[test]
fn word_count_runs_of_separators() {
    let w = stats("  a \t b\r\nc  ").word();
    assert_eq!(w.words, 3);
}

#[test]
fn word_count_vertical_tab_and_form_feed_separate() {
    let w = stats("a\u{000b}b\u{000c}c").word();
    assert_eq!(w.words, 3);
}

#[test]
fn word_count_non_ascii_whitespace_does_not_separate() {
    // U+00A0 no-break space is whitespace but not ASCII whitespace.
    let w = stats("a\u{00a0}b").word();
    assert_eq!(w.words, 1);
}

#[test]
fn line_count_single_terminator() {
    // One line-feed terminator, decremented by one under the engine's
    // convention: the final line feed opens no new line.
    let w = stats("hello world\n").line();
    assert_eq!(w.lines, 0);
}

#[test]
fn line_count_three_terminators() {
    let w = stats("a\nb\nc\n").line();
    assert_eq!(w.lines, 2);
}

#[test]
fn line_count_trailing_fragment_not_counted() {
    // Two terminators; the unterminated fragment after the last one does not
    // count as a line.
    let w = stats("a\nb\nc").line();
    assert_eq!(w.lines, 1);
}

#[test]
fn line_count_empty_clamps_to_zero() {
    // No terminator at all: the decrement is clamped instead of underflowing.
    let w = stats("").line();
    assert_eq!(w.lines, 0);
}

#[test]
fn line_count_no_terminator_clamps_to_zero() {
    let w = stats("abc").line();
    assert_eq!(w.lines, 0);
}

#[test]
fn line_count_idempotent() {
    let once = stats("a\nb\nc\n").line();
    let first = once.lines;
    let twice = once.line();
    assert_eq!(twice.lines, first);
    assert_eq!(first, 2);
}

#[test]
fn new_starts_with_all_counts_zero() {
    let w = stats("a\nb c\n");
    assert_eq!(w.count, 0);
    assert_eq!(w.lines, 0);
    assert_eq!(w.words, 0);
    assert_eq!(w.multibyte, 0);
}

#[test]
fn combined_matches_single_invocations() {
    let content = "one two\nthree\n";
    let all = stats(content).count().line().word().multibyte();
    assert_eq!(all.count, stats(content).count().count);
    assert_eq!(all.lines, stats(content).line().lines);
    assert_eq!(all.words, stats(content).word().words);
    assert_eq!(all.multibyte, stats(content).multibyte().multibyte);
}

#[test]
fn compute_count_flag_wins_over_all_others() {
    let w = stats("a b\n").compute(true, true, true, true);
    assert_eq!(w.count, 4);
    assert_eq!(w.lines, 0);
    assert_eq!(w.words, 0);
    assert_eq!(w.multibyte, 0);
}

#[test]
fn compute_line_flag_alone() {
    let w = stats("a b\nc\n").compute(false, true, true, true);
    assert_eq!(w.lines, 1);
    assert_eq!(w.count, 0);
    assert_eq!(w.words, 0);
    assert_eq!(w.multibyte, 0);
}

#[test]
fn compute_multibyte_beats_word() {
    let w = stats("a b\n").compute(false, false, true, true);
    assert_eq!(w.multibyte, 4);
    assert_eq!(w.words, 0);
}

#[test]
fn compute_word_flag_alone() {
    let w = stats("a b\n").compute(false, false, true, false);
    assert_eq!(w.words, 2);
    assert_eq!(w.count, 0);
    assert_eq!(w.lines, 0);
    assert_eq!(w.multibyte, 0);
}

#[test]
fn compute_no_flags_computes_all_four() {
    let w = stats("hello world\n").compute(false, false, false, false);
    assert_eq!(w.count, 12);
    assert_eq!(w.multibyte, 12);
    assert_eq!(w.words, 2);
    assert_eq!(w.lines, 0);
}

#[test]
fn end_to_end_hello_world() {
    let w = stats("hello world\n").compute(false, false, false, false);
    assert_eq!(w.count, 12);
    assert_eq!(w.multibyte, 12);
    assert_eq!(w.words, 2);
    // One terminator, minus the convention adjustment.
    assert_eq!(w.lines, 0);
    assert_eq!(w.display(), "12 12 2 test.txt");
}

#[test]
fn end_to_end_multibyte() {
    let w = stats("h\u{e9}llo\n").compute(false, false, false, false);
    assert_eq!(w.count, 7);
    assert_eq!(w.multibyte, 6);
    assert_eq!(w.words, 1);
    assert_eq!(w.lines, 0);
}

#[test]
fn empty_content_displays_path_alone() {
    let w = stats("").compute(false, false, false, false);
    assert_eq!(w.display(), "test.txt");
}

#[test]
fn char_count_never_exceeds_byte_count() {
    for content in ["", "abc", "h\u{e9}llo", "\u{1f600}\u{1f600}", "a b\nc\n"] {
        let w = stats(content).compute(false, false, false, false);
        assert!(w.multibyte <= w.count);
    }
}
