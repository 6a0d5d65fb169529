//! The lexical primitives. Each looks at a text from a position on and
//! either finds its construct there and gives the position behind it, or
//! finds nothing and gives `None`.

use vstd::prelude::*;

verus! {

pub const TAB: u8 = 0x09;
pub const NEWLINE: u8 = 0x0a;
pub const RETURN: u8 = 0x0d;
pub const SPACE: u8 = 0x20;
pub const DOUBLE_QUOTE: u8 = 0x22;
pub const SINGLE_QUOTE: u8 = 0x27;
pub const OPEN_PAREN: u8 = 0x28;
pub const CLOSE_PAREN: u8 = 0x29;
pub const COMMA: u8 = 0x2c;
pub const STAR: u8 = 0x2a;
pub const DOT: u8 = 0x2e;
pub const SLASH: u8 = 0x2f;
pub const COLON: u8 = 0x3a;
pub const SEMICOLON: u8 = 0x3b;
pub const OPEN_BRACKET: u8 = 0x5b;
pub const CLOSE_BRACKET: u8 = 0x5d;
pub const UNDERSCORE: u8 = 0x5f;

/// Whether a byte is an ASCII letter.
pub open spec fn is_alpha(c: u8) -> bool {
    (0x41 <= c <= 0x5a) || (0x61 <= c <= 0x7a)
}

/// Whether a byte is an ASCII decimal digit.
pub open spec fn is_digit_byte(c: u8) -> bool {
    0x30 <= c <= 0x39
}

/// Whether a byte is a space or a tab.
pub open spec fn is_blank(c: u8) -> bool {
    c == SPACE || c == TAB
}

/// Whether a byte can start a word: a letter, `_` or `.`.
pub open spec fn is_word_start(c: u8) -> bool {
    is_alpha(c) || c == UNDERSCORE || c == DOT
}

/// Whether a byte can continue a word: a letter, a digit, `_` or `.`.
pub open spec fn is_word_part(c: u8) -> bool {
    is_alpha(c) || is_digit_byte(c) || c == UNDERSCORE || c == DOT
}

/// Whether a byte is one of the punctuation marks `, : ( ) [ ]`.
pub open spec fn is_punctuation(c: u8) -> bool {
    c == COMMA || c == COLON || c == OPEN_PAREN || c == CLOSE_PAREN || c == OPEN_BRACKET || c
        == CLOSE_BRACKET
}

/// Whether a byte opens a string.
pub open spec fn is_quote(c: u8) -> bool {
    c == SINGLE_QUOTE || c == DOUBLE_QUOTE
}

/// `nom::character::is_alphabetic`: true of the ASCII letters `A` to `Z` and
/// `a` to `z`, and of no other byte.
pub assume_specification[ nom::character::is_alphabetic ](chr: u8) -> (b: bool)
    ensures
        b == is_alpha(chr),
;

/// `nom::character::is_digit`: true of the ASCII digits `0` to `9`, and of
/// no other byte.
pub assume_specification[ nom::character::is_digit ](chr: u8) -> (b: bool)
    ensures
        b == is_digit_byte(chr),
;

/// `nom::character::is_alphanumeric`: true of the ASCII letters and digits,
/// and of no other byte.
pub assume_specification[ nom::character::is_alphanumeric ](chr: u8) -> (b: bool)
    ensures
        b == (is_alpha(chr) || is_digit_byte(chr)),
;

/// `nom::character::is_space`: true of the space and the tab, and of no
/// other byte.
pub assume_specification[ nom::character::is_space ](chr: u8) -> (b: bool)
    ensures
        b == is_blank(chr),
;

/// A set of bytes that a scan can run over.
#[derive(Clone, Copy, Debug, PartialEq, Eq, Structural)]
pub enum ByteClass {
    /// Spaces and tabs.
    Blank,
    /// Spaces, tabs, carriage returns and line feeds.
    Whitespace,
    /// Decimal digits.
    Digit,
    /// Letters, digits, `_` and `.`.
    WordPart,
    /// Letters, digits and `_`.
    NamePart,
    /// Every byte but the given one.
    Except(u8),
}

/// Whether a byte belongs to a class.
pub open spec fn in_class(class: ByteClass, c: u8) -> bool {
    match class {
        ByteClass::Blank => is_blank(c),
        ByteClass::Whitespace => is_blank(c) || c == RETURN || c == NEWLINE,
        ByteClass::Digit => is_digit_byte(c),
        ByteClass::WordPart => is_word_part(c),
        ByteClass::NamePart => is_alpha(c) || is_digit_byte(c) || c == UNDERSCORE,
        ByteClass::Except(b) => c != b,
    }
}

/// Where the longest run of bytes of `class` that starts at `pos` ends.
pub open spec fn run_end(s: Seq<u8>, pos: int, class: ByteClass) -> int
    decreases s.len() - pos,
{
    if 0 <= pos < s.len() && in_class(class, s[pos]) {
        run_end(s, pos + 1, class)
    } else {
        pos
    }
}

/// Whether the bytes from `pos` up to `end` are a run of `class` that
/// cannot be made longer.
pub open spec fn is_longest_run(s: Seq<u8>, pos: int, end: int, class: ByteClass) -> bool {
    &&& pos <= end <= s.len()
    &&& forall|i: int| pos <= i < end ==> in_class(class, #[trigger] s[i])
    &&& end < s.len() ==> !in_class(class, s[end])
}

/// `run_end` is the end of the longest run.
pub proof fn lemma_run_end(s: Seq<u8>, pos: int, class: ByteClass)
    requires
        0 <= pos <= s.len(),
    ensures
        is_longest_run(s, pos, run_end(s, pos, class), class),
    decreases s.len() - pos,
{
    if pos < s.len() && in_class(class, s[pos]) {
        lemma_run_end(s, pos + 1, class);
    }
}

/// There is only one longest run from a position.
pub proof fn lemma_run_unique(s: Seq<u8>, pos: int, end: int, class: ByteClass)
    requires
        0 <= pos,
        is_longest_run(s, pos, end, class),
    ensures
        end == run_end(s, pos, class),
    decreases s.len() - pos,
{
    if pos < end {
        lemma_run_unique(s, pos + 1, end, class);
    }
}

/// Where the blanks that start at `pos` end.
pub open spec fn blanks_end(s: Seq<u8>, pos: int) -> int {
    run_end(s, pos, ByteClass::Blank)
}

/// Where the digits that start at `pos` end.
pub open spec fn figure_end(s: Seq<u8>, pos: int) -> int {
    run_end(s, pos, ByteClass::Digit)
}

/// Where the word that starts at `pos` ends; `pos` itself where no word
/// starts there.
pub open spec fn word_end(s: Seq<u8>, pos: int) -> int {
    if 0 <= pos < s.len() && is_word_start(s[pos]) {
        run_end(s, pos + 1, ByteClass::WordPart)
    } else {
        pos
    }
}

/// Where the string that opens at `pos` closes: the index of the next
/// occurrence of the quote that stands at `pos`.
pub open spec fn string_close(s: Seq<u8>, pos: int) -> Option<int> {
    if 0 <= pos < s.len() && is_quote(s[pos]) && run_end(s, pos + 1, ByteClass::Except(s[pos]))
        < s.len() {
        Some(run_end(s, pos + 1, ByteClass::Except(s[pos])))
    } else {
        None
    }
}

/// Whether `r` is what a scan from `from` gives when its construct ends at
/// `to`: the position `to` where that lies behind `from`, else nothing.
pub open spec fn found(r: Option<usize>, from: int, to: int) -> bool {
    match r {
        Some(end) => from < to && end == to,
        None => to == from,
    }
}

/// Tests a byte for membership in a class.
pub fn member(class: ByteClass, c: u8) -> (r: bool)
    ensures
        r == in_class(class, c),
{
    match class {
        ByteClass::Blank => nom::character::is_space(c),
        ByteClass::Whitespace => nom::character::is_space(c) || c == RETURN || c == NEWLINE,
        ByteClass::Digit => nom::character::is_digit(c),
        ByteClass::WordPart => nom::character::is_alphanumeric(c) || c == UNDERSCORE || c == DOT,
        ByteClass::NamePart => nom::character::is_alphanumeric(c) || c == UNDERSCORE,
        ByteClass::Except(b) => c != b,
    }
}

/// Runs over the bytes of `class` from `pos` on and gives the position of
/// the first byte that is not of the class, or the length of the text.
pub fn skip_class(input: &[u8], pos: usize, class: ByteClass) -> (end: usize)
    ensures
        end == run_end(input@, pos as int, class),
        pos <= end,
        pos <= input@.len() ==> end <= input@.len(),
{
    let mut end: usize = pos;
    while end < input.len() && member(class, input[end])
        invariant
            pos <= end,
            pos <= input@.len() ==> end <= input@.len(),
            run_end(input@, pos as int, class) == run_end(input@, end as int, class),
        decreases input@.len() - end,
    {
        end += 1;
    }
    end
}

/// Skips one or more spaces and tabs.
pub fn ignore_space(input: &[u8], pos: usize) -> (r: Option<usize>)
    ensures
        found(r, pos as int, blanks_end(input@, pos as int)),
        r matches Some(end) ==> pos < end <= input@.len(),
{
    if pos >= input.len() {
        return None;
    }
    let end = skip_class(input, pos, ByteClass::Blank);
    if end > pos {
        Some(end)
    } else {
        None
    }
}

/// Skips any spaces, tabs, carriage returns and line feeds. This cannot
/// fail: where there are none the position stays.
pub fn ignore_space_and_return(input: &[u8], pos: usize) -> (end: usize)
    ensures
        end == run_end(input@, pos as int, ByteClass::Whitespace),
        pos <= input@.len() ==> pos <= end <= input@.len(),
{
    skip_class(input, pos, ByteClass::Whitespace)
}

/// Whether a comment starts at `pos`.
pub fn is_ignore_comment(input: &[u8], pos: usize) -> (r: bool)
    ensures
        r == (pos < input@.len() && input@[pos as int] == SEMICOLON),
{
    pos < input.len() && input[pos] == SEMICOLON
}

/// Skips a comment together with the line feed that ends it. A comment that
/// no line feed ends is not skipped.
pub fn ignore_comment(input: &[u8], pos: usize) -> (r: Option<usize>)
    ensures
        match r {
            Some(next) => {
                &&& pos < input@.len()
                &&& input@[pos as int] == SEMICOLON
                &&& next - 1 == run_end(input@, pos + 1, ByteClass::Except(NEWLINE))
                &&& next <= input@.len()
            },
            None => pos >= input@.len() || input@[pos as int] != SEMICOLON || run_end(
                input@,
                pos + 1,
                ByteClass::Except(NEWLINE),
            ) == input@.len(),
        },
{
    if pos >= input.len() || input[pos] != SEMICOLON {
        return None;
    }
    let end = skip_class(input, pos + 1, ByteClass::Except(NEWLINE));
    if end < input.len() {
        Some(end + 1)
    } else {
        None
    }
}

/// Scans a word: a letter, `_` or `.`, and then as many letters, digits,
/// `_` and `.` as follow.
pub fn get_word(input: &[u8], pos: usize) -> (r: Option<usize>)
    ensures
        found(r, pos as int, word_end(input@, pos as int)),
        r matches Some(end) ==> pos < end <= input@.len(),
{
    if pos >= input.len() {
        return None;
    }
    let c: u8 = input[pos];
    if nom::character::is_alphabetic(c) || c == UNDERSCORE || c == DOT {
        Some(skip_class(input, pos + 1, ByteClass::WordPart))
    } else {
        None
    }
}

/// Scans a figure: one or more decimal digits.
pub fn get_figure(input: &[u8], pos: usize) -> (r: Option<usize>)
    ensures
        found(r, pos as int, figure_end(input@, pos as int)),
        r matches Some(end) ==> pos < end <= input@.len(),
{
    if pos >= input.len() {
        return None;
    }
    let end = skip_class(input, pos, ByteClass::Digit);
    if end > pos {
        Some(end)
    } else {
        None
    }
}

/// Scans a string: a single or double quote, and everything up to the next
/// quote of the same kind. The result is the index of the closing quote, so
/// the content lies between `pos + 1` and the result, and the scan goes on
/// one behind it.
pub fn get_string(input: &[u8], pos: usize) -> (r: Option<usize>)
    ensures
        match r {
            Some(close) => string_close(input@, pos as int) == Some(close as int),
            None => string_close(input@, pos as int) is None,
        },
        r matches Some(close) ==> pos < close < input@.len(),
{
    if pos >= input.len() {
        return None;
    }
    let quote: u8 = input[pos];
    if quote != SINGLE_QUOTE && quote != DOUBLE_QUOTE {
        return None;
    }
    let close = skip_class(input, pos + 1, ByteClass::Except(quote));
    if close < input.len() {
        Some(close)
    } else {
        None
    }
}

/// Scans one punctuation mark: `,`, `:`, `(`, `)`, `[` or `]`.
pub fn get_others(input: &[u8], pos: usize) -> (r: Option<usize>)
    ensures
        match r {
            Some(next) => pos < input@.len() && is_punctuation(input@[pos as int]) && next == pos
                + 1,
            None => pos >= input@.len() || !is_punctuation(input@[pos as int]),
        },
{
    if pos >= input.len() {
        return None;
    }
    let c: u8 = input[pos];
    if c == COMMA || c == COLON || c == OPEN_PAREN || c == CLOSE_PAREN || c == OPEN_BRACKET || c
        == CLOSE_BRACKET {
        Some(pos + 1)
    } else {
        None
    }
}

/// Takes `cnt` bytes, where that many are left.
pub fn read_chars(input: &[u8], pos: usize, cnt: usize) -> (r: Option<usize>)
    ensures
        match r {
            Some(next) => next == pos + cnt && next <= input@.len(),
            None => pos + cnt > input@.len(),
        },
{
    if pos <= input.len() && cnt <= input.len() - pos {
        Some(pos + cnt)
    } else {
        None
    }
}

} // verus!
