//! A tokenizer for assembly text: figures, names and punctuation, with
//! white space and C-style comments between them.

use crate::assembler::bytes::put_bytes;
use crate::assembler::report::{locate, place_of, Diagnostic};
use crate::assembler::scan::{
    figure_end,
    get_figure,
    get_others,
    is_alpha,
    is_punctuation,
    lemma_run_end,
    run_end,
    skip_class,
    ByteClass,
    DOT,
    NEWLINE,
    SLASH,
    STAR,
    UNDERSCORE,
};
use vstd::prelude::*;
use vstd::slice::slice_subrange;
use vstd::string::StringSliceAdditionalSpecFns;

verus! {

/// A token, with the text that it was read from.
#[derive(Clone, Copy, Debug, PartialEq, Eq)]
pub enum Token<'a> {
    Figure(&'a [u8]),
    Variable(&'a [u8]),
    Reserved(&'a [u8]),
}

/// A token as a mathematical value.
pub enum Lexeme {
    Figure(Seq<u8>),
    Variable(Seq<u8>),
    Reserved(Seq<u8>),
}

impl<'a> View for Token<'a> {
    type V = Lexeme;

    open spec fn view(&self) -> Lexeme {
        match self {
            Token::Figure(n) => Lexeme::Figure(n@),
            Token::Variable(n) => Lexeme::Variable(n@),
            Token::Reserved(n) => Lexeme::Reserved(n@),
        }
    }
}

impl Lexeme {
    /// The text of the token.
    pub open spec fn text(self) -> Seq<u8> {
        match self {
            Lexeme::Figure(n) => n,
            Lexeme::Variable(n) => n,
            Lexeme::Reserved(n) => n,
        }
    }
}

impl<'a> Token<'a> {
    /// The text of the token.
    pub fn get(&self) -> (r: &'a [u8])
        ensures
            r@ == self@.text(),
    {
        match self {
            Token::Figure(n) => n,
            Token::Variable(n) => n,
            Token::Reserved(n) => n,
        }
    }

    /// The token as it is shown: its text.
    pub fn show(&self) -> (out: Vec<u8>)
        ensures
            out@ == self@.text(),
    {
        let mut out: Vec<u8> = Vec::new();
        put_bytes(&mut out, self.get());
        out
    }
}

/// The tokenizer of one source text.
pub struct Lexer<'a> {
    m_str: &'a [u8],
}

/// Whether the bytes `a` and `b` stand at `pos` and right behind it.
pub open spec fn pair_at(s: Seq<u8>, pos: int, a: u8, b: u8) -> bool {
    0 <= pos && pos + 1 < s.len() && s[pos] == a && s[pos + 1] == b
}

/// The index of the first `*/` at or behind `from`, or the length of the
/// text where there is none.
pub open spec fn block_close(s: Seq<u8>, from: int) -> int
    decreases s.len() - from,
{
    if from < 0 || from + 1 >= s.len() {
        s.len() as int
    } else if s[from] == STAR && s[from + 1] == SLASH {
        from
    } else {
        block_close(s, from + 1)
    }
}

/// The position behind the comment that starts at `pos`. A comment runs
/// from `//` through the next line feed, or from `/*` through the next
/// `*/`; one that is not closed is no comment, and the position stays.
pub open spec fn after_comment(s: Seq<u8>, pos: int) -> int {
    if pair_at(s, pos, SLASH, SLASH) {
        if run_end(s, pos + 2, ByteClass::Except(NEWLINE)) < s.len() {
            run_end(s, pos + 2, ByteClass::Except(NEWLINE)) + 1
        } else {
            pos
        }
    } else if pair_at(s, pos, SLASH, STAR) {
        if block_close(s, pos + 2) < s.len() {
            block_close(s, pos + 2) + 2
        } else {
            pos
        }
    } else {
        pos
    }
}

/// Where the name that starts at `pos` ends; `pos` itself where no name
/// starts there. A name may open with one `.`; then comes a letter or `_`,
/// and then letters, digits and `_`.
pub open spec fn name_end(s: Seq<u8>, pos: int) -> int {
    let p = if 0 <= pos < s.len() && s[pos] == DOT {
        pos + 1
    } else {
        pos
    };
    if 0 <= p < s.len() && (is_alpha(s[p]) || s[p] == UNDERSCORE) {
        run_end(s, p + 1, ByteClass::NamePart)
    } else {
        pos
    }
}

/// The token that starts at `pos`, and the position behind it: a figure,
/// else a name, else one punctuation mark.
pub open spec fn lexeme_at(s: Seq<u8>, pos: int) -> Option<(Lexeme, int)> {
    if pos < figure_end(s, pos) {
        Some((Lexeme::Figure(s.subrange(pos, figure_end(s, pos))), figure_end(s, pos)))
    } else if pos < name_end(s, pos) {
        Some((Lexeme::Variable(s.subrange(pos, name_end(s, pos))), name_end(s, pos)))
    } else if 0 <= pos < s.len() && is_punctuation(s[pos]) {
        Some((Lexeme::Reserved(s.subrange(pos, pos + 1)), pos + 1))
    } else {
        None
    }
}

/// Where the token of a round of the tokenizer starts, when the round
/// starts at `pos`: behind white space and then one comment.
pub open spec fn token_start(s: Seq<u8>, pos: int) -> int {
    after_comment(s, run_end(s, pos, ByteClass::Whitespace))
}

/// A `*/` that is found lies at or behind `from`, with both of its bytes
/// within the text.
pub proof fn lemma_block_close(s: Seq<u8>, from: int)
    requires
        0 <= from,
    ensures
        block_close(s, from) == s.len() || (from <= block_close(s, from) && block_close(s, from) + 1
            < s.len()),
    decreases s.len() - from,
{
    if from + 1 < s.len() && !(s[from] == STAR && s[from + 1] == SLASH) {
        lemma_block_close(s, from + 1);
    }
}

/// A round of the tokenizer moves forward and stays within the text.
pub proof fn lemma_round(s: Seq<u8>, pos: int)
    requires
        0 <= pos <= s.len(),
    ensures
        pos <= token_start(s, pos) <= s.len(),
        lexeme_at(s, token_start(s, pos)) matches Some((_, next)) ==> token_start(s, pos) < next
            <= s.len(),
{
    lemma_run_end(s, pos, ByteClass::Whitespace);
    let a = run_end(s, pos, ByteClass::Whitespace);
    if a + 2 <= s.len() {
        lemma_run_end(s, a + 2, ByteClass::Except(NEWLINE));
        lemma_block_close(s, a + 2);
    }
    let b = token_start(s, pos);
    lemma_run_end(s, b, ByteClass::Digit);
    if b + 2 <= s.len() {
        lemma_run_end(s, b + 2, ByteClass::NamePart);
    }
}

/// The tokens of the text from `pos` on, or the offset at which no token
/// starts. The tokenizer works in rounds until the text is used up: it
/// passes over white space, then over one comment, and reads one token.
pub open spec fn lexed(s: Seq<u8>, pos: int) -> Result<Seq<Lexeme>, int>
    decreases s.len() - pos,
{
    if !(0 <= pos < s.len()) {
        Ok(Seq::empty())
    } else {
        match lexeme_at(s, token_start(s, pos)) {
            None => Err(token_start(s, pos)),
            Some((lexeme, next)) => {
                proof {
                    lemma_round(s, pos);
                }
                match lexed(s, next) {
                    Ok(rest) => Ok(seq![lexeme] + rest),
                    Err(at) => Err(at),
                }
            },
        }
    }
}

/// The tokens `done`, followed by what is still to come.
pub open spec fn followed(done: Seq<Lexeme>, rest: Result<Seq<Lexeme>, int>) -> Result<
    Seq<Lexeme>,
    int,
> {
    match rest {
        Ok(more) => Ok(done + more),
        Err(at) => Err(at),
    }
}

/// The tokens of a vector as mathematical values.
pub open spec fn lexemes<'a>(tokens: Seq<Token<'a>>) -> Seq<Lexeme> {
    Seq::new(tokens.len(), |i: int| tokens[i]@)
}

impl<'a> Lexer<'a> {
    /// The text that is tokenized.
    pub closed spec fn source(&self) -> Seq<u8> {
        self.m_str@
    }

    /// A tokenizer for the text `_str`.
    pub fn new(_str: &'a str) -> (r: Self)
        ensures
            r.source() == _str.spec_bytes(),
    {
        Self { m_str: _str.as_bytes() }
    }

    /// Skips any spaces, tabs, carriage returns and line feeds at `pos`.
    pub fn ignore_space(&self, pos: usize) -> (next: usize)
        ensures
            next == run_end(self.source(), pos as int, ByteClass::Whitespace),
            pos <= next,
            pos <= self.source().len() ==> next <= self.source().len(),
    {
        skip_class(self.m_str, pos, ByteClass::Whitespace)
    }

    /// Skips the comment at `pos`, if one stands there and is closed.
    pub fn ignore_comment(&self, pos: usize) -> (r: Option<usize>)
        ensures
            match r {
                Some(next) => pos < next <= self.source().len() && next == after_comment(
                    self.source(),
                    pos as int,
                ),
                None => after_comment(self.source(), pos as int) == pos,
            },
    {
        let s = self.m_str;
        if pos >= s.len() || s.len() - pos < 2 || s[pos] != SLASH {
            return None;
        }
        if s[pos + 1] == SLASH {
            let end = skip_class(s, pos + 2, ByteClass::Except(NEWLINE));
            if end < s.len() {
                Some(end + 1)
            } else {
                None
            }
        } else if s[pos + 1] == STAR {
            let mut at: usize = pos + 2;
            while s.len() - at > 1 && !(s[at] == STAR && s[at + 1] == SLASH)
                invariant
                    pos + 2 <= at <= s@.len(),
                    block_close(s@, at as int) == block_close(s@, pos + 2),
                decreases s@.len() - at,
            {
                at += 1;
            }
            if s.len() - at > 1 {
                Some(at + 2)
            } else {
                None
            }
        } else {
            None
        }
    }

    /// Reads a figure at `pos`.
    pub fn get_figure(&self, pos: usize) -> (r: Option<(usize, Token<'a>)>)
        ensures
            match r {
                Some((next, token)) => pos < next <= self.source().len() && next == figure_end(
                    self.source(),
                    pos as int,
                ) && token@ == Lexeme::Figure(self.source().subrange(pos as int, next as int)),
                None => figure_end(self.source(), pos as int) == pos,
            },
    {
        match get_figure(self.m_str, pos) {
            Some(next) => Some((next, Token::Figure(slice_subrange(self.m_str, pos, next)))),
            None => None,
        }
    }

    /// Reads a name at `pos`.
    pub fn get_word(&self, pos: usize) -> (r: Option<(usize, Token<'a>)>)
        ensures
            match r {
                Some((next, token)) => pos < next <= self.source().len() && next == name_end(
                    self.source(),
                    pos as int,
                ) && token@ == Lexeme::Variable(self.source().subrange(pos as int, next as int)),
                None => name_end(self.source(), pos as int) == pos,
            },
    {
        let s = self.m_str;
        if pos >= s.len() {
            return None;
        }
        let p: usize = if s[pos] == DOT {
            pos + 1
        } else {
            pos
        };
        if p < s.len() && (nom::character::is_alphabetic(s[p]) || s[p] == UNDERSCORE) {
            let next = skip_class(s, p + 1, ByteClass::NamePart);
            Some((next, Token::Variable(slice_subrange(s, pos, next))))
        } else {
            None
        }
    }

    /// Reads one punctuation mark at `pos`.
    pub fn get_others(&self, pos: usize) -> (r: Option<(usize, Token<'a>)>)
        ensures
            match r {
                Some((next, token)) => pos < self.source().len() && is_punctuation(
                    self.source()[pos as int],
                ) && next == pos + 1 && token@ == Lexeme::Reserved(
                    self.source().subrange(pos as int, next as int),
                ),
                None => pos >= self.source().len() || !is_punctuation(self.source()[pos as int]),
            },
    {
        match get_others(self.m_str, pos) {
            Some(next) => Some((next, Token::Reserved(slice_subrange(self.m_str, pos, next)))),
            None => None,
        }
    }

    /// Tokenizes the whole text. The error is the offset at which no token
    /// starts, with a message.
    pub fn lex(&self) -> (r: Result<Vec<Token<'a>>, (usize, String)>)
        ensures
            match r {
                Ok(tokens) => lexed(self.source(), 0) == Ok::<Seq<Lexeme>, int>(lexemes(tokens@)),
                Err((at, message)) => lexed(self.source(), 0) == Err::<Seq<Lexeme>, int>(at as int)
                    && message@ == "Undefined lexical"@,
            },
    {
        let mut tokens: Vec<Token<'a>> = Vec::new();
        let len: usize = self.m_str.len();
        let mut pos: usize = 0;
        while pos < len
            invariant
                pos <= len,
                len == self.source().len(),
                followed(lexemes(tokens@), lexed(self.source(), pos as int)) == lexed(
                    self.source(),
                    0,
                ),
            decreases len - pos,
        {
            let mut at: usize = self.ignore_space(pos);
            if let Some(behind) = self.ignore_comment(at) {
                at = behind;
            }
            let found = if let Some(read) = self.get_figure(at) {
                Some(read)
            } else if let Some(read) = self.get_word(at) {
                Some(read)
            } else {
                self.get_others(at)
            };
            let ghost done = lexemes(tokens@);
            match found {
                Some((next, token)) => {
                    proof {
                        let rest = lexed(self.source(), next as int);
                        if let Ok(more) = rest {
                            assert(done + (seq![token@] + more) =~= done.push(token@) + more);
                        }
                    }
                    tokens.push(token);
                    assert(lexemes(tokens@) =~= done.push(token@));
                    pos = next;
                },
                None => {
                    return Err((at, "Undefined lexical".to_string()));
                },
            }
        }
        Ok(tokens)
    }
}

/// The reporter of a tokenizer's text.
pub struct LexerError<'a> {
    m_str: &'a [u8],
}

impl<'a> LexerError<'a> {
    /// The text that is reported on.
    pub closed spec fn source(&self) -> Seq<u8> {
        self.m_str@
    }

    /// A reporter for the text of `lexer`.
    pub fn new(lexer: &Lexer<'a>) -> (r: Self)
        ensures
            r.source() == lexer.source(),
    {
        Self { m_str: lexer.m_str }
    }

    /// The diagnostic for a fault at the byte offset `first`.
    pub fn panic<'b>(&self, first: usize, message: &'b str) -> (d: Diagnostic<'b>)
        where 'a: 'b
        ensures
            d.shows(place_of(self.source(), first as int), message),
    {
        locate(self.m_str, first, message)
    }
}

/// Reads a figure at the start of `input`, and gives what is left of the
/// input with it.
pub fn nom_test<'a>(input: &'a [u8]) -> (r: Option<(&'a [u8], Token<'a>)>)
    ensures
        match r {
            Some((rest, token)) => 0 < figure_end(input@, 0) && rest@ == input@.subrange(
                figure_end(input@, 0),
                input@.len() as int,
            ) && token@ == Lexeme::Figure(input@.subrange(0, figure_end(input@, 0))),
            None => figure_end(input@, 0) == 0,
        },
{
    match get_figure(input, 0) {
        Some(next) => Some(
            (slice_subrange(input, next, input.len()), Token::Figure(slice_subrange(input, 0, next))),
        ),
        None => None,
    }
}

} // verus!
