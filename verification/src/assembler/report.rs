//! Diagnostics: from a byte offset in the source to the line and column it
//! lies at, and to the text that shows it.

use super::bytes::put_bytes;
use super::meaning::{line_end, line_stop};
use super::scan::{lemma_run_end, skip_class, ByteClass, NEWLINE, RETURN, SPACE};
use vstd::prelude::*;
use vstd::slice::slice_subrange;
use vstd::string::StringSliceAdditionalSpecFns;

verus! {

/// The mark that points at the column of a fault.
pub const CARET: u8 = 0x5e;

/// A place in a text: the one-based number of a line, a one-based column in
/// it, and the line itself. Line and column zero, with no text, stand for an
/// offset that lies in no line.
pub struct Place {
    pub line: nat,
    pub column: nat,
    pub text: Seq<u8>,
}

/// The place of no line.
pub open spec fn nowhere() -> Place {
    Place { line: 0, column: 0, text: Seq::empty() }
}

/// The place of the offset `first`, looked for from the line that starts at
/// `start` and has the number `number`. An offset lies in a line when it
/// points at one of its bytes; the line break belongs to no line.
pub open spec fn place_from(s: Seq<u8>, start: int, number: nat, first: int) -> Place
    decreases s.len() - start,
{
    if !(0 <= start < s.len()) {
        nowhere()
    } else if start <= first < line_end(s, start) {
        Place {
            line: number,
            column: (first - start + 1) as nat,
            text: s.subrange(start, line_end(s, start)),
        }
    } else if line_stop(s, start) < s.len() {
        proof {
            lemma_run_end(s, start, ByteClass::Except(NEWLINE));
        }
        place_from(s, line_stop(s, start) + 1, number + 1, first)
    } else {
        nowhere()
    }
}

/// The place of the offset `first` in the text `s`.
pub open spec fn place_of(s: Seq<u8>, first: int) -> Place {
    place_from(s, 0, 1, first)
}

/// A diagnostic: where in the source a fault lies, and what is to be said
/// of it.
#[derive(Clone, Copy, Debug, PartialEq, Eq)]
pub struct Diagnostic<'a> {
    pub line: usize,
    pub column: usize,
    pub text: &'a [u8],
    pub message: &'a str,
}

/// The blanks that put the caret under column `column`.
pub open spec fn indent(column: nat) -> Seq<u8> {
    Seq::new(
        if column > 0 {
            (column - 1) as nat
        } else {
            0
        },
        |i: int| SPACE,
    )
}

/// The three lines of a diagnostic: the source line, a caret under the
/// column, and the message.
pub open spec fn rendering(text: Seq<u8>, column: nat, message: Seq<u8>) -> Seq<u8> {
    text + seq![NEWLINE] + indent(column) + seq![CARET, NEWLINE] + message + seq![NEWLINE]
}

impl<'a> Diagnostic<'a> {
    /// Whether the diagnostic shows `place` with `message`.
    pub open spec fn shows(&self, place: Place, message: &str) -> bool {
        &&& self.line == place.line
        &&& self.column == place.column
        &&& self.text@ == place.text
        &&& self.message@ == message@
    }

    /// The diagnostic as text.
    pub fn render(&self) -> (out: Vec<u8>)
        ensures
            out@ == rendering(self.text@, self.column as nat, self.message.spec_bytes()),
    {
        let mut out: Vec<u8> = Vec::new();
        put_bytes(&mut out, self.text);
        out.push(NEWLINE);
        let ghost head = out@;
        let mut i: usize = 1;
        while i < self.column
            invariant
                1 <= i,
                i <= self.column || (self.column == 0 && i == 1),
                out@ == head + indent(i as nat),
            decreases self.column - i,
        {
            out.push(SPACE);
            i += 1;
        }
        out.push(CARET);
        out.push(NEWLINE);
        put_bytes(&mut out, self.message.as_bytes());
        out.push(NEWLINE);
        out
    }
}

/// The reporter of one source text.
pub struct AsmError<'a> {
    m_str: &'a [u8],
}

/// The diagnostic of an offset that lies in no line.
fn unplaced<'a, 'b>(text: &'a [u8], message: &'b str) -> (d: Diagnostic<'b>)
    where 'a: 'b
    ensures
        d.shows(nowhere(), message),
{
    let d = Diagnostic { line: 0, column: 0, text: slice_subrange(text, 0, 0), message };
    assert(d.text@ =~= Seq::empty());
    d
}

/// Looks the offset `first` up in `text`, line by line.
pub fn locate<'a, 'b>(text: &'a [u8], first: usize, message: &'b str) -> (d: Diagnostic<'b>)
    where 'a: 'b
    ensures
        d.shows(place_of(text@, first as int), message),
{
    if first >= text.len() {
        proof {
            lemma_outside(text@, 0, 1, first as int);
        }
        return unplaced(text, message);
    }
    let mut start: usize = 0;
    let mut number: usize = 1;
    while start < text.len()
        invariant
            1 <= number <= start + 1,
            start <= first < text@.len(),
            place_from(text@, start as int, number as nat, first as int) == place_of(
                text@,
                first as int,
            ),
        decreases text@.len() - start,
    {
        let stop = skip_class(text, start, ByteClass::Except(NEWLINE));
        let end = if start < stop && stop < text.len() && text[stop - 1] == RETURN {
            stop - 1
        } else {
            stop
        };
        if first < end {
            return Diagnostic {
                line: number,
                column: first - start + 1,
                text: slice_subrange(text, start, end),
                message,
            };
        }
        if stop < text.len() && stop < first {
            start = stop + 1;
            number += 1;
        } else {
            proof {
                if stop < text.len() {
                    lemma_outside(text@, stop + 1, (number + 1) as nat, first as int);
                }
            }
            return unplaced(text, message);
        }
    }
    unplaced(text, message)
}

impl<'a> AsmError<'a> {
    /// The text that is reported on.
    pub closed spec fn source(&self) -> Seq<u8> {
        self.m_str@
    }

    /// A reporter for the source text `_str`.
    pub fn new(_str: &'a str) -> (r: Self)
        ensures
            r.source() == _str.spec_bytes(),
    {
        Self { m_str: _str.as_bytes() }
    }

    /// The diagnostic for a fault at the byte offset `first`: the line that
    /// holds the offset, with its number and the column, and the message.
    pub fn panic_from_pos<'b>(&self, first: usize, message: &'b str) -> (d: Diagnostic<'b>)
        where 'a: 'b
        ensures
            d.shows(place_of(self.source(), first as int), message),
    {
        locate(self.m_str, first, message)
    }

    /// The diagnostic for a fault at the word that starts at the byte offset
    /// `word`.
    pub fn panic_from_word<'b>(&self, word: usize, message: &'b str) -> (d: Diagnostic<'b>)
        where 'a: 'b
        ensures
            d.shows(place_of(self.source(), word as int), message),
    {
        self.panic_from_pos(word, message)
    }

    /// The diagnostic for a fault `idx` bytes behind the start of the word
    /// at the byte offset `word`, or before it where `idx` is negative.
    pub fn panic_from_word_idx<'b>(&self, word: usize, idx: isize, message: &'b str) -> (d:
        Diagnostic<'b>)
        where 'a: 'b
        ensures
            d.shows(place_of(self.source(), word + idx), message),
    {
        let at: i128 = word as i128 + idx as i128;
        if 0 <= at && at < self.m_str.len() as i128 {
            self.panic_from_pos(at as usize, message)
        } else {
            proof {
                lemma_outside(self.m_str@, 0, 1, at as int);
            }
            unplaced(self.m_str, message)
        }
    }
}

/// An offset before the line at `start`, or behind the text, lies in none
/// of the lines from `start` on.
pub proof fn lemma_outside(s: Seq<u8>, start: int, number: nat, first: int)
    requires
        0 <= start,
        first < start || first >= s.len(),
    ensures
        place_from(s, start, number, first) == nowhere(),
    decreases s.len() - start,
{
    if start < s.len() {
        lemma_run_end(s, start, ByteClass::Except(NEWLINE));
        if line_stop(s, start) < s.len() {
            lemma_outside(s, line_stop(s, start) + 1, number + 1, first);
        }
    }
}

} // verus!
