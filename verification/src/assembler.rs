//! The assembler engine and the pieces it is built from.

pub mod bytes;
pub mod clock;
pub mod encode;
pub mod fault;
pub mod headers;
pub mod meaning;
pub mod object;
pub mod reg;
pub mod report;
pub mod scan;
pub mod section;
pub mod text;

use self::bytes::{put_bytes, put_le, put_zeros, zeros};
use self::clock::{stamp, stamp_of, unix_seconds};
use self::encode::{encode_arith, encode_mov, parse_figure, Arith};
use self::fault::{Cause, Fault, FormatError};
use self::meaning::{
    binary_outcome,
    comma_at,
    data_outcome,
    datum_at,
    emitted,
    instruction_outcome,
    item_outcome,
    lemma_datum_advances,
    lemma_item_within,
    lemma_line_skips_blanks,
    line_outcome,
    marked,
    opened,
    operand_at,
    operands_at,
    reserve_outcome,
    ret_outcome,
    section_outcome,
    text_outcome,
    width_of,
    Binary,
    Operands,
    Outcome,
    RET,
};
use self::object::{bytes_of, label_views, lays_out, section_views, serialize, Image};
use self::text::{dump, put_section};
use self::reg::{matches_lower, reg, to_lower, Value};
use self::scan::{
    blanks_end,
    get_figure,
    get_others,
    get_string,
    get_word,
    ignore_space,
    is_ignore_comment,
    lemma_run_end,
    skip_class,
    ByteClass,
    COLON,
    COMMA,
    DOUBLE_QUOTE,
    NEWLINE,
    RETURN,
    SINGLE_QUOTE,
};
pub use self::report::{AsmError, Diagnostic};
pub use self::section::{Label, Section};
use vstd::prelude::*;
use vstd::slice::slice_subrange;
use vstd::string::StringSliceAdditionalSpecFns;

verus! {

/// One assembly run: the source text, and the sections and labels that
/// scanning it has produced so far.
pub struct Asm<'a> {
    m_file: &'a [u8],
    m_contents: &'a [u8],
    sections: Vec<Section<'a>>,
    labels: Vec<Label<'a>>,
}

/// The position or fault inside a result.
pub open spec fn position(r: Result<usize, Fault>) -> Result<int, Fault> {
    match r {
        Ok(next) => Ok(next as int),
        Err(f) => Err(f),
    }
}

/// The fault inside a result, if any.
pub open spec fn fault_of(r: Result<(), Fault>) -> Option<Fault> {
    match r {
        Ok(_) => None,
        Err(f) => Some(f),
    }
}

impl<'a> View for Asm<'a> {
    type V = Image;

    closed spec fn view(&self) -> Image {
        Image { sections: section_views(self.sections@), labels: label_views(self.labels@) }
    }
}

impl<'a> Asm<'a> {
    /// The name of the source file.
    pub closed spec fn file(&self) -> Seq<u8> {
        self.m_file@
    }

    /// The source text.
    pub closed spec fn source(&self) -> Seq<u8> {
        self.m_contents@
    }

    /// Whether two states of a run belong to the same source.
    pub open spec fn same_text(&self, other: &Self) -> bool {
        self.file() == other.file() && self.source() == other.source()
    }

    /// Whether a step that started from `before` and gave `r` did what
    /// `o` says.
    pub open spec fn did(&self, before: &Self, r: Result<usize, Fault>, o: Outcome) -> bool {
        self@ == o.image && position(r) == o.end && self.same_text(before)
    }

    /// A run over `contents`, the text of the file `file`, with no section
    /// and no label yet.
    pub fn new(file: &'a str, contents: &'a str) -> (r: Self)
        ensures
            r.file() == file.spec_bytes(),
            r.source() == contents.spec_bytes(),
            r@ == (Image { sections: Seq::empty(), labels: Seq::empty() }),
    {
        let r = Self {
            m_file: file.as_bytes(),
            m_contents: contents.as_bytes(),
            sections: Vec::new(),
            labels: Vec::new(),
        };
        assert(r@.sections =~= Seq::empty());
        assert(r@.labels =~= Seq::empty());
        r
    }

    /// The sections of the run, in the order of their declaration.
    pub fn sections(&self) -> (r: &Vec<Section<'a>>)
        ensures
            section_views(r@) == self@.sections,
    {
        &self.sections
    }

    /// The labels of the run, in the order of their definition.
    pub fn labels(&self) -> (r: &Vec<Label<'a>>)
        ensures
            label_views(r@) == self@.labels,
    {
        &self.labels
    }

    /// Appends `bytes` to the data of the last section.
    fn emit(&mut self, bytes: &[u8])
        requires
            old(self)@.sections.len() > 0,
        ensures
            final(self)@ == emitted(old(self)@, bytes@),
            final(self).same_text(old(self)),
    {
        let n: usize = self.sections.len();
        self.sections[n - 1].append(bytes);
        assert(self@.sections =~= emitted(old(self)@, bytes@).sections);
    }

    /// Skips the blanks at `pos`, if there are any.
    pub fn ignore_space(&self, line: &[u8], pos: usize) -> (next: usize)
        ensures
            next == blanks_end(line@, pos as int),
    {
        match ignore_space(line, pos) {
            Some(next) => next,
            None => pos,
        }
    }

    /// Reads the comma between two operands, which may stand after blanks.
    pub fn read_comma(&self, line: &[u8], pos: usize) -> (r: Result<usize, Fault>)
        ensures
            position(r) == comma_at(line@, pos as int),
    {
        let p = self.ignore_space(line, pos);
        match get_others(line, p) {
            None => Err(Fault { cause: Cause::NoComma, offset: p }),
            Some(next) => {
                if line[p] == COMMA {
                    Ok(next)
                } else {
                    Err(Fault { cause: Cause::NotComma, offset: next })
                }
            },
        }
    }

    /// Reads one operand: a word that names a register or, where no word
    /// starts, a figure. The error is the position at which the scan gave up.
    pub fn read_value<'b>(&self, line: &'b [u8], pos: usize) -> (r: Result<
        (usize, Value<'b>),
        usize,
    >)
        ensures
            match r {
                Ok((next, value)) => operand_at(line@, pos as int) == Some((value@, next as int)),
                Err(_) => operand_at(line@, pos as int) is None,
            },
    {
        if let Some(w) = get_word(line, pos) {
            match reg(slice_subrange(line, pos, w)) {
                Ok(value) => Ok((w, value)),
                Err(_) => Err(w),
            }
        } else if let Some(d) = get_figure(line, pos) {
            Ok((d, Value::Figure(slice_subrange(line, pos, d))))
        } else {
            Err(pos)
        }
    }

    /// Reads one operand, and reports `cause` at `pos` where there is none.
    pub fn read_value_unwrap<'b>(&self, line: &'b [u8], pos: usize, cause: Cause) -> (r: Result<
        (usize, Value<'b>),
        Fault,
    >)
        ensures
            match r {
                Ok((next, value)) => operand_at(line@, pos as int) == Some((value@, next as int)),
                Err(f) => operand_at(line@, pos as int) is None && f == (Fault {
                    cause,
                    offset: pos,
                }),
            },
    {
        match self.read_value(line, pos) {
            Ok(found) => Ok(found),
            Err(_) => Err(Fault { cause, offset: pos }),
        }
    }

    /// Reads the two operands of an instruction. They come back each with
    /// the position at which it starts, and with the position behind both.
    pub fn read_2args<'b>(&self, line: &'b [u8], pos: usize) -> (r: Result<
        ((Value<'b>, usize, Value<'b>, usize), usize),
        Fault,
    >)
        ensures
            match r {
                Ok(((first, first_at, second, second_at), next)) => operands_at(line@, pos as int)
                    == Ok::<Operands, Fault>(
                    Operands {
                        first: first@,
                        first_at: first_at as int,
                        second: second@,
                        second_at: second_at as int,
                        next: next as int,
                    },
                ),
                Err(f) => operands_at(line@, pos as int) == Err::<Operands, Fault>(f),
            },
    {
        let (behind, first) = match self.read_value_unwrap(line, pos, Cause::FirstOperand) {
            Ok(found) => found,
            Err(f) => {
                return Err(f);
            },
        };
        let after = match self.read_comma(line, behind) {
            Ok(after) => after,
            Err(f) => {
                return Err(f);
            },
        };
        let second_at = self.ignore_space(line, after);
        let (next, second) = match self.read_value_unwrap(line, second_at, Cause::SecondOperand) {
            Ok(found) => found,
            Err(f) => {
                return Err(f);
            },
        };
        Ok(((first, pos, second, second_at), next))
    }

    /// Encodes an instruction with two operands and appends its code.
    fn binary(&mut self, line: &[u8], pos: usize, m: Binary) -> (r: Result<usize, Fault>)
        ensures
            final(self).did(old(self), r, binary_outcome(old(self)@, line@, pos as int, m)),
    {
        if self.sections.len() == 0 {
            return Err(Fault { cause: Cause::NoSection, offset: pos });
        }
        let ((first, first_at, second, second_at), next) = match self.read_2args(line, pos) {
            Ok(args) => args,
            Err(f) => {
                return Err(f);
            },
        };
        let encoded = match m {
            Binary::Mov => encode_mov(&first, &second),
            Binary::Add => encode_arith(Arith::Add, &first, &second),
            Binary::Sub => encode_arith(Arith::Sub, &first, &second),
        };
        match encoded {
            Ok(code) => {
                self.emit(code.as_slice());
                Ok(next)
            },
            Err(cause) => {
                let offset = match cause {
                    Cause::NotRegister => first_at,
                    _ => second_at,
                };
                Err(Fault { cause, offset })
            },
        }
    }

    /// `mov`: reads a destination and a source from `pos` on and appends
    /// the code of the move to the last section.
    pub fn mov(&mut self, line: &[u8], pos: usize) -> (r: Result<usize, Fault>)
        ensures
            final(self).did(old(self), r, binary_outcome(old(self)@, line@, pos as int, Binary::Mov)),
    {
        self.binary(line, pos, Binary::Mov)
    }

    /// `add`: reads a destination and a source from `pos` on and appends
    /// the code of the addition to the last section.
    pub fn add(&mut self, line: &[u8], pos: usize) -> (r: Result<usize, Fault>)
        ensures
            final(self).did(old(self), r, binary_outcome(old(self)@, line@, pos as int, Binary::Add)),
    {
        self.binary(line, pos, Binary::Add)
    }

    /// `sub`: reads a destination and a source from `pos` on and appends
    /// the code of the subtraction to the last section.
    pub fn sub(&mut self, line: &[u8], pos: usize) -> (r: Result<usize, Fault>)
        ensures
            final(self).did(old(self), r, binary_outcome(old(self)@, line@, pos as int, Binary::Sub)),
    {
        self.binary(line, pos, Binary::Sub)
    }

    /// `ret`: appends the one byte of a near return and passes over the
    /// rest of the line.
    pub fn ret(&mut self, line: &[u8], pos: usize) -> (r: Result<usize, Fault>)
        ensures
            final(self).did(old(self), r, ret_outcome(old(self)@, line@, pos as int)),
    {
        if self.sections.len() == 0 {
            return Err(Fault { cause: Cause::NoSection, offset: pos });
        }
        let code: [u8; 1] = [RET];
        self.emit(code.as_slice());
        assert(code@ =~= seq![RET]);
        if pos <= line.len() {
            Ok(line.len())
        } else {
            Ok(pos)
        }
    }

    /// `section`: opens a new section under the name that follows.
    pub fn section(&mut self, line: &'a [u8], pos: usize) -> (r: Result<usize, Fault>)
        ensures
            final(self).did(old(self), r, section_outcome(old(self)@, line@, pos as int)),
    {
        let p = self.ignore_space(line, pos);
        match get_word(line, p) {
            Some(w) => {
                self.sections.push(Section::new(slice_subrange(line, p, w)));
                assert(self@.sections =~= opened(old(self)@, line@.subrange(p as int, w as int)).sections);
                Ok(w)
            },
            None => Err(Fault { cause: Cause::SectionName, offset: p }),
        }
    }

    /// The width in bytes that the last letter of a data mnemonic selects,
    /// or zero.
    pub fn dx_to_size(&self, c: u8) -> (r: u8)
        ensures
            r == width_of(c),
    {
        if c == 0x62 {
            1
        } else if c == 0x77 {
            2
        } else if c == 0x64 {
            4
        } else if c == 0x71 {
            8
        } else if c == 0x74 {
            16
        } else if c == 0x6f {
            32
        } else if c == 0x79 {
            64
        } else if c == 0x7a {
            128
        } else {
            0
        }
    }

    /// A reservation: reads a count and appends `size` zero bytes for each
    /// unit to the last section.
    pub fn resx(&mut self, line: &[u8], pos: usize, size: u8) -> (r: Result<usize, Fault>)
        ensures
            final(self).did(old(self), r, reserve_outcome(old(self)@, line@, pos as int, size)),
    {
        let n: usize = self.sections.len();
        if n == 0 {
            return Err(Fault { cause: Cause::NoSection, offset: pos });
        }
        let p = self.ignore_space(line, pos);
        let d = match get_figure(line, p) {
            Some(d) => d,
            None => {
                return Err(Fault { cause: Cause::NoFigure, offset: p });
            },
        };
        let count: u64 = match parse_figure(slice_subrange(line, p, d)) {
            Some(count) => count,
            None => {
                return Err(Fault { cause: Cause::FigureRange, offset: p });
            },
        };
        assert(size as u128 * count as u128 <= 0xff * 0xffff_ffff_ffff_ffff) by (nonlinear_arith)
            requires
                size <= 0xff,
                count <= 0xffff_ffff_ffff_ffff,
        ;
        let total: u128 = (size as u128) * (count as u128);
        let held: usize = self.sections[n - 1].data().len();
        if held as u128 + total > usize::MAX as u128 {
            return Err(Fault { cause: Cause::TooLarge, offset: p });
        }
        self.sections[n - 1].reserve(total as usize);
        assert(self@.sections =~= emitted(
            old(self)@,
            zeros((size * count) as nat),
        ).sections);
        Ok(d)
    }

    /// Reads one data item at `p` and gives its bytes for a declaration of
    /// `size` bytes per unit, and the position behind the item.
    fn datum(&self, line: &[u8], p: usize, size: u8) -> (r: Result<(Vec<u8>, usize), Fault>)
        ensures
            match r {
                Ok((bytes, next)) => datum_at(line@, p as int, size) == Ok::<(Seq<u8>, int), Fault>(
                    (bytes@, next as int),
                ),
                Err(f) => datum_at(line@, p as int, size) == Err::<(Seq<u8>, int), Fault>(f),
            },
    {
        let mut bytes: Vec<u8> = Vec::new();
        if p < line.len() && (line[p] == SINGLE_QUOTE || line[p] == DOUBLE_QUOTE) {
            let close = match get_string(line, p) {
                Some(close) => close,
                None => {
                    return Err(Fault { cause: Cause::OpenString, offset: p });
                },
            };
            if size == 0 {
                return Err(Fault { cause: Cause::ZeroWidth, offset: p });
            }
            let content = slice_subrange(line, p + 1, close);
            put_bytes(&mut bytes, content);
            put_zeros(&mut bytes, content.len() % (size as usize));
            Ok((bytes, close + 1))
        } else if let Some(d) = get_figure(line, p) {
            match parse_figure(slice_subrange(line, p, d)) {
                Some(v) => {
                    put_le(&mut bytes, v, size as usize);
                    Ok((bytes, d))
                },
                None => Err(Fault { cause: Cause::FigureRange, offset: p }),
            }
        } else {
            Err(Fault { cause: Cause::NoDatum, offset: p })
        }
    }

    /// A data declaration: reads data items with commas between them and
    /// appends each, by the rule for `size` bytes per unit, to the last
    /// section.
    pub fn dx(&mut self, line: &[u8], pos: usize, size: u8) -> (r: Result<usize, Fault>)
        ensures
            final(self).did(old(self), r, data_outcome(old(self)@, line@, pos as int, size)),
    {
        if self.sections.len() == 0 {
            return Err(Fault { cause: Cause::NoSection, offset: pos });
        }
        if pos > line.len() {
            return Err(Fault { cause: Cause::NoDatum, offset: pos });
        }
        let mut at: usize = pos;
        loop
            invariant
                at <= line@.len(),
                self@.sections.len() > 0,
                self.same_text(old(self)),
                data_outcome(self@, line@, at as int, size) == data_outcome(
                    old(self)@,
                    line@,
                    pos as int,
                    size,
                ),
            decreases line@.len() - at,
        {
            let p = self.ignore_space(line, at);
            proof {
                lemma_run_end(line@, at as int, ByteClass::Blank);
                lemma_datum_advances(line@, p as int, size);
            }
            let (bytes, next) = match self.datum(line, p, size) {
                Ok(item) => item,
                Err(f) => {
                    return Err(f);
                },
            };
            self.emit(bytes.as_slice());
            let q = self.ignore_space(line, next);
            proof {
                lemma_run_end(line@, next as int, ByteClass::Blank);
            }
            if q < line.len() && line[q] == COMMA {
                at = q + 1;
            } else {
                return Ok(q);
            }
        }
    }

    /// Dispatches on a mnemonic, letter case aside, with `pos` the position
    /// of what follows it.
    pub fn _instruction(&mut self, line: &'a [u8], pos: usize, instruction: &[u8]) -> (r: Result<
        usize,
        Fault,
    >)
        ensures
            final(self).did(
                old(self),
                r,
                instruction_outcome(old(self)@, line@, pos as int, instruction@),
            ),
    {
        let len: usize = instruction.len();
        if len == 2 && to_lower(instruction[0]) == 0x64 {
            let size = self.dx_to_size(to_lower(instruction[1]));
            return self.dx(line, pos, size);
        }
        if len == 4 && to_lower(instruction[0]) == 0x72 && to_lower(instruction[1]) == 0x65
            && to_lower(instruction[2]) == 0x73 {
            let size = self.dx_to_size(to_lower(instruction[3]));
            return self.resx(line, pos, size);
        }
        if matches_lower(instruction, "section") {
            self.section(line, pos)
        } else if matches_lower(instruction, "mov") {
            self.mov(line, pos)
        } else if matches_lower(instruction, "ret") {
            self.ret(line, pos)
        } else if matches_lower(instruction, "add") {
            self.add(line, pos)
        } else if matches_lower(instruction, "sub") {
            self.sub(line, pos)
        } else {
            Err(Fault { cause: Cause::UnknownInstruction, offset: pos })
        }
    }

    /// Reads the label or instruction that starts at `pos`.
    pub fn label_or_instruction(&mut self, line: &'a [u8], pos: usize) -> (r: Result<usize, Fault>)
        ensures
            final(self).did(old(self), r, item_outcome(old(self)@, line@, pos as int)),
    {
        let w = match get_word(line, pos) {
            Some(w) => w,
            None => {
                return Err(Fault { cause: Cause::NoToken, offset: pos });
            },
        };
        if w < line.len() && line[w] == COLON {
            let n: usize = self.sections.len();
            if n == 0 {
                return Err(Fault { cause: Cause::NoSection, offset: w });
            }
            let at: usize = self.sections[n - 1].data().len();
            self.labels.push(Label::new(slice_subrange(line, pos, w), at, n));
            assert(self@.labels =~= marked(old(self)@, line@.subrange(pos as int, w as int)).labels);
            return Ok(w + 1);
        }
        let p = self.ignore_space(line, w);
        self._instruction(line, p, slice_subrange(line, pos, w))
    }

    /// Scans one line.
    pub fn scan_line(&mut self, line: &'a [u8]) -> (r: Result<(), Fault>)
        ensures
            final(self)@ == line_outcome(old(self)@, line@, 0).image,
            fault_of(r) == line_outcome(old(self)@, line@, 0).fault,
            final(self).same_text(old(self)),
            r matches Err(f) ==> f.offset <= line@.len(),
    {
        let mut pos: usize = 0;
        let len: usize = line.len();
        while pos < len
            invariant
                pos <= line@.len(),
                len == line@.len(),
                self.same_text(old(self)),
                line_outcome(self@, line@, pos as int) == line_outcome(old(self)@, line@, 0),
            decreases line@.len() - pos,
        {
            proof {
                lemma_run_end(line@, pos as int, ByteClass::Blank);
            }
            if let Some(next) = ignore_space(line, pos) {
                proof {
                    lemma_line_skips_blanks(self@, line@, pos as int);
                }
                pos = next;
            } else if is_ignore_comment(line, pos) {
                return Ok(());
            } else {
                proof {
                    lemma_item_within(self@, line@, pos as int);
                }
                match self.label_or_instruction(line, pos) {
                    Ok(next) => {
                        pos = next;
                    },
                    Err(f) => {
                        return Err(f);
                    },
                }
            }
        }
        Ok(())
    }

    /// Scans the source text line by line, up to its end or to the first
    /// fault. What was produced before a fault stays.
    pub fn start(&mut self) -> (r: Result<(), Fault>)
        ensures
            final(self)@ == text_outcome(old(self)@, old(self).source(), 0).image,
            fault_of(r) == text_outcome(old(self)@, old(self).source(), 0).fault,
            final(self).same_text(old(self)),
    {
        let text: &'a [u8] = self.m_contents;
        let mut start: usize = 0;
        while start < text.len()
            invariant
                text@ == self.source(),
                self.same_text(old(self)),
                text_outcome(self@, text@, start as int) == text_outcome(
                    old(self)@,
                    old(self).source(),
                    0,
                ),
            decreases text@.len() - start,
        {
            let stop = skip_class(text, start, ByteClass::Except(NEWLINE));
            let end = if start < stop && stop < text.len() && text[stop - 1] == RETURN {
                stop - 1
            } else {
                stop
            };
            if let Err(f) = self.scan_line(slice_subrange(text, start, end)) {
                return Err(Fault { cause: f.cause, offset: start + f.offset });
            }
            if stop < text.len() {
                start = stop + 1;
            } else {
                return Ok(());
            }
        }
        Ok(())
    }

    /// The sections as text, for a look at what was assembled: for each
    /// section a line with its name and a line with its bytes in
    /// hexadecimal.
    pub fn debug(&self) -> (out: Vec<u8>)
        ensures
            out@ == dump(self@.sections, self@.sections.len()),
    {
        let mut out: Vec<u8> = Vec::new();
        let n: usize = self.sections.len();
        let mut i: usize = 0;
        while i < n
            invariant
                i <= n,
                n == self.sections@.len(),
                out@ == dump(self@.sections, i as nat),
            decreases n - i,
        {
            put_section(&mut out, &self.sections[i]);
            i += 1;
        }
        out
    }

    /// Lays the program out as an object file stamped `timestamp`.
    pub fn serialize(&self, timestamp: u32) -> (r: Result<Vec<u8>, FormatError>)
        ensures
            lays_out(self.file(), self@, timestamp, bytes_of(r)),
    {
        serialize(self.m_file, &self.sections, &self.labels, timestamp)
    }

    /// Lays the program out as an object file stamped with the time of the
    /// call: the seconds since 1970 by the system clock, cut to 32 bits.
    pub fn write(&self) -> (r: Result<Vec<u8>, FormatError>)
        ensures
            exists|seconds: i64| lays_out(self.file(), self@, stamp_of(seconds as int), bytes_of(r)),
    {
        let seconds: i64 = unix_seconds();
        let r = self.serialize(stamp(seconds));
        r
    }
}

} // verus!
