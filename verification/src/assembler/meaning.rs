//! What source text means: how each construct changes the image of a run,
//! where the scan stands afterwards, and which fault ends it.

use super::bytes::{le_bytes, zeros};
use super::encode::{arith_code, figure_value, mov_code, Arith};
use super::fault::{Cause, Fault};
use super::object::Image;
use super::reg::{ascii_lower, register_number, Operand};
use super::scan::{
    blanks_end,
    figure_end,
    is_blank,
    is_punctuation,
    is_quote,
    lemma_run_end,
    run_end,
    string_close,
    word_end,
    ByteClass,
    COLON,
    COMMA,
    NEWLINE,
    RETURN,
    SEMICOLON,
};
use super::section::{LabelView, SectionView};
use vstd::prelude::*;
use vstd::string::StringSliceAdditionalSpecFns;

verus! {

/// Opcode of `ret`.
pub const RET: u8 = 0xC3;

/// What one construct does: the image after it, and the position behind it
/// or the fault that it ends in.
pub struct Outcome {
    pub image: Image,
    pub end: Result<int, Fault>,
}

/// What a line or a whole text does: the image after it, and the fault that
/// it ended in, if any.
pub struct Run {
    pub image: Image,
    pub fault: Option<Fault>,
}

/// The two operands of an instruction, each with the position at which it
/// starts, and the position behind the second.
pub struct Operands {
    pub first: Operand,
    pub first_at: int,
    pub second: Operand,
    pub second_at: int,
    pub next: int,
}

/// The instructions with two operands.
#[derive(Clone, Copy, Debug, PartialEq, Eq, Structural)]
pub enum Binary {
    Mov,
    Add,
    Sub,
}

/// The image after a fault at `pos`: nothing changes.
pub open spec fn stopped(img: Image, cause: Cause, pos: int) -> Outcome {
    Outcome { image: img, end: Err(Fault { cause, offset: pos as usize }) }
}

/// An outcome without a fault.
pub open spec fn went_on(img: Image, next: int) -> Outcome {
    Outcome { image: img, end: Ok(next) }
}

/// The image with `bytes` appended to the data of the last section.
pub open spec fn emitted(img: Image, bytes: Seq<u8>) -> Image
    recommends
        img.sections.len() > 0,
{
    let last = img.sections.len() - 1;
    Image {
        sections: img.sections.update(
            last,
            SectionView { data: img.sections[last].data + bytes, ..img.sections[last] },
        ),
        labels: img.labels,
    }
}

/// The image with a new, empty section `name` behind the others.
pub open spec fn opened(img: Image, name: Seq<u8>) -> Image {
    Image {
        sections: img.sections.push(SectionView { name, data: Seq::empty(), relocations: 0 }),
        labels: img.labels,
    }
}

/// The image with a new label `name` at the end of the last section. Its
/// section number is the number of sections so far.
pub open spec fn marked(img: Image, name: Seq<u8>) -> Image
    recommends
        img.sections.len() > 0,
{
    Image {
        sections: img.sections,
        labels: img.labels.push(
            LabelView {
                name,
                pos: img.sections.last().data.len(),
                section_number: img.sections.len(),
            },
        ),
    }
}

/// The operand that starts at `pos`, and the position behind it. A word
/// there must name a register; where no word starts, a figure may.
pub open spec fn operand_at(t: Seq<u8>, pos: int) -> Option<(Operand, int)> {
    let w = word_end(t, pos);
    let d = figure_end(t, pos);
    if pos < w {
        match register_number(t.subrange(pos, w)) {
            Some(n) => Some((Operand::Reg(n, 8), w)),
            None => None,
        }
    } else if pos < d {
        Some((Operand::Figure(t.subrange(pos, d)), d))
    } else {
        None
    }
}

/// The position behind the comma that stands at `pos` or after blanks.
pub open spec fn comma_at(t: Seq<u8>, pos: int) -> Result<int, Fault> {
    let p = blanks_end(t, pos);
    if !(0 <= p < t.len()) || !is_punctuation(t[p]) {
        Err(Fault { cause: Cause::NoComma, offset: p as usize })
    } else if t[p] != COMMA {
        Err(Fault { cause: Cause::NotComma, offset: (p + 1) as usize })
    } else {
        Ok(p + 1)
    }
}

/// The two operands that start at `pos`: an operand, a comma, an operand,
/// with blanks allowed around the comma.
pub open spec fn operands_at(t: Seq<u8>, pos: int) -> Result<Operands, Fault> {
    match operand_at(t, pos) {
        None => Err(Fault { cause: Cause::FirstOperand, offset: pos as usize }),
        Some((first, behind)) => match comma_at(t, behind) {
            Err(f) => Err(f),
            Ok(after) => {
                let second_at = blanks_end(t, after);
                match operand_at(t, second_at) {
                    None => Err(Fault { cause: Cause::SecondOperand, offset: second_at as usize }),
                    Some((second, next)) => Ok(
                        Operands { first, first_at: pos, second, second_at, next },
                    ),
                }
            },
        },
    }
}

/// The machine code of an instruction with two operands.
pub open spec fn binary_code(m: Binary, dst: Operand, src: Operand) -> Result<Seq<u8>, Cause> {
    match m {
        Binary::Mov => mov_code(dst, src),
        Binary::Add => arith_code(Arith::Add, dst, src),
        Binary::Sub => arith_code(Arith::Sub, dst, src),
    }
}

/// The operand at which a fault of the encoder is reported: the first for a
/// destination that is no register, else the second.
pub open spec fn blamed(cause: Cause, args: Operands) -> int {
    if cause == Cause::NotRegister {
        args.first_at
    } else {
        args.second_at
    }
}

/// An instruction with two operands, whose operands start at `pos`: its code
/// goes to the end of the last section.
pub open spec fn binary_outcome(img: Image, t: Seq<u8>, pos: int, m: Binary) -> Outcome {
    if img.sections.len() == 0 {
        stopped(img, Cause::NoSection, pos)
    } else {
        match operands_at(t, pos) {
            Err(f) => Outcome { image: img, end: Err(f) },
            Ok(args) => match binary_code(m, args.first, args.second) {
                Err(cause) => stopped(img, cause, blamed(cause, args)),
                Ok(code) => went_on(emitted(img, code), args.next),
            },
        }
    }
}

/// `ret`: one byte, and the rest of the line is passed over.
pub open spec fn ret_outcome(img: Image, t: Seq<u8>, pos: int) -> Outcome {
    if img.sections.len() == 0 {
        stopped(img, Cause::NoSection, pos)
    } else {
        went_on(
            emitted(img, seq![RET]),
            if pos <= t.len() {
                t.len() as int
            } else {
                pos
            },
        )
    }
}

/// `section`: the word after it names a new section, which is from then on
/// the last.
pub open spec fn section_outcome(img: Image, t: Seq<u8>, pos: int) -> Outcome {
    let p = blanks_end(t, pos);
    let w = word_end(t, p);
    if p < w {
        went_on(opened(img, t.subrange(p, w)), w)
    } else {
        stopped(img, Cause::SectionName, p)
    }
}

/// The width in bytes that the last letter of a data mnemonic selects; zero
/// for a letter that selects none.
pub open spec fn width_of(selector: u8) -> u8 {
    if selector == 0x62 {
        1
    } else if selector == 0x77 {
        2
    } else if selector == 0x64 {
        4
    } else if selector == 0x71 {
        8
    } else if selector == 0x74 {
        16
    } else if selector == 0x6f {
        32
    } else if selector == 0x79 {
        64
    } else if selector == 0x7a {
        128
    } else {
        0
    }
}

/// A reservation of `width` bytes per unit: the figure after it counts the
/// units, and that many zero bytes go to the end of the last section.
pub open spec fn reserve_outcome(img: Image, t: Seq<u8>, pos: int, width: u8) -> Outcome {
    let p = blanks_end(t, pos);
    let d = figure_end(t, p);
    if img.sections.len() == 0 {
        stopped(img, Cause::NoSection, pos)
    } else if d <= p {
        stopped(img, Cause::NoFigure, p)
    } else {
        match figure_value(t.subrange(p, d)) {
            None => stopped(img, Cause::FigureRange, p),
            Some(count) => if img.sections.last().data.len() + width * count > usize::MAX {
                stopped(img, Cause::TooLarge, p)
            } else {
                went_on(emitted(img, zeros((width * count) as nat)), d)
            },
        }
    }
}

/// The bytes of the data item that starts at `p`, and the position behind
/// it. A string gives its content and then as many zero bytes as its length
/// leaves when divided by the width; a figure gives its `width` low-order
/// bytes, least significant first.
pub open spec fn datum_at(t: Seq<u8>, p: int, width: u8) -> Result<(Seq<u8>, int), Fault> {
    let d = figure_end(t, p);
    if 0 <= p < t.len() && is_quote(t[p]) {
        match string_close(t, p) {
            None => Err(Fault { cause: Cause::OpenString, offset: p as usize }),
            Some(close) => if width == 0 {
                Err(Fault { cause: Cause::ZeroWidth, offset: p as usize })
            } else {
                let content = t.subrange(p + 1, close);
                Ok((content + zeros(content.len() % (width as nat)), close + 1))
            },
        }
    } else if p < d {
        match figure_value(t.subrange(p, d)) {
            None => Err(Fault { cause: Cause::FigureRange, offset: p as usize }),
            Some(v) => Ok((le_bytes(v as nat, width as nat), d)),
        }
    } else {
        Err(Fault { cause: Cause::NoDatum, offset: p as usize })
    }
}

/// A data item ends behind where it starts, and within the text.
pub proof fn lemma_datum_advances(t: Seq<u8>, p: int, width: u8)
    requires
        0 <= p <= t.len(),
    ensures
        datum_at(t, p, width) matches Ok((_, next)) ==> p < next <= t.len(),
{
    lemma_run_end(t, p, ByteClass::Digit);
    if p < t.len() && is_quote(t[p]) {
        lemma_run_end(t, p + 1, ByteClass::Except(t[p]));
    }
}

/// A data declaration of `width` bytes per unit: one data item or several
/// with commas between them, each of which goes to the end of the last
/// section in turn.
pub open spec fn data_outcome(img: Image, t: Seq<u8>, pos: int, width: u8) -> Outcome
    decreases t.len() - pos,
{
    let p = blanks_end(t, pos);
    if img.sections.len() == 0 {
        stopped(img, Cause::NoSection, pos)
    } else if !(0 <= pos <= t.len()) {
        stopped(img, Cause::NoDatum, pos)
    } else {
        match datum_at(t, p, width) {
            Err(f) => Outcome { image: img, end: Err(f) },
            Ok((bytes, next)) => {
                let q = blanks_end(t, next);
                if 0 <= q < t.len() && t[q] == COMMA {
                    proof {
                        lemma_run_end(t, pos, ByteClass::Blank);
                        lemma_datum_advances(t, p, width);
                        lemma_run_end(t, next, ByteClass::Blank);
                    }
                    data_outcome(emitted(img, bytes), t, q + 1, width)
                } else {
                    went_on(emitted(img, bytes), q)
                }
            },
        }
    }
}

/// The instruction or directive with the given mnemonic, with `pos` the
/// position of what follows the mnemonic. Letter case does not matter. Two
/// letters of which the first is `d` declare data; four letters of which the
/// first three are `res` reserve space; the rest is `section`, `mov`, `ret`,
/// `add` and `sub`.
pub open spec fn instruction_outcome(img: Image, t: Seq<u8>, pos: int, mnemonic: Seq<u8>)
    -> Outcome {
    let m = ascii_lower(mnemonic);
    if m.len() == 2 && m[0] == 0x64 {
        data_outcome(img, t, pos, width_of(m[1]))
    } else if m.len() == 4 && m[0] == 0x72 && m[1] == 0x65 && m[2] == 0x73 {
        reserve_outcome(img, t, pos, width_of(m[3]))
    } else if m == "section".spec_bytes() {
        section_outcome(img, t, pos)
    } else if m == "mov".spec_bytes() {
        binary_outcome(img, t, pos, Binary::Mov)
    } else if m == "ret".spec_bytes() {
        ret_outcome(img, t, pos)
    } else if m == "add".spec_bytes() {
        binary_outcome(img, t, pos, Binary::Add)
    } else if m == "sub".spec_bytes() {
        binary_outcome(img, t, pos, Binary::Sub)
    } else {
        stopped(img, Cause::UnknownInstruction, pos)
    }
}

/// The label or instruction that starts at `pos`. A word with a colon right
/// behind it defines a label at the end of the last section; any other word
/// is a mnemonic, and what follows it starts behind the blanks after it.
pub open spec fn item_outcome(img: Image, t: Seq<u8>, pos: int) -> Outcome {
    let w = word_end(t, pos);
    if w <= pos {
        stopped(img, Cause::NoToken, pos)
    } else if 0 <= w < t.len() && t[w] == COLON {
        if img.sections.len() == 0 {
            stopped(img, Cause::NoSection, w)
        } else {
            went_on(marked(img, t.subrange(pos, w)), w + 1)
        }
    } else {
        instruction_outcome(img, t, blanks_end(t, w), t.subrange(pos, w))
    }
}

/// Whether an outcome that started at `pos` in a text of length `len` went
/// on, if it did, at or behind `pos` and within the text.
pub open spec fn advances(o: Outcome, pos: int, len: int) -> bool {
    o.end matches Ok(next) ==> pos <= next <= len
}

/// Whether an outcome that started at `pos` in a text of length `len`
/// stopped, if it did, at or behind `pos` and within the text.
pub open spec fn stops_within(o: Outcome, pos: int, len: int) -> bool {
    o.end matches Err(f) ==> pos <= f.offset <= len
}

/// An operand ends behind where it starts, and within the text.
pub proof fn lemma_operand_at(t: Seq<u8>, pos: int)
    requires
        0 <= pos <= t.len(),
    ensures
        operand_at(t, pos) matches Some((_, next)) ==> pos < next <= t.len(),
{
    lemma_run_end(t, pos, ByteClass::Digit);
    if pos < t.len() {
        lemma_run_end(t, pos + 1, ByteClass::WordPart);
    }
}

/// Two operands lie in order behind `pos` and within the text, and a
/// fault in them lies at or behind `pos` and within the text.
pub proof fn lemma_operands_at(t: Seq<u8>, pos: int)
    requires
        0 <= pos <= t.len(),
    ensures
        operands_at(t, pos) matches Ok(args) ==> args.first_at == pos && pos < args.second_at
            < args.next <= t.len(),
        t.len() <= usize::MAX ==> (operands_at(t, pos) matches Err(f) ==> pos <= f.offset
            <= t.len()),
{
    lemma_operand_at(t, pos);
    if let Some((_, behind)) = operand_at(t, pos) {
        lemma_run_end(t, behind, ByteClass::Blank);
        if let Ok(after) = comma_at(t, behind) {
            lemma_run_end(t, after, ByteClass::Blank);
            lemma_operand_at(t, blanks_end(t, after));
        }
    }
}

/// An instruction with two operands goes on, or stops, at or behind `pos`
/// and within the text.
pub proof fn lemma_binary_within(img: Image, t: Seq<u8>, pos: int, m: Binary)
    requires
        0 <= pos <= t.len(),
    ensures
        advances(binary_outcome(img, t, pos, m), pos, t.len() as int),
        t.len() <= usize::MAX ==> stops_within(binary_outcome(img, t, pos, m), pos, t.len() as int),
{
    lemma_operands_at(t, pos);
}

/// A reservation goes on, or stops, at or behind `pos` and within the text.
pub proof fn lemma_reserve_within(img: Image, t: Seq<u8>, pos: int, width: u8)
    requires
        0 <= pos <= t.len(),
    ensures
        advances(reserve_outcome(img, t, pos, width), pos, t.len() as int),
        t.len() <= usize::MAX ==> stops_within(
            reserve_outcome(img, t, pos, width),
            pos,
            t.len() as int,
        ),
{
    lemma_run_end(t, pos, ByteClass::Blank);
    lemma_run_end(t, blanks_end(t, pos), ByteClass::Digit);
}

/// A section directive goes on, or stops, at or behind `pos` and within
/// the text.
pub proof fn lemma_section_within(img: Image, t: Seq<u8>, pos: int)
    requires
        0 <= pos <= t.len(),
    ensures
        advances(section_outcome(img, t, pos), pos, t.len() as int),
        t.len() <= usize::MAX ==> stops_within(section_outcome(img, t, pos), pos, t.len() as int),
{
    lemma_run_end(t, pos, ByteClass::Blank);
    let p = blanks_end(t, pos);
    if p < t.len() {
        lemma_run_end(t, p + 1, ByteClass::WordPart);
    }
}

/// A data declaration goes on, or stops, at or behind `pos` and within
/// the text.
pub proof fn lemma_data_within(img: Image, t: Seq<u8>, pos: int, width: u8)
    requires
        0 <= pos <= t.len(),
    ensures
        advances(data_outcome(img, t, pos, width), pos, t.len() as int),
        t.len() <= usize::MAX ==> stops_within(data_outcome(img, t, pos, width), pos, t.len() as int),
    decreases t.len() - pos,
{
    lemma_run_end(t, pos, ByteClass::Blank);
    let p = blanks_end(t, pos);
    lemma_datum_advances(t, p, width);
    if img.sections.len() > 0 {
        if let Ok((bytes, next)) = datum_at(t, p, width) {
            lemma_run_end(t, next, ByteClass::Blank);
            let q = blanks_end(t, next);
            if q < t.len() && t[q] == COMMA {
                lemma_data_within(emitted(img, bytes), t, q + 1, width);
            }
        }
    }
}

/// Every instruction and directive goes on, or stops, at or behind `pos`
/// and within the text.
pub proof fn lemma_instruction_within(img: Image, t: Seq<u8>, pos: int, mnemonic: Seq<u8>)
    requires
        0 <= pos <= t.len(),
    ensures
        advances(instruction_outcome(img, t, pos, mnemonic), pos, t.len() as int),
        t.len() <= usize::MAX ==> stops_within(
            instruction_outcome(img, t, pos, mnemonic),
            pos,
            t.len() as int,
        ),
{
    let m = ascii_lower(mnemonic);
    lemma_data_within(img, t, pos, width_of(m[1]));
    lemma_reserve_within(img, t, pos, width_of(m[3]));
    lemma_section_within(img, t, pos);
    lemma_binary_within(img, t, pos, Binary::Mov);
    lemma_binary_within(img, t, pos, Binary::Sub);
}

/// A label or instruction ends behind where it starts.
pub proof fn lemma_item_within(img: Image, t: Seq<u8>, pos: int)
    requires
        0 <= pos <= t.len(),
    ensures
        item_outcome(img, t, pos).end matches Ok(next) ==> pos < next <= t.len(),
        t.len() <= usize::MAX ==> stops_within(item_outcome(img, t, pos), pos, t.len() as int),
{
    if pos < t.len() {
        lemma_run_end(t, pos + 1, ByteClass::WordPart);
    }
    let w = word_end(t, pos);
    if pos < w {
        lemma_run_end(t, w, ByteClass::Blank);
        lemma_instruction_within(img, t, blanks_end(t, w), t.subrange(pos, w));
    }
}

/// A line from `pos` on: blanks are passed over, a `;` ends the line as a
/// comment, and whatever else stands there is a label or an instruction,
/// behind which the line goes on in the same way.
pub open spec fn line_outcome(img: Image, t: Seq<u8>, pos: int) -> Run
    decreases t.len() - pos,
{
    if !(0 <= pos < t.len()) {
        Run { image: img, fault: None }
    } else if is_blank(t[pos]) {
        line_outcome(img, t, pos + 1)
    } else if t[pos] == SEMICOLON {
        Run { image: img, fault: None }
    } else {
        let o = item_outcome(img, t, pos);
        match o.end {
            Err(f) => Run { image: o.image, fault: Some(f) },
            Ok(next) => {
                proof {
                    lemma_item_within(img, t, pos);
                }
                line_outcome(o.image, t, next)
            },
        }
    }
}

/// A fault in a line lies within the line.
pub proof fn lemma_line_within(img: Image, t: Seq<u8>, pos: int)
    requires
        0 <= pos <= t.len() <= usize::MAX,
    ensures
        line_outcome(img, t, pos).fault matches Some(f) ==> pos <= f.offset <= t.len(),
    decreases t.len() - pos,
{
    if pos < t.len() {
        if is_blank(t[pos]) {
            lemma_line_within(img, t, pos + 1);
        } else if t[pos] != SEMICOLON {
            lemma_item_within(img, t, pos);
            let o = item_outcome(img, t, pos);
            if let Ok(next) = o.end {
                lemma_line_within(o.image, t, next);
            }
        }
    }
}

/// Passing over a run of blanks is passing over each of them.
pub proof fn lemma_line_skips_blanks(img: Image, t: Seq<u8>, pos: int)
    requires
        0 <= pos <= t.len(),
    ensures
        line_outcome(img, t, pos) == line_outcome(img, t, blanks_end(t, pos)),
    decreases t.len() - pos,
{
    if pos < t.len() && is_blank(t[pos]) {
        lemma_line_skips_blanks(img, t, pos + 1);
    }
}

/// Where the line that starts at `start` stops: at its line feed, or at the
/// end of the text.
pub open spec fn line_stop(s: Seq<u8>, start: int) -> int {
    run_end(s, start, ByteClass::Except(NEWLINE))
}

/// Where the content of the line that starts at `start` ends. A carriage
/// return right before the line feed belongs to the line break.
pub open spec fn line_end(s: Seq<u8>, start: int) -> int {
    let stop = line_stop(s, start);
    if start < stop < s.len() && s[stop - 1] == RETURN {
        stop - 1
    } else {
        stop
    }
}

/// A fault of a line, seen from the text in which the line starts at `start`.
pub open spec fn moved(f: Fault, start: int) -> Fault {
    Fault { cause: f.cause, offset: (start + f.offset) as usize }
}

/// A text from the line that starts at `start` on: line after line, up to
/// the first fault.
pub open spec fn text_outcome(img: Image, s: Seq<u8>, start: int) -> Run
    decreases s.len() - start,
{
    if !(0 <= start < s.len()) {
        Run { image: img, fault: None }
    } else {
        let r = line_outcome(img, s.subrange(start, line_end(s, start)), 0);
        if let Some(f) = r.fault {
            Run { image: r.image, fault: Some(moved(f, start)) }
        } else if line_stop(s, start) < s.len() {
            proof {
                lemma_run_end(s, start, ByteClass::Except(NEWLINE));
            }
            text_outcome(r.image, s, line_stop(s, start) + 1)
        } else {
            Run { image: r.image, fault: None }
        }
    }
}

/// Emitting touches the data of the last section and nothing else: the
/// other sections, the names and the labels stay as they are.
pub proof fn lemma_emitted(img: Image, bytes: Seq<u8>)
    requires
        img.sections.len() > 0,
    ensures
        ({
            let after = emitted(img, bytes);
            let last = img.sections.len() - 1;
            &&& after.labels == img.labels
            &&& after.sections.len() == img.sections.len()
            &&& forall|i: int| 0 <= i < last ==> after.sections[i] == img.sections[i]
            &&& after.sections[last].name == img.sections[last].name
            &&& after.sections[last].relocations == img.sections[last].relocations
            &&& after.sections[last].data == img.sections[last].data + bytes
        }),
{
}

/// A label is added behind the labels that are there, whatever their
/// names: one that is defined twice is kept twice.
pub proof fn lemma_marked(img: Image, name: Seq<u8>)
    ensures
        ({
            let after = marked(img, name);
            &&& after.sections == img.sections
            &&& after.labels.len() == img.labels.len() + 1
            &&& after.labels.subrange(0, img.labels.len() as int) == img.labels
            &&& after.labels.last().name == name
        }),
{
    let after = marked(img, name);
}

/// Before the first section is opened, every instruction and directive
/// but `section` ends in a fault and leaves the image as it is; the fault
/// is the same whenever the text is the same.
pub proof fn lemma_no_section(img: Image, t: Seq<u8>, pos: int, mnemonic: Seq<u8>)
    requires
        img.sections.len() == 0,
        ascii_lower(mnemonic) != "section".spec_bytes(),
    ensures
        instruction_outcome(img, t, pos, mnemonic) == stopped(img, Cause::NoSection, pos)
            || instruction_outcome(img, t, pos, mnemonic) == stopped(
            img,
            Cause::UnknownInstruction,
            pos,
        ),
{
}

/// Before the first section is opened, a label ends in a fault as well.
pub proof fn lemma_no_section_label(img: Image, t: Seq<u8>, pos: int)
    requires
        img.sections.len() == 0,
        pos < word_end(t, pos) < t.len(),
        t[word_end(t, pos)] == COLON,
    ensures
        item_outcome(img, t, pos) == stopped(img, Cause::NoSection, word_end(t, pos)),
{
}

} // verus!
