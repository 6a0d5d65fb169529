//! What can go wrong in a run, as values that a caller can inspect.

use vstd::prelude::*;

verus! {

/// The stage of a run at which a fault is found.
#[derive(Clone, Copy, Debug, PartialEq, Eq, Structural)]
pub enum Stage {
    /// No token of any kind starts at the position.
    Lexical,
    /// A construct is cut short or put together wrongly.
    Syntax,
    /// The operands or a literal fit no supported form.
    Semantic,
    /// The assembled program fits no object file.
    Format,
    /// The engine was asked to emit with no section open.
    Internal,
}

/// Why the scan of a source text stopped.
#[derive(Clone, Copy, Debug, PartialEq, Eq, Structural)]
pub enum Cause {
    /// Neither a label nor a mnemonic starts here.
    NoToken,
    /// The mnemonic names no instruction or directive.
    UnknownInstruction,
    /// `section` is not followed by a name.
    SectionName,
    /// The first operand is neither a register nor a figure.
    FirstOperand,
    /// The second operand is neither a register nor a figure.
    SecondOperand,
    /// No punctuation where the comma between two operands must stand.
    NoComma,
    /// Punctuation other than a comma between two operands.
    NotComma,
    /// A reservation without its count.
    NoFigure,
    /// A string that is never closed.
    OpenString,
    /// Neither a string nor a figure where a data item must stand.
    NoDatum,
    /// A figure beyond the range of 64 unsigned bits.
    FigureRange,
    /// An immediate that is no sign-extended 32-bit value.
    Signed32,
    /// The destination is not a register.
    NotRegister,
    /// A register outside the table of sixteen, or of a width other than 8.
    BadRegister,
    /// A string in a data declaration whose width selector is unknown.
    ZeroWidth,
    /// A reservation larger than any buffer.
    TooLarge,
    /// Nothing can be emitted before the first `section`.
    NoSection,
}

/// A fault in a source text: its cause and the byte offset at which the scan
/// stood when it was found.
#[derive(Clone, Copy, Debug, PartialEq, Eq, Structural)]
pub struct Fault {
    pub cause: Cause,
    pub offset: usize,
}

/// Why an assembled program cannot be laid out as an object file.
#[derive(Clone, Copy, Debug, PartialEq, Eq, Structural)]
pub enum FormatError {
    /// The section with this index has a name that the format has no flags for.
    UnknownSection(usize),
    /// The name of the source file is longer than an auxiliary record.
    FileName,
    /// The label with this index has a name longer than a name field.
    LabelName(usize),
}

impl Cause {
    /// The stage to which the cause belongs.
    pub open spec fn spec_stage(self) -> Stage {
        match self {
            Cause::NoToken => Stage::Lexical,
            Cause::UnknownInstruction
            | Cause::SectionName
            | Cause::FirstOperand
            | Cause::SecondOperand
            | Cause::NoComma
            | Cause::NotComma
            | Cause::NoFigure
            | Cause::OpenString
            | Cause::NoDatum => Stage::Syntax,
            Cause::FigureRange
            | Cause::Signed32
            | Cause::NotRegister
            | Cause::BadRegister
            | Cause::ZeroWidth
            | Cause::TooLarge => Stage::Semantic,
            Cause::NoSection => Stage::Internal,
        }
    }

    /// The text shown for the cause.
    pub open spec fn spec_message(self) -> Seq<char> {
        match self {
            Cause::NoToken => "Undefined lexical"@,
            Cause::UnknownInstruction => "Syntax Error."@,
            Cause::SectionName => "Syntax Error."@,
            Cause::FirstOperand => "mov: Expect Register or Memory"@,
            Cause::SecondOperand => "mov: Expect Register, Memory,or Memory"@,
            Cause::NoComma => "Require Comma."@,
            Cause::NotComma => "Require ',' ."@,
            Cause::NoFigure => "Require Figure."@,
            Cause::OpenString => "Require 'or\"."@,
            Cause::NoDatum => "Require string or figure."@,
            Cause::FigureRange => "Figure out of range."@,
            Cause::Signed32 => "Expect signed 32bit"@,
            Cause::NotRegister => "Not"@,
            Cause::BadRegister => "Unsupported register."@,
            Cause::ZeroWidth => "Unknown data width."@,
            Cause::TooLarge => "Reservation too large."@,
            Cause::NoSection => "No section."@,
        }
    }

    /// The stage to which the cause belongs.
    pub fn stage(&self) -> (s: Stage)
        ensures
            s == self.spec_stage(),
    {
        match self {
            Cause::NoToken => Stage::Lexical,
            Cause::UnknownInstruction
            | Cause::SectionName
            | Cause::FirstOperand
            | Cause::SecondOperand
            | Cause::NoComma
            | Cause::NotComma
            | Cause::NoFigure
            | Cause::OpenString
            | Cause::NoDatum => Stage::Syntax,
            Cause::FigureRange
            | Cause::Signed32
            | Cause::NotRegister
            | Cause::BadRegister
            | Cause::ZeroWidth
            | Cause::TooLarge => Stage::Semantic,
            Cause::NoSection => Stage::Internal,
        }
    }

    /// The text shown for the cause.
    pub fn message(&self) -> (m: &'static str)
        ensures
            m@ == self.spec_message(),
    {
        match self {
            Cause::NoToken => "Undefined lexical",
            Cause::UnknownInstruction => "Syntax Error.",
            Cause::SectionName => "Syntax Error.",
            Cause::FirstOperand => "mov: Expect Register or Memory",
            Cause::SecondOperand => "mov: Expect Register, Memory,or Memory",
            Cause::NoComma => "Require Comma.",
            Cause::NotComma => "Require ',' .",
            Cause::NoFigure => "Require Figure.",
            Cause::OpenString => "Require 'or\".",
            Cause::NoDatum => "Require string or figure.",
            Cause::FigureRange => "Figure out of range.",
            Cause::Signed32 => "Expect signed 32bit",
            Cause::NotRegister => "Not",
            Cause::BadRegister => "Unsupported register.",
            Cause::ZeroWidth => "Unknown data width.",
            Cause::TooLarge => "Reservation too large.",
            Cause::NoSection => "No section.",
        }
    }
}

impl FormatError {
    /// The stage to which the error belongs.
    pub fn stage(&self) -> (s: Stage)
        ensures
            s == Stage::Format,
    {
        Stage::Format
    }

    /// The text shown for the error.
    pub open spec fn spec_message(self) -> Seq<char> {
        match self {
            FormatError::UnknownSection(_) => "Can't use this section name."@,
            FormatError::FileName => "File name too long."@,
            FormatError::LabelName(_) => "Label name too long."@,
        }
    }

    /// The text shown for the error.
    pub fn message(&self) -> (m: &'static str)
        ensures
            m@ == self.spec_message(),
    {
        match self {
            FormatError::UnknownSection(_) => "Can't use this section name.",
            FormatError::FileName => "File name too long.",
            FormatError::LabelName(_) => "Label name too long.",
        }
    }
}

} // verus!
