//! The register table and the two encoding bytes that name registers.

use vstd::prelude::*;
use vstd::string::{is_ascii, is_ascii_spec_bytes, StringSliceAdditionalSpecFns};

verus! {

pub const RAX: u8 = 0b0000;
pub const RCX: u8 = 0b0001;
pub const RDX: u8 = 0b0010;
pub const RBX: u8 = 0b0011;
pub const RSP: u8 = 0b0100;
pub const RBP: u8 = 0b0101;
pub const RSI: u8 = 0b0110;
pub const RDI: u8 = 0b0111;
pub const R8: u8 = 0b1000;
pub const R9: u8 = 0b1001;
pub const R10: u8 = 0b1010;
pub const R11: u8 = 0b1011;
pub const R12: u8 = 0b1100;
pub const R13: u8 = 0b1101;
pub const R14: u8 = 0b1110;
pub const R15: u8 = 0b1111;

/// Bit positions of the four flags inside a REX prefix.
pub const REX_W: u8 = 3;
pub const REX_R: u8 = 2;
pub const REX_X: u8 = 1;
pub const REX_B: u8 = 0;

/// The ModRM byte as the bit pattern `mod << 6 | reg << 3 | rm`.
pub open spec fn modrm_bits(modf: u8, reg: u8, rm: u8) -> u8 {
    (modf << 6) | (reg << 3) | rm
}

/// The REX prefix as the bit pattern `0x40 | w << 3 | r << 2 | x << 1 | b`.
pub open spec fn rex_bits(w: u8, r: u8, x: u8, b: u8) -> u8 {
    0x40u8 | (w << REX_W) | (r << REX_R) | (x << REX_X) | (b << REX_B)
}

/// With every field in range the ModRM bit pattern is a sum of disjoint fields.
pub proof fn lemma_modrm_fields(modf: u8, reg: u8, rm: u8)
    requires
        modf < 4,
        reg < 8,
        rm < 8,
    ensures
        modrm_bits(modf, reg, rm) == 64 * modf + 8 * reg + rm,
{
    assert(modf < 4 && reg < 8 && rm < 8 ==> ((modf << 6) | (reg << 3) | rm) == 64 * modf + 8 * reg
        + rm) by (bit_vector);
}

/// With every flag a single bit the REX bit pattern is `0x40` plus the flags.
pub proof fn lemma_rex_fields(w: u8, r: u8, x: u8, b: u8)
    requires
        w < 2,
        r < 2,
        x < 2,
        b < 2,
    ensures
        rex_bits(w, r, x, b) == 0x40 + 8 * w + 4 * r + 2 * x + b,
{
    assert(w < 2 && r < 2 && x < 2 && b < 2 ==> (0x40u8 | (w << 3u8) | (r << 2u8) | (x << 1u8) | (b
        << 0u8)) == 0x40 + 8 * w + 4 * r + 2 * x + b) by (bit_vector);
}

/// Builds a ModRM byte from its addressing mode, `reg` field and `rm` field.
pub fn create_modrm(modf: u8, reg: u8, rm: u8) -> (r: u8)
    ensures
        r == modrm_bits(modf, reg, rm),
        modf < 4 && reg < 8 && rm < 8 ==> r == 64 * modf + 8 * reg + rm,
{
    proof {
        if modf < 4 && reg < 8 && rm < 8 {
            lemma_modrm_fields(modf, reg, rm);
        }
    }
    modf << 6 | reg << 3 | rm
}

/// Builds a REX prefix from its four flags.
pub fn create_rex(w: u8, r: u8, x: u8, b: u8) -> (rex: u8)
    ensures
        rex == rex_bits(w, r, x, b),
        w < 2 && r < 2 && x < 2 && b < 2 ==> rex == 0x40 + 8 * w + 4 * r + 2 * x + b,
{
    proof {
        if w < 2 && r < 2 && x < 2 && b < 2 {
            lemma_rex_fields(w, r, x, b);
        }
    }
    0x40 | w << REX_W | r << REX_R | x << REX_X | b << REX_B
}

/// The meaning of one instruction operand.
#[derive(Clone, Copy, Debug, PartialEq, Eq)]
pub enum Value<'a> {
    /// An unsigned decimal literal, kept as its digits; its width is chosen by
    /// the encoder that consumes it.
    Figure(&'a [u8]),
    /// A register: its four-bit number and its width in bytes.
    Reg(u8, u8),
}

/// The lower-case form of an ASCII letter; any other byte is left alone.
pub open spec fn lower_byte(c: u8) -> u8 {
    if 0x41 <= c <= 0x5a {
        (c + 0x20) as u8
    } else {
        c
    }
}

/// A byte string with every ASCII letter in lower case.
pub open spec fn ascii_lower(s: Seq<u8>) -> Seq<u8> {
    Seq::new(s.len(), |i: int| lower_byte(s[i]))
}

/// The mnemonic of the register with the given number, in lower case.
pub open spec fn register_name(n: int) -> Seq<u8> {
    if n == 0 {
        "rax".spec_bytes()
    } else if n == 1 {
        "rcx".spec_bytes()
    } else if n == 2 {
        "rdx".spec_bytes()
    } else if n == 3 {
        "rbx".spec_bytes()
    } else if n == 4 {
        "rsp".spec_bytes()
    } else if n == 5 {
        "rbp".spec_bytes()
    } else if n == 6 {
        "rsi".spec_bytes()
    } else if n == 7 {
        "rdi".spec_bytes()
    } else if n == 8 {
        "r8".spec_bytes()
    } else if n == 9 {
        "r9".spec_bytes()
    } else if n == 10 {
        "r10".spec_bytes()
    } else if n == 11 {
        "r11".spec_bytes()
    } else if n == 12 {
        "r12".spec_bytes()
    } else if n == 13 {
        "r13".spec_bytes()
    } else if n == 14 {
        "r14".spec_bytes()
    } else {
        "r15".spec_bytes()
    }
}

/// Whether `name`, letter case aside, is the mnemonic of register `n`.
pub open spec fn names_register(name: Seq<u8>, n: int) -> bool {
    0 <= n < 16 && ascii_lower(name) == register_name(n)
}

/// Whether `name` is the mnemonic of any of the sixteen registers.
pub open spec fn is_register(name: Seq<u8>) -> bool {
    exists|n: int| names_register(name, n)
}

/// Lower-cases one byte.
pub fn to_lower(c: u8) -> (r: u8)
    ensures
        r == lower_byte(c),
{
    if 0x41 <= c && c <= 0x5a {
        c + 0x20
    } else {
        c
    }
}

/// Compares `word`, letter case aside, with a lower-case literal.
pub fn matches_lower(word: &[u8], literal: &str) -> (r: bool)
    ensures
        r == (ascii_lower(word@) == literal.spec_bytes()),
{
    let lit = literal.as_bytes();
    if word.len() != lit.len() {
        return false;
    }
    let mut i: usize = 0;
    while i < word.len()
        invariant
            i <= word.len(),
            word.len() == lit.len(),
            lit@ == literal.spec_bytes(),
            forall|j: int| 0 <= j < i ==> lower_byte(word@[j]) == lit@[j],
        decreases word.len() - i,
    {
        if to_lower(word[i]) != lit[i] {
            return false;
        }
        i += 1;
    }
    assert(ascii_lower(word@) =~= lit@);
    true
}

/// An operand as a mathematical value.
pub enum Operand {
    /// A figure, as its digits.
    Figure(Seq<u8>),
    /// A register: its number and its width in bytes.
    Reg(u8, u8),
}

impl<'a> View for Value<'a> {
    type V = Operand;

    open spec fn view(&self) -> Operand {
        match self {
            Value::Figure(text) => Operand::Figure(text@),
            Value::Reg(n, width) => Operand::Reg(*n, *width),
        }
    }
}

/// The number of the register that `name` is the mnemonic of, letter case
/// aside.
pub open spec fn register_number(name: Seq<u8>) -> Option<u8> {
    if is_register(name) {
        Some((choose|n: int| names_register(name, n)) as u8)
    } else {
        None
    }
}

/// The bytes of an ASCII literal are its characters.
pub proof fn lemma_ascii_bytes(s: &str)
    requires
        is_ascii(s),
    ensures
        s.spec_bytes() == Seq::new(s@.len(), |i: int| s@[i] as u8),
{
    is_ascii_spec_bytes(s);
}

/// The sixteen mnemonics, byte by byte.
pub proof fn lemma_register_names()
    ensures
        register_name(0) == seq![0x72u8, 0x61, 0x78],
        register_name(1) == seq![0x72u8, 0x63, 0x78],
        register_name(2) == seq![0x72u8, 0x64, 0x78],
        register_name(3) == seq![0x72u8, 0x62, 0x78],
        register_name(4) == seq![0x72u8, 0x73, 0x70],
        register_name(5) == seq![0x72u8, 0x62, 0x70],
        register_name(6) == seq![0x72u8, 0x73, 0x69],
        register_name(7) == seq![0x72u8, 0x64, 0x69],
        register_name(8) == seq![0x72u8, 0x38],
        register_name(9) == seq![0x72u8, 0x39],
        register_name(10) == seq![0x72u8, 0x31, 0x30],
        register_name(11) == seq![0x72u8, 0x31, 0x31],
        register_name(12) == seq![0x72u8, 0x31, 0x32],
        register_name(13) == seq![0x72u8, 0x31, 0x33],
        register_name(14) == seq![0x72u8, 0x31, 0x34],
        register_name(15) == seq![0x72u8, 0x31, 0x35],
{
    reveal_strlit("rax");
    reveal_strlit("rcx");
    reveal_strlit("rdx");
    reveal_strlit("rbx");
    reveal_strlit("rsp");
    reveal_strlit("rbp");
    reveal_strlit("rsi");
    reveal_strlit("rdi");
    reveal_strlit("r8");
    reveal_strlit("r9");
    reveal_strlit("r10");
    reveal_strlit("r11");
    reveal_strlit("r12");
    reveal_strlit("r13");
    reveal_strlit("r14");
    reveal_strlit("r15");
    lemma_ascii_bytes("rax");
    lemma_ascii_bytes("rcx");
    lemma_ascii_bytes("rdx");
    lemma_ascii_bytes("rbx");
    lemma_ascii_bytes("rsp");
    lemma_ascii_bytes("rbp");
    lemma_ascii_bytes("rsi");
    lemma_ascii_bytes("rdi");
    lemma_ascii_bytes("r8");
    lemma_ascii_bytes("r9");
    lemma_ascii_bytes("r10");
    lemma_ascii_bytes("r11");
    lemma_ascii_bytes("r12");
    lemma_ascii_bytes("r13");
    lemma_ascii_bytes("r14");
    lemma_ascii_bytes("r15");
}

/// No two registers share a mnemonic.
pub proof fn lemma_register_names_distinct(i: int, j: int)
    requires
        0 <= i < 16,
        0 <= j < 16,
        register_name(i) == register_name(j),
    ensures
        i == j,
{
    lemma_register_names();
}

/// A mnemonic names one register only.
pub proof fn lemma_register_number(name: Seq<u8>, n: int)
    requires
        names_register(name, n),
    ensures
        register_number(name) == Some(n as u8),
{
    let m = choose|m: int| names_register(name, m);
    lemma_register_names_distinct(n, m);
}

/// Looks a register mnemonic up, letter case aside. A mnemonic of one of the
/// sixteen 64-bit general-purpose registers gives that register with width 8;
/// any other name is handed back as the error.
pub fn reg<'a>(rm: &'a [u8]) -> (r: Result<Value<'a>, &'a [u8]>)
    ensures
        match r {
            Ok(v) => register_number(rm@) is Some && v@ == Operand::Reg(
                register_number(rm@).unwrap(),
                8,
            ),
            Err(name) => name@ == rm@ && register_number(rm@) is None,
        },
{
    let r = lookup(rm);
    proof {
        if let Ok(Value::Reg(n, _)) = r {
            lemma_register_number(rm@, n as int);
        }
    }
    r
}

/// The table behind `reg`.
fn lookup<'a>(rm: &'a [u8]) -> (r: Result<Value<'a>, &'a [u8]>)
    ensures
        match r {
            Ok(Value::Reg(n, width)) => names_register(rm@, n as int) && width == 8,
            Ok(Value::Figure(_)) => false,
            Err(name) => name@ == rm@ && !is_register(rm@),
        },
{
    if matches_lower(rm, "rax") {
        Ok(Value::Reg(RAX, 8))
    } else if matches_lower(rm, "rcx") {
        Ok(Value::Reg(RCX, 8))
    } else if matches_lower(rm, "rdx") {
        Ok(Value::Reg(RDX, 8))
    } else if matches_lower(rm, "rbx") {
        Ok(Value::Reg(RBX, 8))
    } else if matches_lower(rm, "rsp") {
        Ok(Value::Reg(RSP, 8))
    } else if matches_lower(rm, "rbp") {
        Ok(Value::Reg(RBP, 8))
    } else if matches_lower(rm, "rsi") {
        Ok(Value::Reg(RSI, 8))
    } else if matches_lower(rm, "rdi") {
        Ok(Value::Reg(RDI, 8))
    } else if matches_lower(rm, "r8") {
        Ok(Value::Reg(R8, 8))
    } else if matches_lower(rm, "r9") {
        Ok(Value::Reg(R9, 8))
    } else if matches_lower(rm, "r10") {
        Ok(Value::Reg(R10, 8))
    } else if matches_lower(rm, "r11") {
        Ok(Value::Reg(R11, 8))
    } else if matches_lower(rm, "r12") {
        Ok(Value::Reg(R12, 8))
    } else if matches_lower(rm, "r13") {
        Ok(Value::Reg(R13, 8))
    } else if matches_lower(rm, "r14") {
        Ok(Value::Reg(R14, 8))
    } else if matches_lower(rm, "r15") {
        Ok(Value::Reg(R15, 8))
    } else {
        Err(rm)
    }
}

} // verus!
