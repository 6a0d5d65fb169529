//! Machine code for `mov`, `add` and `sub` on 64-bit registers, with a
//! register or an immediate as the source.

use super::bytes::{le_bytes, put_le};
use super::fault::Cause;
use super::reg::{create_modrm, create_rex, Operand, Value, RAX};
use super::scan::is_digit_byte;
use vstd::prelude::*;

verus! {

/// The two arithmetic instructions, which differ only in their opcodes.
#[derive(Clone, Copy, Debug, PartialEq, Eq, Structural)]
pub enum Arith {
    Add,
    Sub,
}

/// Opcode of `mov r/m64, r64`.
pub const MOV_RM_R: u8 = 0x89;

/// Opcode of `mov r/m64, imm32`, sign-extended.
pub const MOV_RM_IMM: u8 = 0xC7;

/// Opcode of `mov r, imm`, to which the low three bits of the register are added.
pub const MOV_R_IMM: u8 = 0xB8;

/// Opcode of an arithmetic instruction with an 8-bit immediate.
pub const ARITH_IMM8: u8 = 0x83;

/// Opcode of an arithmetic instruction with a 32-bit immediate.
pub const ARITH_IMM32: u8 = 0x81;


/// The number that a string of decimal digits writes.
pub open spec fn decimal(digits: Seq<u8>) -> nat
    decreases digits.len(),
{
    if digits.len() == 0 {
        0
    } else {
        decimal(digits.drop_last()) * 10 + (digits.last() - 0x30) as nat
    }
}

/// Whether `text` is a figure: one or more decimal digits.
pub open spec fn is_figure(text: Seq<u8>) -> bool {
    text.len() > 0 && forall|i: int| 0 <= i < text.len() ==> is_digit_byte(#[trigger] text[i])
}

/// The value of a figure, where it has one of 64 unsigned bits.
pub open spec fn figure_value(text: Seq<u8>) -> Option<u64> {
    if is_figure(text) && decimal(text) <= u64::MAX {
        Some(decimal(text) as u64)
    } else {
        None
    }
}

/// A digit string writes no less than any of its prefixes.
pub proof fn lemma_decimal_prefix(digits: Seq<u8>, n: int)
    requires
        0 <= n <= digits.len(),
        forall|i: int| 0 <= i < digits.len() ==> is_digit_byte(#[trigger] digits[i]),
    ensures
        decimal(digits.subrange(0, n)) <= decimal(digits),
    decreases digits.len() - n,
{
    if n == digits.len() {
        assert(digits.subrange(0, n) =~= digits);
    } else {
        let longer = digits.subrange(0, n + 1);
        assert(longer.drop_last() =~= digits.subrange(0, n));
        lemma_decimal_prefix(digits, n + 1);
    }
}

/// Reads a figure. The value is there for a string of one or more decimal
/// digits that stays within 64 unsigned bits, and for no other text.
pub fn parse_figure(text: &[u8]) -> (r: Option<u64>)
    ensures
        r == figure_value(text@),
{
    if text.len() == 0 {
        return None;
    }
    let mut value: u64 = 0;
    let mut i: usize = 0;
    while i < text.len()
        invariant
            i <= text.len(),
            forall|j: int| 0 <= j < i ==> is_digit_byte(#[trigger] text@[j]),
            value == decimal(text@.subrange(0, i as int)),
        decreases text.len() - i,
    {
        let c: u8 = text[i];
        if c < 0x30 || c > 0x39 {
            return None;
        }
        let d: u64 = (c - 0x30) as u64;
        proof {
            let longer = text@.subrange(0, i + 1);
            assert(longer.drop_last() =~= text@.subrange(0, i as int));
        }
        if value > (u64::MAX - d) / 10 {
            proof {
                if is_figure(text@) {
                    lemma_decimal_prefix(text@, i + 1);
                }
            }
            return None;
        }
        value = value * 10 + d;
        i += 1;
    }
    assert(text@.subrange(0, text.len() as int) =~= text@);
    Some(value)
}

/// The number of immediate bytes that an arithmetic instruction takes for a
/// value: 1 where it is a sign-extended byte, 4 where it is a sign-extended
/// 32-bit value, else 8.
pub open spec fn immediate_width(v: u64) -> nat {
    if v < 0x80 || v >= 0xffff_ffff_ffff_ff80 {
        1
    } else if v < 0x8000_0000 || v >= 0xffff_ffff_8000_0000 {
        4
    } else {
        8
    }
}

/// The REX prefix: `w` selects 64-bit operands, `r` extends the `reg` field
/// and `b` the `rm` field. There is no index register to extend.
pub open spec fn rex(w: bool, r: bool, b: bool) -> u8 {
    (0x40 + (if w {
        8int
    } else {
        0
    }) + (if r {
        4int
    } else {
        0
    }) + (if b {
        1int
    } else {
        0
    })) as u8
}

/// The ModRM byte for register-direct addressing.
pub open spec fn modrm_direct(reg: int, rm: int) -> u8 {
    (0xC0 + 8 * reg + rm) as u8
}

/// The opcode of the register-to-register form.
pub open spec fn arith_rm_r(op: Arith) -> u8 {
    match op {
        Arith::Add => 0x01,
        Arith::Sub => 0x29,
    }
}

/// The opcode of the short form on RAX with a 32-bit immediate.
pub open spec fn arith_rax_imm32(op: Arith) -> u8 {
    match op {
        Arith::Add => 0x05,
        Arith::Sub => 0x2D,
    }
}

/// The `reg` field that selects the instruction in the immediate forms.
pub open spec fn arith_extension(op: Arith) -> int {
    match op {
        Arith::Add => 0,
        Arith::Sub => 5,
    }
}

/// A register-to-register instruction: a REX prefix with W set, R from the
/// source and B from the destination, the opcode, and a ModRM byte with the source in
/// `reg` and the destination in `rm`.
pub open spec fn reg_reg_code(opcode: u8, dst: u8, src: u8) -> Seq<u8> {
    seq![rex(true, src >= 8, dst >= 8), opcode, modrm_direct(src as int % 8, dst as int % 8)]
}

/// An arithmetic instruction on register `dst` with the immediate `v`, whose
/// width is 1 or 4.
pub open spec fn arith_imm_code(op: Arith, dst: u8, v: u64) -> Seq<u8> {
    if immediate_width(v) == 1 {
        seq![rex(true, false, dst >= 8), ARITH_IMM8, modrm_direct(arith_extension(op), dst as int % 8)]
            + le_bytes(v as nat, 1)
    } else if dst == RAX {
        seq![rex(true, false, false), arith_rax_imm32(op)] + le_bytes(v as nat, 4)
    } else {
        seq![rex(true, false, dst >= 8), ARITH_IMM32, modrm_direct(arith_extension(op), dst as int % 8)]
            + le_bytes(v as nat, 4)
    }
}

/// `mov` of the immediate `v` into register `dst`. A value of 32 unsigned
/// bits takes the short opcode with four bytes, and a REX prefix only for an
/// extended register; a value whose high 32 bits are all ones takes the
/// sign-extending opcode with four bytes; any other takes the short opcode
/// with all eight bytes.
pub open spec fn mov_imm_code(dst: u8, v: u64) -> Seq<u8> {
    if v <= 0xffff_ffff {
        (if dst >= 8 {
            seq![rex(false, false, true)]
        } else {
            Seq::<u8>::empty()
        }) + seq![(MOV_R_IMM + dst % 8) as u8] + le_bytes(v as nat, 4)
    } else if v >= 0xffff_ffff_0000_0000 {
        seq![rex(true, false, dst >= 8), MOV_RM_IMM, modrm_direct(0, dst as int % 8)] + le_bytes(
            v as nat,
            4,
        )
    } else {
        seq![rex(true, false, dst >= 8), (MOV_R_IMM + dst % 8) as u8] + le_bytes(v as nat, 8)
    }
}

/// Whether an operand can take part in an instruction: a register must be
/// one of the sixteen, with width 8.
pub open spec fn supported(v: Operand) -> bool {
    match v {
        Operand::Reg(n, width) => n < 16 && width == 8,
        Operand::Figure(_) => true,
    }
}

/// What encoding an arithmetic instruction gives.
pub open spec fn arith_code(op: Arith, dst: Operand, src: Operand) -> Result<Seq<u8>, Cause> {
    match dst {
        Operand::Figure(_) => Err(Cause::NotRegister),
        Operand::Reg(d, _) => if !supported(dst) || !supported(src) {
            Err(Cause::BadRegister)
        } else {
            match src {
                Operand::Reg(s, _) => Ok(reg_reg_code(arith_rm_r(op), d, s)),
                Operand::Figure(text) => match figure_value(text) {
                    None => Err(Cause::FigureRange),
                    Some(v) => if immediate_width(v) == 8 {
                        Err(Cause::Signed32)
                    } else {
                        Ok(arith_imm_code(op, d, v))
                    },
                },
            }
        },
    }
}

/// What encoding a `mov` gives.
pub open spec fn mov_code(dst: Operand, src: Operand) -> Result<Seq<u8>, Cause> {
    match dst {
        Operand::Figure(_) => Err(Cause::NotRegister),
        Operand::Reg(d, _) => if !supported(dst) || !supported(src) {
            Err(Cause::BadRegister)
        } else {
            match src {
                Operand::Reg(s, _) => Ok(reg_reg_code(MOV_RM_R, d, s)),
                Operand::Figure(text) => match figure_value(text) {
                    None => Err(Cause::FigureRange),
                    Some(v) => Ok(mov_imm_code(d, v)),
                },
            }
        },
    }
}

/// The code inside a result.
pub open spec fn code_of(r: Result<Vec<u8>, Cause>) -> Result<Seq<u8>, Cause> {
    match r {
        Ok(v) => Ok(v@),
        Err(e) => Err(e),
    }
}

/// Whether a register can take part in an instruction.
fn register_ok(v: &Value<'_>) -> (r: bool)
    ensures
        r == supported(v@),
{
    match v {
        Value::Reg(n, width) => *n < 16 && *width == 8,
        Value::Figure(_) => true,
    }
}

/// The REX prefix for 64-bit operands.
fn rex_prefix(reg: u8, rm: u8) -> (r: u8)
    requires
        reg < 16,
        rm < 16,
    ensures
        r == rex(true, reg >= 8, rm >= 8),
{
    create_rex(1, reg / 8, 0, rm / 8)
}

/// The ModRM byte for register-direct addressing.
fn direct(reg: u8, rm: u8) -> (r: u8)
    requires
        reg < 8,
        rm < 8,
    ensures
        r == modrm_direct(reg as int, rm as int),
{
    create_modrm(0b11, reg, rm)
}

/// The three bytes of a register-to-register instruction.
fn reg_reg(opcode: u8, dst: u8, src: u8) -> (code: Vec<u8>)
    requires
        dst < 16,
        src < 16,
    ensures
        code@ == reg_reg_code(opcode, dst, src),
{
    let mut code: Vec<u8> = Vec::new();
    code.push(rex_prefix(src, dst));
    code.push(opcode);
    code.push(direct(src % 8, dst % 8));
    code
}

/// Encodes `add dst, src` or `sub dst, src`. The destination must be a
/// register; the source is a register, or a figure that is a sign-extended
/// byte or 32-bit value.
pub fn encode_arith(op: Arith, dst: &Value<'_>, src: &Value<'_>) -> (r: Result<Vec<u8>, Cause>)
    ensures
        code_of(r) == arith_code(op, dst@, src@),
{
    let d: u8 = match dst {
        Value::Figure(_) => {
            return Err(Cause::NotRegister);
        },
        Value::Reg(d, _) => *d,
    };
    if !register_ok(dst) || !register_ok(src) {
        return Err(Cause::BadRegister);
    }
    match src {
        Value::Reg(s, _) => {
            let opcode: u8 = match op {
                Arith::Add => 0x01,
                Arith::Sub => 0x29,
            };
            Ok(reg_reg(opcode, d, *s))
        },
        Value::Figure(text) => {
            let v: u64 = match parse_figure(text) {
                None => {
                    return Err(Cause::FigureRange);
                },
                Some(v) => v,
            };
            let extension: u8 = match op {
                Arith::Add => 0,
                Arith::Sub => 5,
            };
            let mut code: Vec<u8> = Vec::new();
            if v < 0x80 || v >= 0xffff_ffff_ffff_ff80 {
                code.push(rex_prefix(0, d));
                code.push(ARITH_IMM8);
                code.push(direct(extension, d % 8));
                put_le(&mut code, v, 1);
            } else if v < 0x8000_0000 || v >= 0xffff_ffff_8000_0000 {
                code.push(rex_prefix(0, d));
                if d == RAX {
                    let opcode: u8 = match op {
                        Arith::Add => 0x05,
                        Arith::Sub => 0x2D,
                    };
                    code.push(opcode);
                } else {
                    code.push(ARITH_IMM32);
                    code.push(direct(extension, d % 8));
                }
                put_le(&mut code, v, 4);
            } else {
                return Err(Cause::Signed32);
            }
            assert(code@ =~= arith_imm_code(op, d, v));
            Ok(code)
        },
    }
}

/// Encodes `mov dst, src`. The destination must be a register; the source
/// is a register or a figure.
pub fn encode_mov(dst: &Value<'_>, src: &Value<'_>) -> (r: Result<Vec<u8>, Cause>)
    ensures
        code_of(r) == mov_code(dst@, src@),
{
    let d: u8 = match dst {
        Value::Figure(_) => {
            return Err(Cause::NotRegister);
        },
        Value::Reg(d, _) => *d,
    };
    if !register_ok(dst) || !register_ok(src) {
        return Err(Cause::BadRegister);
    }
    match src {
        Value::Reg(s, _) => Ok(reg_reg(MOV_RM_R, d, *s)),
        Value::Figure(text) => {
            let v: u64 = match parse_figure(text) {
                None => {
                    return Err(Cause::FigureRange);
                },
                Some(v) => v,
            };
            let mut code: Vec<u8> = Vec::new();
            if v <= 0xffff_ffff {
                if d >= 8 {
                    code.push(create_rex(0, 0, 0, 1));
                }
                code.push(MOV_R_IMM + d % 8);
                put_le(&mut code, v, 4);
            } else if v >= 0xffff_ffff_0000_0000 {
                code.push(rex_prefix(0, d));
                code.push(MOV_RM_IMM);
                code.push(direct(0, d % 8));
                put_le(&mut code, v, 4);
            } else {
                code.push(rex_prefix(0, d));
                code.push(MOV_R_IMM + d % 8);
                put_le(&mut code, v, 8);
            }
            assert(code@ =~= mov_imm_code(d, v));
            Ok(code)
        },
    }
}

/// The opcode, destination and source of a register-to-register
/// instruction, read back from its three bytes: a REX prefix for 64-bit
/// operands without an index extension, the opcode, and a ModRM byte for
/// register-direct addressing.
pub open spec fn reg_reg_operands(code: Seq<u8>) -> Option<(u8, u8, u8)> {
    if code.len() == 3 && 0x48 <= code[0] <= 0x4f && (code[0] - 0x48) / 2 % 2 == 0 && code[2]
        >= 0xC0 {
        let flags = code[0] - 0x48;
        let fields = code[2] - 0xC0;
        Some((code[1], (8 * (flags % 2) + fields % 8) as u8, (8 * (flags / 4) + fields / 8) as u8))
    } else {
        None
    }
}

/// Reads a register-to-register instruction back: its opcode, its
/// destination and its source.
pub fn decode_reg_reg(code: &[u8]) -> (r: Option<(u8, u8, u8)>)
    ensures
        r == reg_reg_operands(code@),
{
    if code.len() != 3 || code[0] < 0x48 || code[0] > 0x4f || code[2] < 0xC0 {
        return None;
    }
    let flags: u8 = code[0] - 0x48;
    let fields: u8 = code[2] - 0xC0;
    if flags / 2 % 2 != 0 {
        return None;
    }
    Some((code[1], 8 * (flags % 2) + fields % 8, 8 * (flags / 4) + fields / 8))
}

/// Decoding the code of a register-to-register instruction gives back the
/// opcode and both registers, for every pair of the sixteen registers.
pub proof fn lemma_reg_reg_round_trip(opcode: u8, dst: u8, src: u8)
    requires
        dst < 16,
        src < 16,
    ensures
        reg_reg_operands(reg_reg_code(opcode, dst, src)) == Some((opcode, dst, src)),
{
}

/// `mov` between two of the sixteen registers has a code, and decoding it
/// gives back the two registers.
pub proof fn lemma_mov_round_trip(dst: u8, src: u8)
    requires
        dst < 16,
        src < 16,
    ensures
        mov_code(Operand::Reg(dst, 8), Operand::Reg(src, 8)) == Ok::<Seq<u8>, Cause>(
            reg_reg_code(MOV_RM_R, dst, src),
        ),
        reg_reg_operands(reg_reg_code(MOV_RM_R, dst, src)) == Some((MOV_RM_R, dst, src)),
{
}

/// Two register pairs with the same `mov` code are the same pair.
pub proof fn lemma_mov_code_unique(dst: u8, src: u8, other_dst: u8, other_src: u8)
    requires
        dst < 16,
        src < 16,
        other_dst < 16,
        other_src < 16,
        reg_reg_code(MOV_RM_R, dst, src) == reg_reg_code(MOV_RM_R, other_dst, other_src),
    ensures
        dst == other_dst,
        src == other_src,
{
}

} // verus!
