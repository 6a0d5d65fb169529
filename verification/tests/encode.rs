use coffasm::assembler::encode::{decode_reg_reg, encode_arith, encode_mov, parse_figure, Arith};
use coffasm::assembler::fault::Cause;
use coffasm::assembler::reg::{create_modrm, create_rex, matches_lower, reg, to_lower, Value};
use coffasm::assembler::Asm;

const NAMES: [&str; 16] = [
    "rax", "rcx", "rdx", "rbx", "rsp", "rbp", "rsi", "rdi", "r8", "r9", "r10", "r11", "r12",
    "r13", "r14", "r15",
];

fn number_of(name: &[u8]) -> Option<(u8, u8)> {
    match reg(name) {
        Ok(Value::Reg(n, width)) => Some((n, width)),
        Ok(Value::Figure(_)) => panic!("a figure from the register table"),
        Err(rest) => {
            assert_eq!(rest, name);
            None
        }
    }
}

#[test]
fn register_table() {
    for (n, name) in NAMES.iter().enumerate() {
        assert_eq!(number_of(name.as_bytes()), Some((n as u8, 8)));
        assert_eq!(number_of(name.to_uppercase().as_bytes()), Some((n as u8, 8)));
    }
    assert_eq!(number_of(b"Rax"), Some((0, 8)));
    assert_eq!(number_of(b"rDI"), Some((7, 8)));
}

#[test]
fn names_that_are_no_registers() {
    for name in ["", "r", "ra", "raxx", "eax", "r16", "r7", "r08", "rip", "ax", "r1", "r 8"] {
        assert_eq!(number_of(name.as_bytes()), None);
    }
}

#[test]
fn modrm_byte() {
    assert_eq!(create_modrm(0b11, 0, 0), 0xC0);
    assert_eq!(create_modrm(0b11, 0b101, 0b011), 0xEB);
    assert_eq!(create_modrm(0b01, 0b111, 0b111), 0x7F);
    assert_eq!(create_modrm(0, 0, 5), 0x05);
    assert_eq!(create_modrm(0b11, 0b1000, 0), 0xC0);
}

#[test]
fn rex_byte() {
    assert_eq!(create_rex(0, 0, 0, 0), 0x40);
    assert_eq!(create_rex(1, 0, 0, 0), 0x48);
    assert_eq!(create_rex(1, 1, 0, 1), 0x4D);
    assert_eq!(create_rex(0, 0, 1, 0), 0x42);
    assert_eq!(create_rex(1, 1, 1, 1), 0x4F);
}

#[test]
fn lower_case_helpers() {
    assert_eq!(to_lower(b'A'), b'a');
    assert_eq!(to_lower(b'Z'), b'z');
    assert_eq!(to_lower(b'a'), b'a');
    assert_eq!(to_lower(b'@'), b'@');
    assert_eq!(to_lower(b'['), b'[');
    assert_eq!(to_lower(b'5'), b'5');
    assert!(matches_lower(b"SeCtIoN", "section"));
    assert!(!matches_lower(b"sections", "section"));
    assert!(!matches_lower(b"sectio", "section"));
    assert!(matches_lower(b"", ""));
}

#[test]
fn mov_round_trip_over_all_register_pairs() {
    for (d, dst) in NAMES.iter().enumerate() {
        for (s, src) in NAMES.iter().enumerate() {
            let source = format!("section .text\nmov {}, {}\n", dst, src);
            let mut run = Asm::new("m.s", &source);
            assert_eq!(run.start(), Ok(()));
            let code = run.sections()[0].data().to_vec();
            assert_eq!(code.len(), 3);
            assert_eq!(decode_reg_reg(&code), Some((0x89, d as u8, s as u8)));
        }
    }
}

#[test]
fn mov_codes_are_distinct() {
    let mut seen = Vec::new();
    for d in 0..16u8 {
        for s in 0..16u8 {
            let code = encode_mov(&Value::Reg(d, 8), &Value::Reg(s, 8)).unwrap();
            assert!(!seen.contains(&code));
            seen.push(code);
        }
    }
    assert_eq!(seen.len(), 256);
}

#[test]
fn decoding_rejects_other_shapes() {
    assert_eq!(decode_reg_reg(&[0x48, 0x89]), None);
    assert_eq!(decode_reg_reg(&[0x48, 0x89, 0xC0, 0x00]), None);
    assert_eq!(decode_reg_reg(&[0x40, 0x89, 0xC0]), None);
    assert_eq!(decode_reg_reg(&[0x4A, 0x89, 0xC0]), None);
    assert_eq!(decode_reg_reg(&[0x50, 0x89, 0xC0]), None);
    assert_eq!(decode_reg_reg(&[0x48, 0x89, 0xBF]), None);
    assert_eq!(decode_reg_reg(&[0x4D, 0x01, 0xD1]), Some((0x01, 9, 10)));
}

#[test]
fn figures() {
    assert_eq!(parse_figure(b"0"), Some(0));
    assert_eq!(parse_figure(b"000123"), Some(123));
    assert_eq!(parse_figure(b"18446744073709551615"), Some(u64::MAX));
    assert_eq!(parse_figure(b"18446744073709551616"), None);
    assert_eq!(parse_figure(b"99999999999999999999999"), None);
    assert_eq!(parse_figure(b""), None);
    assert_eq!(parse_figure(b"12a"), None);
    assert_eq!(parse_figure(b"+5"), None);
    assert_eq!(parse_figure(b"99999999999999999999999x"), None);
}

#[test]
fn arithmetic_encoder_on_values() {
    let rax = Value::Reg(0, 8);
    let r12 = Value::Reg(12, 8);
    assert_eq!(
        encode_arith(Arith::Add, &rax, &Value::Figure(b"100")),
        Ok(vec![0x48, 0x83, 0xC0, 0x64])
    );
    assert_eq!(
        encode_arith(Arith::Sub, &r12, &Value::Figure(b"1000")),
        Ok(vec![0x49, 0x81, 0xEC, 0xE8, 0x03, 0, 0])
    );
    assert_eq!(encode_arith(Arith::Sub, &r12, &rax), Ok(vec![0x49, 0x29, 0xC4]));
    assert_eq!(encode_arith(Arith::Add, &rax, &r12), Ok(vec![0x4C, 0x01, 0xE0]));
    assert_eq!(
        encode_arith(Arith::Add, &Value::Figure(b"1"), &rax),
        Err(Cause::NotRegister)
    );
    assert_eq!(
        encode_arith(Arith::Add, &rax, &Value::Figure(b"4294967295")),
        Err(Cause::Signed32)
    );
    assert_eq!(
        encode_arith(Arith::Add, &rax, &Value::Figure(b"18446744071562067967")),
        Err(Cause::Signed32)
    );
    assert_eq!(encode_arith(Arith::Add, &rax, &Value::Figure(b"x")), Err(Cause::FigureRange));
}

#[test]
fn encoders_reject_registers_outside_the_table() {
    let rax = Value::Reg(0, 8);
    assert_eq!(encode_mov(&Value::Reg(16, 8), &rax), Err(Cause::BadRegister));
    assert_eq!(encode_mov(&rax, &Value::Reg(3, 4)), Err(Cause::BadRegister));
    assert_eq!(encode_arith(Arith::Add, &Value::Reg(0, 4), &rax), Err(Cause::BadRegister));
    assert_eq!(
        encode_arith(Arith::Sub, &rax, &Value::Reg(200, 8)),
        Err(Cause::BadRegister)
    );
    assert_eq!(
        encode_mov(&Value::Figure(b"1"), &Value::Reg(16, 8)),
        Err(Cause::NotRegister)
    );
}

#[test]
fn mov_encoder_on_values() {
    let rdi = Value::Reg(7, 8);
    let r8 = Value::Reg(8, 8);
    assert_eq!(encode_mov(&rdi, &Value::Figure(b"4294967295")), Ok(vec![0xBF, 0xFF, 0xFF, 0xFF, 0xFF]));
    assert_eq!(
        encode_mov(&r8, &Value::Figure(b"18446744069414584320")),
        Ok(vec![0x49, 0xC7, 0xC0, 0, 0, 0, 0])
    );
    assert_eq!(
        encode_mov(&rdi, &Value::Figure(b"18446744069414584319")),
        Ok(vec![0x48, 0xBF, 0xFF, 0xFF, 0xFF, 0xFF, 0xFE, 0xFF, 0xFF, 0xFF])
    );
    assert_eq!(encode_mov(&r8, &Value::Figure(b"0")), Ok(vec![0x41, 0xB8, 0, 0, 0, 0]));
    assert_eq!(encode_mov(&rdi, &Value::Figure(b"")), Err(Cause::FigureRange));
}
