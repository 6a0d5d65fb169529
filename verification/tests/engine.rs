use coffasm::assembler::fault::{Cause, Fault, Stage};
use coffasm::assembler::Asm;

fn assembled(source: &str) -> Vec<Vec<u8>> {
    let mut run = Asm::new("t.s", source);
    assert_eq!(run.start(), Ok(()));
    run.sections().iter().map(|s| s.data().to_vec()).collect()
}

fn fault(source: &str) -> Fault {
    let mut run = Asm::new("t.s", source);
    match run.start() {
        Ok(()) => panic!("no fault"),
        Err(f) => f,
    }
}

#[test]
fn add_rax_small_immediate() {
    assert_eq!(assembled("section .text\nadd rax, 100\n"), vec![vec![0x48, 0x83, 0xC0, 0x64]]);
}

#[test]
fn add_rax_wide_immediate_takes_short_form() {
    assert_eq!(
        assembled("section .text\nadd rax, 1000000\n"),
        vec![vec![0x48, 0x05, 0x40, 0x42, 0x0F, 0x00]]
    );
}

#[test]
fn sub_rax_wide_immediate_takes_short_form() {
    assert_eq!(
        assembled("section .text\nsub rax, 1000000\n"),
        vec![vec![0x48, 0x2D, 0x40, 0x42, 0x0F, 0x00]]
    );
}

#[test]
fn add_other_register_wide_immediate() {
    assert_eq!(
        assembled("section .text\nadd rcx, 1000000\n"),
        vec![vec![0x48, 0x81, 0xC1, 0x40, 0x42, 0x0F, 0x00]]
    );
}

#[test]
fn add_r8_wide_immediate_is_not_the_rax_form() {
    assert_eq!(
        assembled("section .text\nadd r8, 1000000\n"),
        vec![vec![0x49, 0x81, 0xC0, 0x40, 0x42, 0x0F, 0x00]]
    );
}

#[test]
fn sub_small_immediate_uses_extension_five() {
    assert_eq!(assembled("section .text\nsub rbx, 1\n"), vec![vec![0x48, 0x83, 0xEB, 0x01]]);
}

#[test]
fn add_register_to_register() {
    assert_eq!(assembled("section .text\nadd rax, rcx\n"), vec![vec![0x48, 0x01, 0xC8]]);
    assert_eq!(assembled("section .text\nadd r9, r10\n"), vec![vec![0x4D, 0x01, 0xD1]]);
}

#[test]
fn sub_register_from_register() {
    assert_eq!(assembled("section .text\nsub rsp, r15\n"), vec![vec![0x4C, 0x29, 0xFC]]);
}

#[test]
fn mov_r15_small_immediate() {
    assert_eq!(assembled("section .text\nmov r15, 5\n"), vec![vec![0x41, 0xBF, 5, 0, 0, 0]]);
}

#[test]
fn mov_rax_small_immediate_has_no_prefix() {
    assert_eq!(assembled("section .text\nmov rax, 5\n"), vec![vec![0xB8, 5, 0, 0, 0]]);
}

#[test]
fn mov_sign_extended_immediate() {
    assert_eq!(
        assembled("section .text\nmov rdx, 18446744073709551615\n"),
        vec![vec![0x48, 0xC7, 0xC2, 0xFF, 0xFF, 0xFF, 0xFF]]
    );
}

#[test]
fn mov_full_width_immediate() {
    assert_eq!(
        assembled("section .text\nmov r9, 4294967296\n"),
        vec![vec![0x49, 0xB9, 0, 0, 0, 0, 1, 0, 0, 0]]
    );
}

#[test]
fn mov_register_to_register() {
    assert_eq!(assembled("section .text\nmov rbp, rsp\n"), vec![vec![0x48, 0x89, 0xE5]]);
    assert_eq!(assembled("section .text\nMOV R8, RAX\n"), vec![vec![0x49, 0x89, 0xC0]]);
}

#[test]
fn ret_is_one_byte_and_ends_the_line() {
    assert_eq!(assembled("section .text\nret\n"), vec![vec![0xC3]]);
    assert_eq!(assembled("section .text\nret 8 whatever\nret"), vec![vec![0xC3, 0xC3]]);
}

#[test]
fn data_strings_with_width_one() {
    assert_eq!(assembled("section .data\ndb 'AB', 'C'\n"), vec![vec![0x41, 0x42, 0x43]]);
}

#[test]
fn data_string_padding_is_length_modulo_width() {
    assert_eq!(
        assembled("section .data\ndd 'ABCDE'\n"),
        vec![vec![0x41, 0x42, 0x43, 0x44, 0x45, 0]]
    );
    assert_eq!(assembled("section .data\ndd \"ABC\"\n"), vec![vec![0x41, 0x42, 0x43, 0, 0, 0]]);
    assert_eq!(assembled("section .data\ndw 'AB'\n"), vec![vec![0x41, 0x42]]);
}

#[test]
fn data_figure_is_cut_to_the_width() {
    assert_eq!(
        assembled("section .data\ndd 18446744073709551488\n"),
        vec![vec![0x80, 0xFF, 0xFF, 0xFF]]
    );
    assert_eq!(assembled("section .data\ndb 258, 3\n"), vec![vec![2, 3]]);
}

#[test]
fn data_figure_wider_than_eight_bytes_is_zero_extended() {
    let mut expected = vec![0x01, 0x02];
    expected.extend(std::iter::repeat(0).take(14));
    assert_eq!(assembled("section .data\ndt 513\n"), vec![expected]);
}

#[test]
fn reservation_appends_zero_bytes_to_the_last_section_only() {
    let sections = assembled("section .text\nret\nsection .bss\nresq 3\n");
    assert_eq!(sections, vec![vec![0xC3], vec![0u8; 24]]);
}

#[test]
fn reservation_of_each_width() {
    assert_eq!(assembled("section .bss\nresb 2\nresw 2\nresd 1\n"), vec![vec![0u8; 10]]);
    assert_eq!(assembled("section .bss\nRESZ 1\n"), vec![vec![0u8; 128]]);
}

#[test]
fn duplicate_label_keeps_both_entries() {
    let mut run = Asm::new("t.s", "section .text\nagain:\nret\nagain: ret\n");
    assert_eq!(run.start(), Ok(()));
    let labels = run.labels();
    assert_eq!(labels.len(), 2);
    assert_eq!(labels[0].name(), "again".as_bytes());
    assert_eq!(labels[0].pos(), 0);
    assert_eq!(labels[0].section_number(), 1);
    assert_eq!(labels[1].name(), "again".as_bytes());
    assert_eq!(labels[1].pos(), 1);
    assert_eq!(labels[1].section_number(), 1);
    assert_eq!(run.sections()[0].data(), &[0xC3, 0xC3]);
}

#[test]
fn label_records_owning_section() {
    let mut run = Asm::new("t.s", "section .text\nret\nsection .data\ndb 1\nvalue: db 2\n");
    assert_eq!(run.start(), Ok(()));
    assert_eq!(run.labels()[0].name(), "value".as_bytes());
    assert_eq!(run.labels()[0].pos(), 1);
    assert_eq!(run.labels()[0].section_number(), 2);
}

#[test]
fn instruction_before_any_section_is_a_fault() {
    let f = fault("mov rax, 1\n");
    assert_eq!(f, Fault { cause: Cause::NoSection, offset: 4 });
    assert_eq!(f.cause.stage(), Stage::Internal);
    assert_eq!(fault("ret\n").cause, Cause::NoSection);
    assert_eq!(fault("db 1\n").cause, Cause::NoSection);
    assert_eq!(fault("resb 1\n").cause, Cause::NoSection);
    assert_eq!(fault("start:\n"), Fault { cause: Cause::NoSection, offset: 5 });
}

#[test]
fn comments_and_blank_lines_are_passed_over() {
    assert_eq!(
        assembled("; header\n\nsection .text ; code\n   \t ret ; done\r\n;\n"),
        vec![vec![0xC3]]
    );
}

#[test]
fn unknown_mnemonic_is_a_syntax_fault() {
    let f = fault("section .text\nnop\n");
    assert_eq!(f, Fault { cause: Cause::UnknownInstruction, offset: 17 });
    assert_eq!(f.cause.stage(), Stage::Syntax);
}

#[test]
fn text_that_starts_no_token_is_a_lexical_fault() {
    let f = fault("section .text\n  123\n");
    assert_eq!(f, Fault { cause: Cause::NoToken, offset: 16 });
    assert_eq!(f.cause.stage(), Stage::Lexical);
}

#[test]
fn operand_faults() {
    assert_eq!(fault("section .text\nmov 5, rax"), Fault { cause: Cause::NotRegister, offset: 18 });
    assert_eq!(fault("section .text\nadd 5, 6"), Fault { cause: Cause::NotRegister, offset: 18 });
    assert_eq!(fault("section .text\nmov rax"), Fault { cause: Cause::NoComma, offset: 21 });
    assert_eq!(fault("section .text\nmov rax: 1"), Fault { cause: Cause::NotComma, offset: 22 });
    assert_eq!(fault("section .text\nmov rax,"), Fault { cause: Cause::SecondOperand, offset: 22 });
    assert_eq!(fault("section .text\nmov , 1"), Fault { cause: Cause::FirstOperand, offset: 18 });
    assert_eq!(fault("section .text\nmov foo, 1"), Fault { cause: Cause::FirstOperand, offset: 18 });
}

#[test]
fn immediate_faults() {
    let f = fault("section .text\nadd rax, 2147483648\n");
    assert_eq!(f, Fault { cause: Cause::Signed32, offset: 23 });
    assert_eq!(f.cause.stage(), Stage::Semantic);
    assert_eq!(
        fault("section .text\nsub rax, 18446744073709551616\n"),
        Fault { cause: Cause::FigureRange, offset: 23 }
    );
    assert_eq!(
        fault("section .text\nmov rax, 99999999999999999999\n").cause,
        Cause::FigureRange
    );
}

#[test]
fn add_accepts_sign_extended_patterns() {
    assert_eq!(
        assembled("section .text\nadd rax, 18446744073709551615\n"),
        vec![vec![0x48, 0x83, 0xC0, 0xFF]]
    );
    assert_eq!(
        assembled("section .text\nadd rax, 18446744071562067968\n"),
        vec![vec![0x48, 0x05, 0x00, 0x00, 0x00, 0x80]]
    );
    assert_eq!(assembled("section .text\nadd rax, 128\n"), vec![vec![0x48, 0x05, 0x80, 0, 0, 0]]);
    assert_eq!(assembled("section .text\nadd rax, 127\n"), vec![vec![0x48, 0x83, 0xC0, 0x7F]]);
}

#[test]
fn data_faults() {
    assert_eq!(fault("section .data\ndb 'abc\n"), Fault { cause: Cause::OpenString, offset: 17 });
    assert_eq!(fault("section .data\ndb 'abc\"\n").cause, Cause::OpenString);
    assert_eq!(fault("section .data\ndb\n"), Fault { cause: Cause::NoDatum, offset: 16 });
    assert_eq!(fault("section .data\ndb 1,\n"), Fault { cause: Cause::NoDatum, offset: 19 });
    assert_eq!(fault("section .data\ndb ; none\n").cause, Cause::NoDatum);
    assert_eq!(fault("section .data\ndx 'a'\n"), Fault { cause: Cause::ZeroWidth, offset: 17 });
    assert_eq!(
        fault("section .data\ndq 18446744073709551616\n"),
        Fault { cause: Cause::FigureRange, offset: 17 }
    );
}

#[test]
fn data_with_unknown_width_takes_figures_as_nothing() {
    assert_eq!(assembled("section .data\ndx 5, 6\n"), vec![Vec::<u8>::new()]);
}

#[test]
fn reservation_faults() {
    assert_eq!(fault("section .bss\nresb\n"), Fault { cause: Cause::NoFigure, offset: 17 });
    assert_eq!(fault("section .bss\nresb x\n"), Fault { cause: Cause::NoFigure, offset: 18 });
    assert_eq!(
        fault("section .bss\nresb 18446744073709551616\n"),
        Fault { cause: Cause::FigureRange, offset: 18 }
    );
    assert_eq!(
        fault("section .bss\nresz 18446744073709551615\n"),
        Fault { cause: Cause::TooLarge, offset: 18 }
    );
}

#[test]
fn section_without_a_name_is_a_fault() {
    assert_eq!(fault("section\n"), Fault { cause: Cause::SectionName, offset: 7 });
    assert_eq!(fault("section 1\n"), Fault { cause: Cause::SectionName, offset: 8 });
}

#[test]
fn output_before_a_fault_stays() {
    let mut run = Asm::new("t.s", "section .text\nret\nbogus\nret\n");
    assert!(run.start().is_err());
    assert_eq!(run.sections()[0].data(), &[0xC3]);
}

#[test]
fn fault_offsets_count_from_the_start_of_the_text() {
    let f = fault("section .text\r\nret\r\n  mov rax 1\r\n");
    assert_eq!(f, Fault { cause: Cause::NoComma, offset: 30 });
}

#[test]
fn label_and_instruction_share_a_line() {
    let mut run = Asm::new("t.s", "section .text\n  entry: mov rax, rbx\n");
    assert_eq!(run.start(), Ok(()));
    assert_eq!(run.labels().len(), 1);
    assert_eq!(run.labels()[0].name(), "entry".as_bytes());
    assert_eq!(run.sections()[0].data(), &[0x48, 0x89, 0xD8]);
}

#[test]
fn messages_name_the_cause() {
    assert_eq!(Cause::Signed32.message(), "Expect signed 32bit");
    assert_eq!(Cause::NoFigure.message(), "Require Figure.");
    assert_eq!(Cause::NotRegister.message(), "Not");
    assert_eq!(Cause::NoComma.message(), "Require Comma.");
}

#[test]
fn immediate_width_boundaries() {
    assert_eq!(
        assembled("section .text\nadd rax, 18446744073709551488\n"),
        vec![vec![0x48, 0x83, 0xC0, 0x80]]
    );
    assert_eq!(
        assembled("section .text\nadd rax, 18446744073709551487\n"),
        vec![vec![0x48, 0x05, 0x7F, 0xFF, 0xFF, 0xFF]]
    );
    assert_eq!(
        assembled("section .text\nsub rdi, 2147483647\n"),
        vec![vec![0x48, 0x81, 0xEF, 0xFF, 0xFF, 0xFF, 0x7F]]
    );
    assert_eq!(fault("section .text\nsub rdi, 2147483648\n").cause, Cause::Signed32);
    assert_eq!(fault("section .text\nsub rdi, 18446744071562067967\n").cause, Cause::Signed32);
    assert_eq!(
        assembled("section .text\nsub r15, 0\n"),
        vec![vec![0x49, 0x83, 0xEF, 0x00]]
    );
}

#[test]
fn every_width_selector() {
    let widths = [("b", 1), ("w", 2), ("d", 4), ("q", 8), ("t", 16), ("o", 32), ("y", 64), ("z", 128)];
    for (letter, width) in widths {
        let reserve = format!("section .bss\nres{} 2\n", letter);
        assert_eq!(assembled(&reserve), vec![vec![0u8; 2 * width]]);
        let declare = format!("section .data\nD{} 1\n", letter.to_uppercase());
        let mut expected = vec![0u8; width];
        expected[0] = 1;
        assert_eq!(assembled(&declare), vec![expected]);
    }
}

#[test]
fn reservation_with_unknown_width_reserves_nothing() {
    assert_eq!(assembled("section .bss\nresx 5\n"), vec![Vec::<u8>::new()]);
}

#[test]
fn full_width_data_figure() {
    assert_eq!(
        assembled("section .data\ndq 72623859790382856\n"),
        vec![vec![8, 7, 6, 5, 4, 3, 2, 1]]
    );
    assert_eq!(assembled("section .data\ndw 72623859790382856\n"), vec![vec![8, 7]]);
}

#[test]
fn strings_keep_their_bytes() {
    assert_eq!(
        assembled("section .data\ndb \"it's\", ';'\n"),
        vec![b"it's;".to_vec()]
    );
    assert_eq!(assembled("section .data\ndb ''\n"), vec![Vec::<u8>::new()]);
    assert_eq!(
        assembled("section .data\ndb 'é'\n"),
        vec!["é".as_bytes().to_vec()]
    );
}

#[test]
fn sections_come_in_the_order_of_their_declaration() {
    let mut run = Asm::new("t.s", "section .data\nsection .text\nsection .data\ndb 1\n");
    assert_eq!(run.start(), Ok(()));
    let names: Vec<&[u8]> = run.sections().iter().map(|s| s.name()).collect();
    assert_eq!(names, vec![&b".data"[..], &b".text"[..], &b".data"[..]]);
    assert_eq!(run.sections()[0].data(), &[] as &[u8]);
    assert_eq!(run.sections()[2].data(), &[1]);
}

#[test]
fn two_instructions_on_a_line() {
    assert_eq!(
        assembled("section .text\nmov rax, rbx add rax, 1\n"),
        vec![vec![0x48, 0x89, 0xD8, 0x48, 0x83, 0xC0, 0x01]]
    );
}

#[test]
fn starting_twice_scans_twice() {
    let mut run = Asm::new("t.s", "section .text\nret\n");
    assert_eq!(run.start(), Ok(()));
    assert_eq!(run.start(), Ok(()));
    assert_eq!(run.sections().len(), 2);
    assert_eq!(run.sections()[1].data(), &[0xC3]);
}

#[test]
fn steps_on_a_line_by_hand() {
    let line = b"here: mov rcx, 7 ; c";
    let mut run = Asm::new("t.s", "");
    assert_eq!(run.section(b" .text", 0), Ok(6));
    assert_eq!(run.label_or_instruction(line, 0), Ok(5));
    assert_eq!(run.ignore_space(line, 5), 6);
    assert_eq!(run.label_or_instruction(line, 6), Ok(16));
    assert_eq!(run.read_comma(b" , x", 0), Ok(2));
    assert_eq!(run.dx_to_size(b'q'), 8);
    assert_eq!(run.dx_to_size(b'Q'), 0);
    assert_eq!(run.dx(b"1, 2", 0, 2), Ok(4));
    assert_eq!(run.resx(b"3 ", 0, 1), Ok(1));
    assert_eq!(run.ret(b"ret now", 3), Ok(7));
    assert_eq!(run._instruction(b"rax, rax", 0, b"SUB"), Ok(8));
    assert_eq!(run.scan_line(b"  add rax, rax ; twice"), Ok(()));
    assert_eq!(
        run.sections()[0].data(),
        &[0xB9, 7, 0, 0, 0, 1, 0, 2, 0, 0, 0, 0, 0xC3, 0x48, 0x29, 0xC0, 0x48, 0x01, 0xC0]
    );
    assert_eq!(run.labels()[0].name(), b"here");
}
