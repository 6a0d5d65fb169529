use coffasm::assembler::clock::stamp;
use coffasm::assembler::fault::{FormatError, Stage};
use coffasm::assembler::object::serialize;
use coffasm::assembler::section::{Label, Section};
use coffasm::assembler::Asm;

fn u16_at(bytes: &[u8], at: usize) -> u16 {
    u16::from_le_bytes([bytes[at], bytes[at + 1]])
}

fn u32_at(bytes: &[u8], at: usize) -> u32 {
    u32::from_le_bytes([bytes[at], bytes[at + 1], bytes[at + 2], bytes[at + 3]])
}

const SOURCE: &str = "section .text\nstart:\nmov rax, rbx\nret\nsection .data\nvalue: db 'hi', 7\n";

fn program() -> Vec<u8> {
    let mut run = Asm::new("prog.s", SOURCE);
    assert_eq!(run.start(), Ok(()));
    run.serialize(0x12345678).unwrap()
}

#[test]
fn file_header_fields() {
    let bytes = program();
    assert_eq!(u16_at(&bytes, 0), 0x8664);
    assert_eq!(u16_at(&bytes, 2), 2);
    assert_eq!(u32_at(&bytes, 4), 0x12345678);
    assert_eq!(u32_at(&bytes, 8), 20 + 2 * 40 + 4 + 3);
    assert_eq!(u32_at(&bytes, 12), 2 + 2 * 2 + 2);
    assert_eq!(u16_at(&bytes, 16), 0);
    assert_eq!(u16_at(&bytes, 18), 0);
}

#[test]
fn section_headers_fields() {
    let bytes = program();
    let text = &bytes[20..60];
    assert_eq!(&text[0..8], b".text\0\0\0");
    assert_eq!(u32_at(text, 8), 0);
    assert_eq!(u32_at(text, 12), 0);
    assert_eq!(u32_at(text, 16), 4);
    assert_eq!(u32_at(text, 20), 100);
    assert_eq!(u32_at(text, 24), 104);
    assert_eq!(u32_at(text, 28), 0);
    assert_eq!(u16_at(text, 32), 0);
    assert_eq!(u16_at(text, 34), 0);
    assert_eq!(u32_at(text, 36), 0x60500020);
    let data = &bytes[60..100];
    assert_eq!(&data[0..8], b".data\0\0\0");
    assert_eq!(u32_at(data, 16), 3);
    assert_eq!(u32_at(data, 20), 104);
    assert_eq!(u32_at(data, 24), 107);
    assert_eq!(u32_at(data, 36), 0xC0300040);
}

#[test]
fn bss_section_characteristics() {
    let mut run = Asm::new("b.s", "section .bss\nresb 5\n");
    assert_eq!(run.start(), Ok(()));
    let bytes = run.serialize(0).unwrap();
    assert_eq!(u32_at(&bytes, 20 + 36), 0xC0300080);
    assert_eq!(u32_at(&bytes, 20 + 16), 5);
}

#[test]
fn raw_data_follows_the_section_table() {
    let bytes = program();
    assert_eq!(&bytes[100..107], &[0x48, 0x89, 0xD8, 0xC3, b'h', b'i', 7]);
}

#[test]
fn raw_data_pointers_increase_and_sizes_add_up() {
    let bytes = program();
    let first = u32_at(&bytes, 20 + 20);
    let second = u32_at(&bytes, 60 + 20);
    assert!(first < second);
    let sizes = u32_at(&bytes, 20 + 16) + u32_at(&bytes, 60 + 16);
    let table_end = 20 + 2 * 40;
    let symbols_at = u32_at(&bytes, 8);
    assert_eq!(sizes, symbols_at - table_end);
    assert_eq!(first, table_end);
    assert_eq!(second, first + u32_at(&bytes, 20 + 16));
}

#[test]
fn symbol_table_entries() {
    let bytes = program();
    let symbols = &bytes[107..];
    assert_eq!(symbols.len(), 18 * 8 + 4);
    let file = &symbols[0..18];
    assert_eq!(&file[0..8], b".file\0\0\0");
    assert_eq!(u32_at(file, 8), 0);
    assert_eq!(u16_at(file, 12), 0xFFFE);
    assert_eq!(u16_at(file, 14), 0);
    assert_eq!(file[16], 0x67);
    assert_eq!(file[17], 1);
    assert_eq!(&symbols[18..36], b"prog.s\0\0\0\0\0\0\0\0\0\0\0\0");
    let text = &symbols[36..54];
    assert_eq!(&text[0..8], b".text\0\0\0");
    assert_eq!(u32_at(text, 8), 0);
    assert_eq!(u16_at(text, 12), 1);
    assert_eq!(text[16], 3);
    assert_eq!(text[17], 1);
    let text_aux = &symbols[54..72];
    assert_eq!(u32_at(text_aux, 0), 4);
    assert_eq!(u32_at(text_aux, 4), 0);
    assert_eq!(&text_aux[8..], &[0u8; 10]);
    let data = &symbols[72..90];
    assert_eq!(&data[0..8], b".data\0\0\0");
    assert_eq!(u16_at(data, 12), 2);
    assert_eq!(u32_at(&symbols[90..108], 0), 3);
    let start = &symbols[108..126];
    assert_eq!(&start[0..8], b"start\0\0\0");
    assert_eq!(u32_at(start, 8), 0);
    assert_eq!(u16_at(start, 12), 1);
    assert_eq!(u16_at(start, 14), 0);
    assert_eq!(start[16], 2);
    assert_eq!(start[17], 0);
    let value = &symbols[126..144];
    assert_eq!(&value[0..8], b"value\0\0\0");
    assert_eq!(u32_at(value, 8), 0);
    assert_eq!(u16_at(value, 12), 2);
    assert_eq!(&symbols[144..], &[4, 0, 0, 0]);
}

#[test]
fn empty_program_is_headers_and_file_symbol() {
    let run = Asm::new("e.s", "");
    let bytes = run.serialize(1).unwrap();
    assert_eq!(bytes.len(), 20 + 36 + 4);
    assert_eq!(u16_at(&bytes, 2), 0);
    assert_eq!(u32_at(&bytes, 8), 20);
    assert_eq!(u32_at(&bytes, 12), 2);
}

#[test]
fn unknown_section_name_is_a_format_error() {
    let mut run = Asm::new("u.s", "section .text\nret\nsection .rodata\ndb 1\nsection other\n");
    assert_eq!(run.start(), Ok(()));
    assert_eq!(run.serialize(0), Err(FormatError::UnknownSection(1)));
    let mut upper = Asm::new("u.s", "section .TEXT\n");
    assert_eq!(upper.start(), Ok(()));
    assert_eq!(upper.serialize(0), Err(FormatError::UnknownSection(0)));
}

#[test]
fn long_file_name_is_a_format_error() {
    let mut run = Asm::new("a-name-of-19-bytes.", "section .text\nret\n");
    assert_eq!(run.start(), Ok(()));
    assert_eq!(run.serialize(0), Err(FormatError::FileName));
    let mut fits = Asm::new("a-name-of-18-bytes", "section .text\nret\n");
    assert_eq!(fits.start(), Ok(()));
    let bytes = fits.serialize(0).unwrap();
    assert_eq!(&bytes[20 + 40 + 1 + 18..20 + 40 + 1 + 36], b"a-name-of-18-bytes");
}

#[test]
fn long_label_name_is_a_format_error() {
    let mut run = Asm::new("l.s", "section .text\nshort: ret\neightchr: ret\nninechars: ret\n");
    assert_eq!(run.start(), Ok(()));
    assert_eq!(run.serialize(0), Err(FormatError::LabelName(2)));
}

#[test]
fn sections_are_checked_before_file_name_and_labels() {
    let mut run = Asm::new("a-name-of-19-bytes.", "section nope\nninechars:\n");
    assert_eq!(run.start(), Ok(()));
    assert_eq!(run.serialize(0), Err(FormatError::UnknownSection(0)));
    let mut named = Asm::new("a-name-of-19-bytes.", "section .text\nninechars:\n");
    assert_eq!(named.start(), Ok(()));
    assert_eq!(named.serialize(0), Err(FormatError::FileName));
}

#[test]
fn format_error_messages() {
    assert_eq!(FormatError::UnknownSection(3).message(), "Can't use this section name.");
    assert_eq!(FormatError::FileName.message(), "File name too long.");
    assert_eq!(FormatError::LabelName(0).message(), "Label name too long.");
}

#[test]
fn write_differs_from_serialize_in_the_time_stamp_only() {
    let mut run = Asm::new("prog.s", SOURCE);
    assert_eq!(run.start(), Ok(()));
    let written = run.write().unwrap();
    let stamp = u32_at(&written, 4);
    assert!(stamp > 1_600_000_000);
    assert_eq!(written, run.serialize(stamp).unwrap());
}

#[test]
fn write_reports_format_errors() {
    let mut run = Asm::new("w.s", "section .code\n");
    assert_eq!(run.start(), Ok(()));
    assert_eq!(run.write(), Err(FormatError::UnknownSection(0)));
}

#[test]
fn serialize_free_function_on_hand_made_parts() {
    let mut text = Section::new(b".text");
    text.append(&[0x90, 0x90]);
    text.reserve(2);
    let sections = vec![text];
    let labels = vec![Label::new(b"here", 1, 1)];
    let bytes = serialize(b"x", &sections, &labels, 9).unwrap();
    assert_eq!(bytes.len(), 20 + 40 + 4 + 18 * 5 + 4);
    assert_eq!(&bytes[60..64], &[0x90, 0x90, 0, 0]);
    assert_eq!(u32_at(&bytes, 8), 64);
    assert_eq!(u32_at(&bytes, 12), 5);
    let here = &bytes[64 + 72..64 + 90];
    assert_eq!(&here[0..8], b"here\0\0\0\0");
    assert_eq!(u32_at(here, 8), 1);
}

#[test]
fn section_header_of_a_section() {
    let mut data = Section::new(b".data");
    data.append(b"abc");
    let header = data.to_section_header().unwrap();
    assert_eq!(header.Name, *b".data\0\0\0");
    assert_eq!(header.SizeOfRawData, 3);
    assert_eq!(header.PointerToRawData, 0);
    assert_eq!(header.PointerToRelocations, 0);
    assert_eq!(header.NumberOfRelocations, 0);
    assert_eq!(header.Characteristics, 0xC0300040);
    assert!(Section::new(b".idata").to_section_header().is_none());
    assert_eq!(data.number_of_relocations(), 0);
    assert_eq!(data.name(), b".data");
}

#[test]
fn debug_text_lists_sections_in_hexadecimal() {
    let mut run = Asm::new("d.s", "section .text\nret\nsection .data\ndb 10, 255\nsection .bss\n");
    assert_eq!(run.start(), Ok(()));
    assert_eq!(
        run.debug(),
        b"#####.text#####\nC3 \n#####.data#####\n0A FF \n#####.bss#####\n\n".to_vec()
    );
}

#[test]
fn format_errors_belong_to_the_format_stage() {
    assert_eq!(FormatError::UnknownSection(0).stage(), Stage::Format);
    assert_eq!(FormatError::FileName.stage(), Stage::Format);
    assert_eq!(FormatError::LabelName(1).stage(), Stage::Format);
}

#[test]
fn time_stamp_is_the_low_32_bits() {
    assert_eq!(stamp(0), 0);
    assert_eq!(stamp(1), 1);
    assert_eq!(stamp(1_700_000_000), 1_700_000_000);
    assert_eq!(stamp(0xFFFF_FFFF), 0xFFFF_FFFF);
    assert_eq!(stamp(0x1_0000_0000), 0);
    assert_eq!(stamp(0x1_2345_6789), 0x2345_6789);
    assert_eq!(stamp(-1), 0xFFFF_FFFF);
    assert_eq!(stamp(-2), 0xFFFF_FFFE);
    assert_eq!(stamp(-0x1_0000_0000), 0);
    assert_eq!(stamp(-0x1_0000_0001), 0xFFFF_FFFF);
    assert_eq!(stamp(i64::MAX), 0xFFFF_FFFF);
    assert_eq!(stamp(i64::MIN), 0);
    for seconds in [-5_000_000_000i64, -77, 12345, 9_999_999_999] {
        assert_eq!(stamp(seconds), seconds as u32);
    }
}
