use coffasm::lex::{Lexer, Token};
use coffasm::parser::{Global, Label, Parser, ParserError, Slip, TKind, TType};

fn shown(nodes: &[TType]) -> Vec<String> {
    nodes.iter().map(|n| String::from_utf8(n.show()).unwrap()).collect()
}

fn globals(list: &[Global]) -> Vec<String> {
    list.iter().map(|g| String::from_utf8(g.show()).unwrap()).collect()
}

fn parse_text(
    source: &str,
) -> Result<(Vec<String>, Vec<String>, Vec<String>), (usize, Slip)> {
    let lexer = Lexer::new(source);
    let tokens = lexer.lex().unwrap();
    let mut parser = Parser::new(source, &tokens);
    parser.parse().map(|(nodes, labels, exported)| {
        (
            shown(&nodes),
            labels.iter().map(|l| String::from_utf8(l.show()).unwrap()).collect(),
            globals(&exported),
        )
    })
}

#[test]
fn sections_labels_and_ret() {
    let (nodes, labels, exported) = parse_text("bits 64 section .text main: ret").unwrap();
    assert_eq!(nodes, vec!["Section: .text", "DefineLabel: main", "Instruction: ret"]);
    assert_eq!(labels, vec!["Label: main, pos: 0"]);
    assert!(exported.is_empty());
}

#[test]
fn announced_names_are_resolved_by_their_labels() {
    let (nodes, labels, exported) =
        parse_text("global a global b global c section .text b: a: ret").unwrap();
    assert_eq!(
        nodes,
        vec!["Section: .text", "DefineLabel: b", "DefineLabel: a", "Instruction: ret"]
    );
    assert_eq!(labels, vec!["Label: b, pos: 0", "Label: a, pos: 0"]);
    assert_eq!(
        exported,
        vec!["Valid Global: Label: b, pos: 0", "Invalid Global: c", "Valid Global: Label: a, pos: 0"]
    );
}

#[test]
fn resolution_stops_at_the_first_resolved_name() {
    let (_, _, exported) = parse_text("global a global b section .text a: b: ret").unwrap();
    assert_eq!(exported, vec!["Valid Global: Label: a, pos: 0", "Valid Global: Label: b, pos: 0"]);
    let (_, _, later) = parse_text("global a section .text a: global b b: ret").unwrap();
    assert_eq!(later, vec!["Valid Global: Label: a, pos: 0", "Invalid Global: b"]);
}

#[test]
fn a_name_announced_twice() {
    let (_, _, exported) = parse_text("global a global a global z section .text a: ret").unwrap();
    assert_eq!(
        exported,
        vec!["Invalid Global: z", "Valid Global: Label: a, pos: 0", "Valid Global: Label: a, pos: 0"]
    );
}

#[test]
fn default_and_bits_leave_no_trace() {
    let (nodes, labels, exported) = parse_text("default rel bits , section .data").unwrap();
    assert_eq!(nodes, vec!["Section: .data"]);
    assert!(labels.is_empty());
    assert!(exported.is_empty());
}

#[test]
fn instructions_take_two_names_and_a_token() {
    let (nodes, _, _) = parse_text("section .text mov rax rbx 5 add a b c sub x y ,").unwrap();
    assert_eq!(
        nodes,
        vec!["Section: .text", "Instruction: mov", "Instruction: add", "Instruction: sub"]
    );
}

#[test]
fn a_comma_is_no_second_name() {
    assert_eq!(parse_text("section .text mov rax, 5"), Err((4, Slip::Require)));
}

#[test]
fn statements_need_a_section() {
    assert_eq!(parse_text("ret"), Err((0, Slip::DefineSection)));
    assert_eq!(parse_text("bits 64 main: ret"), Err((2, Slip::DefineSection)));
    assert_eq!(parse_text("global main mov a b c"), Err((2, Slip::DefineSection)));
}

#[test]
fn statements_open_with_a_name() {
    assert_eq!(parse_text("5"), Err((0, Slip::Syntax)));
    assert_eq!(parse_text("section .text , ret"), Err((2, Slip::Syntax)));
}

#[test]
fn tokens_that_end_too_early() {
    assert_eq!(parse_text("bits"), Err((1, Slip::Last)));
    assert_eq!(parse_text("section"), Err((1, Slip::Last)));
    assert_eq!(parse_text("global"), Err((1, Slip::Last)));
    assert_eq!(parse_text("default"), Err((1, Slip::Last)));
    assert_eq!(parse_text("section .text mov"), Err((3, Slip::Last)));
    assert_eq!(parse_text("section .text mov a"), Err((4, Slip::Last)));
    assert_eq!(parse_text("section .text mov a b"), Err((5, Slip::Last)));
    assert_eq!(parse_text("section .text name"), Err((3, Slip::Last)));
}

#[test]
fn tokens_of_the_wrong_kind() {
    assert_eq!(parse_text("section 5"), Err((1, Slip::Require)));
    assert_eq!(parse_text("global ,"), Err((1, Slip::Require)));
    assert_eq!(parse_text("default 1"), Err((1, Slip::Require)));
    assert_eq!(parse_text("section .text name ret"), Err((3, Slip::Require)));
    assert_eq!(parse_text("section .text name 5"), Err((3, Slip::Require)));
    assert_eq!(parse_text("section .text mov 1 b c"), Err((3, Slip::Require)));
}

#[test]
fn any_punctuation_defines_a_label() {
    let (nodes, labels, _) = parse_text("section .text here, there[").unwrap();
    assert_eq!(nodes, vec!["Section: .text", "DefineLabel: here", "DefineLabel: there"]);
    assert_eq!(labels.len(), 2);
}

#[test]
fn keywords_are_case_sensitive() {
    let (nodes, _, _) = parse_text("section .text RET: Section:").unwrap();
    assert_eq!(nodes, vec!["Section: .text", "DefineLabel: RET", "DefineLabel: Section"]);
}

#[test]
fn cursor_methods() {
    let source = "a 1 ,";
    let lexer = Lexer::new(source);
    let tokens = lexer.lex().unwrap();
    let mut parser = Parser::new(source, &tokens);
    assert!(parser.has_value());
    assert!(matches!(parser.peak(), Ok(Token::Variable(b"a"))));
    assert!(matches!(parser.consume(), Ok(Token::Variable(b"a"))));
    assert!(matches!(parser.peak(), Ok(Token::Figure(b"1"))));
    assert_eq!(parser.expect(Token::Figure(b"")), Ok(&b"1"[..]));
    assert_eq!(parser.expect(Token::Variable(b"")), Err((2, Slip::Require)));
    assert!(!parser.has_value());
    assert!(matches!(parser.peak(), Err((3, Slip::Last))));
    assert!(matches!(parser.consume(), Err((3, Slip::Last))));
    assert_eq!(parser.expect(Token::Reserved(b"")), Err((3, Slip::Last)));
    assert!(matches!(parser.parse(), Ok((n, l, g)) if n.is_empty() && l.is_empty() && g.is_empty()));
}

#[test]
fn operands_by_token_kind() {
    let source = "rax 12 [";
    let lexer = Lexer::new(source);
    let tokens = lexer.lex().unwrap();
    let mut parser = Parser::new(source, &tokens);
    let first = parser.reg_or_mem_imm().unwrap();
    assert_eq!(first.show(), b"Value: rax(Reg)".to_vec());
    let second = parser.reg_or_mem_imm().unwrap();
    assert_eq!(second.show(), b"Value: 12(I64)".to_vec());
    assert!(matches!(parser.reg_or_mem_imm(), Err((2, Slip::RegOrMem))));
    assert!(matches!(parser.reg_or_mem_imm(), Err((3, Slip::Last))));
}

#[test]
fn parsing_goes_on_where_the_parser_stands() {
    let source = "section .text ret ret";
    let lexer = Lexer::new(source);
    let tokens = lexer.lex().unwrap();
    let mut parser = Parser::new(source, &tokens);
    assert!(parser.consume().is_ok());
    assert!(parser.consume().is_ok());
    assert!(matches!(parser.parse(), Err((2, Slip::DefineSection))));
    assert!(matches!(parser.parse(), Err((3, Slip::DefineSection))));
    let (nodes, labels, exported) = parser.parse().unwrap();
    assert!(nodes.is_empty() && labels.is_empty() && exported.is_empty());
}

#[test]
fn parsing_from_the_middle_keeps_what_follows() {
    let source = "bits 64 section .text ret";
    let lexer = Lexer::new(source);
    let tokens = lexer.lex().unwrap();
    let mut parser = Parser::new(source, &tokens);
    assert!(parser.consume().is_ok());
    assert!(parser.consume().is_ok());
    let (nodes, _, _) = parser.parse().unwrap();
    assert_eq!(shown(&nodes), vec!["Section: .text", "Instruction: ret"]);
}

#[test]
fn shown_forms() {
    assert_eq!(TKind::I64.show(), b"I64".to_vec());
    assert_eq!(TKind::Variable.show(), b"Variable".to_vec());
    assert_eq!(TKind::Label.show(), b"Label".to_vec());
    assert_eq!(TKind::Reg.show(), b"Reg".to_vec());
    assert_eq!(TKind::Mem.show(), b"Mem".to_vec());
    assert_eq!(TType::Property(b"p").show(), b"Property: p".to_vec());
    assert_eq!(TType::Value((TKind::Mem, b"x")).show(), b"Value: x(Mem)".to_vec());
    assert_eq!(TType::SectionName(b".bss").show(), b"Section: .bss".to_vec());
    assert_eq!(TType::DefineLabel(b"l").show(), b"DefineLabel: l".to_vec());
    assert_eq!(TType::Instruction(b"ret").show(), b"Instruction: ret".to_vec());
    let label = Label::new(b"entry");
    assert_eq!(label.name(), b"entry");
    assert_eq!(label.pos(), 0);
    assert_eq!(label.show(), b"Label: entry, pos: 0".to_vec());
    assert_eq!(Global::Invalid(b"g").show(), b"Invalid Global: g".to_vec());
    assert_eq!(
        Global::Valid(std::rc::Rc::new(Label::new(b"g"))).show(),
        b"Valid Global: Label: g, pos: 0".to_vec()
    );
}

#[test]
fn slip_messages() {
    assert_eq!(Slip::Syntax.message(), "Syntax Error");
    assert_eq!(Slip::Last.message(), "Error: Last");
    assert_eq!(Slip::Require.message(), "Error: require: Syntax Error");
    assert_eq!(Slip::DefineSection.message(), "Define Section");
    assert_eq!(Slip::RegOrMem.message(), "expect Reg or Mem");
}

#[test]
fn parser_error_places_offsets() {
    let reporter = ParserError::new("one\ntwo three\n");
    let d = reporter.panic_from_pos(8, "here");
    assert_eq!((d.line, d.column, d.text), (2, 5, &b"two three"[..]));
    let w = reporter.panic_from_word(4, "word");
    assert_eq!((w.line, w.column), (2, 1));
    assert_eq!(w.render(), b"two three\n^\nword\n".to_vec());
    let end = reporter.panic_from_pos(13, "end");
    assert_eq!((end.line, end.column), (0, 0));
}
