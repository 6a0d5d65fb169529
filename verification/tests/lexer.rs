use coffasm::lex::{nom_test, Lexer, LexerError, Token};

fn kinds(source: &str) -> Result<Vec<(char, String)>, (usize, String)> {
    let lexer = Lexer::new(source);
    lexer.lex().map(|tokens| {
        tokens
            .iter()
            .map(|t| {
                let kind = match t {
                    Token::Figure(_) => 'f',
                    Token::Variable(_) => 'v',
                    Token::Reserved(_) => 'r',
                };
                (kind, String::from_utf8(t.get().to_vec()).unwrap())
            })
            .collect()
    })
}

fn pairs(expected: &[(char, &str)]) -> Result<Vec<(char, String)>, (usize, String)> {
    Ok(expected.iter().map(|(k, s)| (*k, s.to_string())).collect())
}

#[test]
fn tokens_of_an_instruction() {
    assert_eq!(
        kinds("mov rax, 15"),
        pairs(&[('v', "mov"), ('v', "rax"), ('r', ","), ('f', "15")])
    );
}

#[test]
fn names_may_open_with_one_dot() {
    assert_eq!(kinds("section .text"), pairs(&[('v', "section"), ('v', ".text")]));
    assert_eq!(kinds("_a9_b"), pairs(&[('v', "_a9_b")]));
    assert_eq!(kinds("a.b"), pairs(&[('v', "a"), ('v', ".b")]));
    assert_eq!(kinds("a."), Err((1, "Undefined lexical".to_string())));
    assert_eq!(kinds("..a"), Err((0, "Undefined lexical".to_string())));
    assert_eq!(kinds(".9"), Err((0, "Undefined lexical".to_string())));
}

#[test]
fn figure_then_name_without_space() {
    assert_eq!(kinds("12ab"), pairs(&[('f', "12"), ('v', "ab")]));
}

#[test]
fn punctuation_marks_are_single_tokens() {
    assert_eq!(
        kinds("[(,:)]"),
        pairs(&[('r', "["), ('r', "("), ('r', ","), ('r', ":"), ('r', ")"), ('r', "]")])
    );
}

#[test]
fn white_space_and_comments_between_tokens() {
    assert_eq!(
        kinds("a \r\n\t // note\nb /* c\n d */c"),
        pairs(&[('v', "a"), ('v', "b"), ('v', "c")])
    );
    assert_eq!(kinds("/**/x"), pairs(&[('v', "x")]));
}

#[test]
fn a_round_skips_one_comment_only() {
    assert_eq!(kinds("a /*x*/ b"), Err((7, "Undefined lexical".to_string())));
    assert_eq!(kinds("/*x*//*y*/b"), Err((5, "Undefined lexical".to_string())));
}

#[test]
fn unclosed_comments_are_no_comments() {
    assert_eq!(kinds("a // to the end"), Err((2, "Undefined lexical".to_string())));
    assert_eq!(kinds("a /* open"), Err((2, "Undefined lexical".to_string())));
    assert_eq!(kinds("a /*/"), Err((2, "Undefined lexical".to_string())));
}

#[test]
fn text_must_end_with_a_token() {
    assert_eq!(kinds(""), pairs(&[]));
    assert_eq!(kinds("ret"), pairs(&[('v', "ret")]));
    assert_eq!(kinds("ret\n"), Err((4, "Undefined lexical".to_string())));
    assert_eq!(kinds(" "), Err((1, "Undefined lexical".to_string())));
}

#[test]
fn bytes_that_start_no_token() {
    assert_eq!(kinds("a ; b"), Err((2, "Undefined lexical".to_string())));
    assert_eq!(kinds("'s'"), Err((0, "Undefined lexical".to_string())));
    assert_eq!(kinds("mov rax, -1"), Err((9, "Undefined lexical".to_string())));
}

#[test]
fn token_text_and_show_agree() {
    let lexer = Lexer::new("lbl: 42");
    let tokens = lexer.lex().unwrap();
    assert_eq!(tokens.len(), 3);
    for t in &tokens {
        assert_eq!(t.show(), t.get().to_vec());
    }
    assert_eq!(tokens[2].show(), b"42".to_vec());
}

#[test]
fn lexer_error_places_an_offset() {
    let source = "mov rax\nadd ?";
    let lexer = Lexer::new(source);
    let (at, message) = lexer.lex().unwrap_err();
    assert_eq!(at, 12);
    let d = LexerError::new(&lexer).panic(at, &message);
    assert_eq!((d.line, d.column, d.text), (2, 5, &b"add ?"[..]));
    assert_eq!(d.render(), b"add ?\n    ^\nUndefined lexical\n".to_vec());
}

#[test]
fn leading_figure() {
    match nom_test(b"123abc") {
        Some((rest, Token::Figure(digits))) => {
            assert_eq!(rest, b"abc");
            assert_eq!(digits, b"123");
        }
        _ => panic!("no figure"),
    }
    match nom_test(b"7") {
        Some((rest, Token::Figure(digits))) => {
            assert_eq!(rest, b"");
            assert_eq!(digits, b"7");
        }
        _ => panic!("no figure"),
    }
    assert!(nom_test(b"abc").is_none());
    assert!(nom_test(b"").is_none());
}

#[test]
fn lexer_methods_one_by_one() {
    let lexer = Lexer::new(" \n12 .ab, //x\n");
    assert_eq!(lexer.ignore_space(0), 2);
    assert_eq!(lexer.ignore_space(2), 2);
    assert!(matches!(lexer.get_figure(2), Some((4, Token::Figure(b"12")))));
    assert!(lexer.get_figure(5).is_none());
    assert!(matches!(lexer.get_word(5), Some((8, Token::Variable(b".ab")))));
    assert!(lexer.get_word(2).is_none());
    assert!(lexer.get_word(99).is_none());
    assert!(matches!(lexer.get_others(8), Some((9, Token::Reserved(b",")))));
    assert!(lexer.get_others(5).is_none());
    assert_eq!(lexer.ignore_comment(10), Some(14));
    assert_eq!(lexer.ignore_comment(9), None);
    assert_eq!(lexer.ignore_comment(13), None);
    assert_eq!(lexer.ignore_comment(99), None);
}
