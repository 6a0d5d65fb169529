//! A parser over the tokens of the tokenizer: it sorts a token stream into
//! section names, instructions and label definitions, and resolves the
//! names that `global` announced once their labels are defined.

use crate::assembler::bytes::put_bytes;
use crate::assembler::report::{locate, place_of, Diagnostic};
use crate::assembler::text::{decimal_digits, put_decimal};
use crate::assembler::section::same_bytes;
use crate::lex::{lexemes, Lexeme, Token};
use std::rc::Rc;
use vstd::prelude::*;
use vstd::string::StringSliceAdditionalSpecFns;

verus! {

/// The kind of a value.
#[derive(Clone, Copy, Debug, PartialEq, Eq, Structural)]
pub enum TKind {
    I64,
    Variable,
    Label,
    Reg,
    Mem,
}

/// A node of the syntax, with the text that it was read from.
#[derive(Clone, Copy, Debug, PartialEq, Eq)]
pub enum TType<'a> {
    Property(&'a [u8]),
    Value((TKind, &'a [u8])),
    SectionName(&'a [u8]),
    DefineLabel(&'a [u8]),
    Instruction(&'a [u8]),
}

/// A label that a text defines.
#[derive(Clone, Copy, Debug, PartialEq, Eq)]
pub struct Label<'a> {
    m_name: &'a [u8],
    m_pos: usize,
}

/// A name that `global` announced: resolved once its label is defined.
#[derive(Clone, Debug, PartialEq, Eq)]
pub enum Global<'a> {
    Valid(Rc<Label<'a>>),
    Invalid(&'a [u8]),
}

/// Why parsing stopped.
#[derive(Clone, Copy, Debug, PartialEq, Eq, Structural)]
pub enum Slip {
    /// A statement opens with a token that is no name.
    Syntax,
    /// The tokens ended where one more was due.
    Last,
    /// A token is not of the kind that is due.
    Require,
    /// An instruction or a label before the first section.
    DefineSection,
    /// Punctuation where a register, a memory operand or a figure is due.
    RegOrMem,
}

/// A node as a mathematical value.
pub enum Node {
    Property(Seq<u8>),
    Value(TKind, Seq<u8>),
    SectionName(Seq<u8>),
    DefineLabel(Seq<u8>),
    Instruction(Seq<u8>),
}

/// A label as a mathematical value.
pub struct Mark {
    pub name: Seq<u8>,
    pub pos: nat,
}

/// An announced name as a mathematical value.
pub enum Export {
    Valid(Mark),
    Invalid(Seq<u8>),
}

/// What parsing gives: the nodes, the labels and the announced names.
pub struct Syntax {
    pub nodes: Seq<Node>,
    pub labels: Seq<Mark>,
    pub globals: Seq<Export>,
}

/// Where a parser stands: at which token, and in which section.
pub struct Cursor {
    pub idx: int,
    pub section: Seq<u8>,
}

/// Where parsing stopped and why, and the index up to which tokens were
/// taken.
pub struct Stop {
    pub at: int,
    pub slip: Slip,
    pub idx: int,
}

impl<'a> View for TType<'a> {
    type V = Node;

    open spec fn view(&self) -> Node {
        match self {
            TType::Property(s) => Node::Property(s@),
            TType::Value((kind, s)) => Node::Value(*kind, s@),
            TType::SectionName(s) => Node::SectionName(s@),
            TType::DefineLabel(s) => Node::DefineLabel(s@),
            TType::Instruction(s) => Node::Instruction(s@),
        }
    }
}

impl<'a> View for Label<'a> {
    type V = Mark;

    closed spec fn view(&self) -> Mark {
        Mark { name: self.m_name@, pos: self.m_pos as nat }
    }
}

impl<'a> View for Global<'a> {
    type V = Export;

    open spec fn view(&self) -> Export {
        match self {
            Global::Valid(label) => Export::Valid(label@),
            Global::Invalid(name) => Export::Invalid(name@),
        }
    }
}

impl<'a> Label<'a> {
    /// A label `name`, not placed yet.
    pub fn new(name: &'a [u8]) -> (l: Self)
        ensures
            l@ == (Mark { name: name@, pos: 0 }),
    {
        Self { m_name: name, m_pos: 0 }
    }

    pub fn name(&self) -> (r: &'a [u8])
        ensures
            r@ == self@.name,
    {
        self.m_name
    }

    pub fn pos(&self) -> (r: usize)
        ensures
            r == self@.pos,
    {
        self.m_pos
    }
}

impl Slip {
    /// The text shown for the slip.
    pub open spec fn spec_message(self) -> Seq<char> {
        match self {
            Slip::Syntax => "Syntax Error"@,
            Slip::Last => "Error: Last"@,
            Slip::Require => "Error: require: Syntax Error"@,
            Slip::DefineSection => "Define Section"@,
            Slip::RegOrMem => "expect Reg or Mem"@,
        }
    }

    /// The text shown for the slip.
    pub fn message(&self) -> (m: &'static str)
        ensures
            m@ == self.spec_message(),
    {
        match self {
            Slip::Syntax => "Syntax Error",
            Slip::Last => "Error: Last",
            Slip::Require => "Error: require: Syntax Error",
            Slip::DefineSection => "Define Section",
            Slip::RegOrMem => "expect Reg or Mem",
        }
    }
}

/// The nodes of a vector as mathematical values.
pub open spec fn nodes_of<'a>(v: Seq<TType<'a>>) -> Seq<Node> {
    Seq::new(v.len(), |i: int| v[i]@)
}

/// The labels of a vector as mathematical values.
pub open spec fn marks_of<'a>(v: Seq<Rc<Label<'a>>>) -> Seq<Mark> {
    Seq::new(v.len(), |i: int| v[i]@)
}

/// The announced names of a vector as mathematical values.
pub open spec fn exports_of<'a>(v: Seq<Global<'a>>) -> Seq<Export> {
    Seq::new(v.len(), |i: int| v[i]@)
}

/// The name at `idx`, where a name stands there.
pub open spec fn name_at(tokens: Seq<Lexeme>, idx: int) -> Result<Seq<u8>, Stop> {
    if !(0 <= idx < tokens.len()) {
        Err(Stop { at: tokens.len() as int, slip: Slip::Last, idx })
    } else if tokens[idx] is Variable {
        Ok(tokens[idx].text())
    } else {
        Err(Stop { at: idx, slip: Slip::Require, idx: idx + 1 })
    }
}

/// The announced names once the label `mark` is defined. They are gone
/// through from the front, for as many places as there are names and up to
/// the first resolved one; each open announcement of the name is taken
/// out, the last name takes its place, and the resolved name goes to the
/// back.
pub open spec fn resolved(globals: Seq<Export>, i: int, mark: Mark) -> Seq<Export>
    decreases globals.len() - i,
{
    if !(0 <= i < globals.len()) {
        globals
    } else {
        match globals[i] {
            Export::Valid(_) => globals,
            Export::Invalid(name) => if name == mark.name {
                resolved(
                    globals.update(i, globals.last()).drop_last().push(Export::Valid(mark)),
                    i + 1,
                    mark,
                )
            } else {
                resolved(globals, i + 1, mark)
            },
        }
    }
}

/// Whether a name is one of `mov`, `add` and `sub`.
pub open spec fn takes_operands(name: Seq<u8>) -> bool {
    name == "mov".spec_bytes() || name == "add".spec_bytes() || name == "sub".spec_bytes()
}

/// The statement that starts at the token `at.idx`. `bits` and `default`
/// take one token more and leave no trace; `section` and `global` take a
/// name; `mov`, `add` and `sub` take two names and one token of any kind;
/// `ret` takes nothing; any other name defines a label and takes one
/// punctuation mark. Instructions and labels need a section.
pub open spec fn statement(syntax: Syntax, at: Cursor, tokens: Seq<Lexeme>) -> Result<
    (Syntax, Cursor),
    Stop,
> {
    let idx = at.idx;
    let word = tokens[idx].text();
    let n = tokens.len() as int;
    if !(tokens[idx] is Variable) {
        Err(Stop { at: idx, slip: Slip::Syntax, idx: idx + 1 })
    } else if word == "bits".spec_bytes() {
        if idx + 1 < n {
            Ok((syntax, Cursor { idx: idx + 2, ..at }))
        } else {
            Err(Stop { at: n, slip: Slip::Last, idx: idx + 1 })
        }
    } else if word == "section".spec_bytes() {
        match name_at(tokens, idx + 1) {
            Err(stop) => Err(stop),
            Ok(name) => Ok(
                (
                    Syntax { nodes: syntax.nodes.push(Node::SectionName(name)), ..syntax },
                    Cursor { idx: idx + 2, section: name },
                ),
            ),
        }
    } else if word == "default".spec_bytes() {
        match name_at(tokens, idx + 1) {
            Err(stop) => Err(stop),
            Ok(_) => Ok((syntax, Cursor { idx: idx + 2, ..at })),
        }
    } else if word == "global".spec_bytes() {
        match name_at(tokens, idx + 1) {
            Err(stop) => Err(stop),
            Ok(name) => Ok(
                (
                    Syntax { globals: syntax.globals.push(Export::Invalid(name)), ..syntax },
                    Cursor { idx: idx + 2, ..at },
                ),
            ),
        }
    } else if at.section.len() == 0 {
        Err(Stop { at: idx, slip: Slip::DefineSection, idx: idx + 1 })
    } else if takes_operands(word) {
        match name_at(tokens, idx + 1) {
            Err(stop) => Err(stop),
            Ok(_) => match name_at(tokens, idx + 2) {
                Err(stop) => Err(stop),
                Ok(_) => if idx + 3 < n {
                    Ok(
                        (
                            Syntax { nodes: syntax.nodes.push(Node::Instruction(word)), ..syntax },
                            Cursor { idx: idx + 4, ..at },
                        ),
                    )
                } else {
                    Err(Stop { at: n, slip: Slip::Last, idx: idx + 3 })
                },
            },
        }
    } else if word == "ret".spec_bytes() {
        Ok(
            (
                Syntax { nodes: syntax.nodes.push(Node::Instruction(word)), ..syntax },
                Cursor { idx: idx + 1, ..at },
            ),
        )
    } else if !(idx + 1 < n) {
        Err(Stop { at: n, slip: Slip::Last, idx: idx + 1 })
    } else if !(tokens[idx + 1] is Reserved) {
        Err(Stop { at: idx + 1, slip: Slip::Require, idx: idx + 2 })
    } else {
        let mark = Mark { name: word, pos: 0 };
        Ok(
            (
                Syntax {
                    nodes: syntax.nodes.push(Node::DefineLabel(word)),
                    labels: syntax.labels.push(mark),
                    globals: resolved(syntax.globals, 0, mark),
                },
                Cursor { idx: idx + 2, ..at },
            ),
        )
    }
}

/// The statements from the token `at.idx` on, up to the end of the tokens
/// or to the first slip.
pub open spec fn parsed(syntax: Syntax, at: Cursor, tokens: Seq<Lexeme>) -> Result<
    (Syntax, Cursor),
    (Stop, Cursor),
>
    decreases tokens.len() - at.idx,
{
    if !(0 <= at.idx < tokens.len()) {
        Ok((syntax, at))
    } else {
        match statement(syntax, at, tokens) {
            Err(stop) => Err((stop, at)),
            Ok((more, next)) => parsed(more, next, tokens),
        }
    }
}

/// The syntax before anything is parsed.
pub open spec fn nothing() -> Syntax {
    Syntax { nodes: Seq::empty(), labels: Seq::empty(), globals: Seq::empty() }
}

/// The parser of one token stream.
pub struct Parser<'a> {
    m_str: &'a [u8],
    m_tokens: &'a Vec<Token<'a>>,
    m_size: usize,
    m_idx: usize,
    m_now_section: &'a [u8],
}

impl<'a> Parser<'a> {
    /// The tokens that are parsed.
    pub closed spec fn tokens(&self) -> Seq<Lexeme> {
        lexemes(self.m_tokens@)
    }

    /// The text that the tokens were read from.
    pub closed spec fn source(&self) -> Seq<u8> {
        self.m_str@
    }

    /// Where the parser stands.
    pub closed spec fn cursor(&self) -> Cursor {
        Cursor { idx: self.m_idx as int, section: self.m_now_section@ }
    }

    /// The parser keeps count of its tokens and stays among them.
    #[verifier::type_invariant]
    spec fn wf(&self) -> bool {
        self.m_size == self.m_tokens@.len() && self.m_idx <= self.m_size
    }

    /// Whether two states of a parser belong to the same tokens.
    pub open spec fn same_input(&self, other: &Self) -> bool {
        self.tokens() == other.tokens() && self.source() == other.source()
    }

    /// A parser at the first of `tokens`, which were read from `_str`, in no
    /// section yet.
    pub fn new(_str: &'a str, tokens: &'a Vec<Token<'a>>) -> (r: Self)
        ensures
            r.source() == _str.spec_bytes(),
            r.tokens() == lexemes(tokens@),
            r.cursor() == (Cursor { idx: 0, section: Seq::empty() }),
    {
        let text = _str.as_bytes();
        let r = Self {
            m_str: text,
            m_tokens: tokens,
            m_size: tokens.len(),
            m_idx: 0,
            m_now_section: vstd::slice::slice_subrange(text, 0, 0),
        };
        assert(r.m_now_section@ =~= Seq::empty());
        r
    }

    /// The token at which the parser stands, if one is left.
    pub open spec fn current(&self) -> Option<Lexeme> {
        if 0 <= self.cursor().idx < self.tokens().len() {
            Some(self.tokens()[self.cursor().idx])
        } else {
            None
        }
    }

    /// Whether the parser stands where `before` stood, in the same input.
    pub open spec fn stays(&self, before: &Self) -> bool {
        self.same_input(before) && self.cursor() == before.cursor()
    }

    /// Whether the parser stands one token behind where `before` stood, in
    /// the same input and the same section.
    pub open spec fn steps(&self, before: &Self) -> bool {
        self.same_input(before) && self.cursor() == (Cursor {
            idx: before.cursor().idx + 1,
            ..before.cursor()
        })
    }

    /// Whether `e` says that the tokens of the parser are used up.
    pub open spec fn at_end(&self, e: (usize, Slip)) -> bool {
        e.0 == self.tokens().len() && e.1 == Slip::Last
    }

    /// Whether a token is left.
    pub fn has_value(&self) -> (r: bool)
        ensures
            r == self.current().is_some(),
    {
        proof {
            use_type_invariant(self);
        }
        self.m_idx < self.m_size
    }

    /// The token at which the parser stands.
    pub fn peak(&self) -> (r: Result<&'a Token<'a>, (usize, Slip)>)
        ensures
            match r {
                Ok(token) => self.current() == Some(token@),
                Err(e) => self.current().is_none() && self.at_end(e),
            },
    {
        proof {
            use_type_invariant(self);
        }
        if self.m_idx >= self.m_size {
            Err((self.m_size, Slip::Last))
        } else {
            Ok(&self.m_tokens[self.m_idx])
        }
    }

    /// Takes the token at which the parser stands.
    pub fn consume(&mut self) -> (r: Result<&'a Token<'a>, (usize, Slip)>)
        ensures
            match r {
                Ok(token) => old(self).current() == Some(token@) && final(self).steps(old(self)),
                Err(e) => old(self).current().is_none() && old(self).at_end(e)
                    && final(self).stays(old(self)),
            },
    {
        proof {
            use_type_invariant(&*self);
        }
        if self.m_idx >= self.m_size {
            Err((self.m_size, Slip::Last))
        } else {
            let token = &self.m_tokens[self.m_idx];
            self.m_idx += 1;
            Ok(token)
        }
    }

    /// Takes a token and reads it as an operand: a figure is a 64-bit
    /// value, a name is a register, and punctuation is a slip at the token.
    pub fn reg_or_mem_imm(&mut self) -> (r: Result<TType<'a>, (usize, Slip)>)
        ensures
            match old(self).current() {
                None => final(self).stays(old(self)) && (r matches Err(e) && old(self).at_end(e)),
                Some(token) => final(self).steps(old(self)) && (match token {
                    Lexeme::Figure(n) => r matches Ok(node) && node@ == Node::Value(TKind::I64, n),
                    Lexeme::Variable(n) => r matches Ok(node) && node@ == Node::Value(
                        TKind::Reg,
                        n,
                    ),
                    Lexeme::Reserved(_) => r matches Err(e) && e.0 == old(self).cursor().idx && e.1
                        == Slip::RegOrMem,
                }),
            },
    {
        let at: usize = self.m_idx;
        let token = match self.consume() {
            Ok(token) => token,
            Err(e) => {
                return Err(e);
            },
        };
        match token {
            Token::Figure(n) => Ok(TType::Value((TKind::I64, n))),
            Token::Reserved(_) => Err((at, Slip::RegOrMem)),
            Token::Variable(n) => Ok(TType::Value((TKind::Reg, n))),
        }
    }

    /// Takes a token, which must be a name, and gives its text.
    fn expect_name(&mut self) -> (r: Result<&'a [u8], (usize, Slip)>)
        ensures
            final(self).same_input(old(self)),
            final(self).cursor().section == old(self).cursor().section,
            match r {
                Ok(name) => name_at(old(self).tokens(), old(self).cursor().idx) == Ok::<
                    Seq<u8>,
                    Stop,
                >(name@) && final(self).cursor().idx == old(self).cursor().idx + 1,
                Err((at, slip)) => name_at(old(self).tokens(), old(self).cursor().idx) == Err::<
                    Seq<u8>,
                    Stop,
                >(Stop { at: at as int, slip, idx: final(self).cursor().idx }),
            },
    {
        let at: usize = self.m_idx;
        match self.consume() {
            Err(e) => Err(e),
            Ok(token) => match token {
                Token::Variable(n) => Ok(n),
                _ => Err((at, Slip::Require)),
            },
        }
    }

    /// Takes a token, which must be of the same kind as `t`, and gives its
    /// text. A token of another kind is a slip at the token.
    pub fn expect(&mut self, t: Token<'_>) -> (r: Result<&'a [u8], (usize, Slip)>)
        ensures
            match old(self).current() {
                None => final(self).stays(old(self)) && (r matches Err(e) && old(self).at_end(e)),
                Some(token) => final(self).steps(old(self)) && (if same_kind(t@, token) {
                    r matches Ok(text) && text@ == token.text()
                } else {
                    r matches Err(e) && e.0 == old(self).cursor().idx && e.1 == Slip::Require
                }),
            },
    {
        let at: usize = self.m_idx;
        let token = match self.consume() {
            Ok(token) => token,
            Err(e) => {
                return Err(e);
            },
        };
        let matching = match (&t, token) {
            (Token::Figure(_), Token::Figure(_)) => true,
            (Token::Variable(_), Token::Variable(_)) => true,
            (Token::Reserved(_), Token::Reserved(_)) => true,
            _ => false,
        };
        if matching {
            Ok(token.get())
        } else {
            Err((at, Slip::Require))
        }
    }

    /// Resolves the announcements of the name of a label that has just
    /// been defined.
    fn resolve(tglobal: &mut Vec<Global<'a>>, name: &'a [u8])
        ensures
            exports_of(final(tglobal)@) == resolved(
                exports_of(old(tglobal)@),
                0,
                Mark { name: name@, pos: 0 },
            ),
    {
        let ghost mark = Mark { name: name@, pos: 0 };
        let n: usize = tglobal.len();
        let mut i: usize = 0;
        let mut going: bool = true;
        while going && i < n
            invariant
                tglobal@.len() == n,
                i <= n,
                mark == (Mark { name: name@, pos: 0 }),
                going ==> resolved(exports_of(tglobal@), i as int, mark) == resolved(
                    exports_of(old(tglobal)@),
                    0,
                    mark,
                ),
                !going ==> exports_of(tglobal@) == resolved(exports_of(old(tglobal)@), 0, mark),
            decreases n - i + (if going {
                    1int
                } else {
                    0int
                }),
        {
            let ghost before = exports_of(tglobal@);
            let open: Option<&'a [u8]> = match &tglobal[i] {
                Global::Invalid(announced) => Some(*announced),
                Global::Valid(_) => None,
            };
            match open {
                None => {
                    going = false;
                },
                Some(announced) => {
                    if same_bytes(announced, name) {
                        tglobal.swap_remove(i);
                        tglobal.push(Global::Valid(Rc::new(Label::new(name))));
                        assert(exports_of(tglobal@) =~= before.update(
                            i as int,
                            before.last(),
                        ).drop_last().push(Export::Valid(mark)));
                    }
                    i += 1;
                },
            }
        }
    }

    /// Parses the tokens from where the parser stands to their end, or to
    /// the first slip, which comes back with the index of the token at
    /// which it was found.
    pub fn parse(&mut self) -> (r: Result<
        (Vec<TType<'a>>, Vec<Rc<Label<'a>>>, Vec<Global<'a>>),
        (usize, Slip),
    >)
        ensures
            final(self).same_input(old(self)),
            match r {
                Ok((ttypes, tlabel, tglobal)) => parsed(
                    nothing(),
                    old(self).cursor(),
                    old(self).tokens(),
                ) == Ok::<(Syntax, Cursor), (Stop, Cursor)>(
                    (
                        Syntax {
                            nodes: nodes_of(ttypes@),
                            labels: marks_of(tlabel@),
                            globals: exports_of(tglobal@),
                        },
                        final(self).cursor(),
                    ),
                ),
                Err((at, slip)) => parsed(nothing(), old(self).cursor(), old(self).tokens())
                    matches Err((stop, before)) && stop.at == at && stop.slip == slip
                    && final(self).cursor() == (Cursor { idx: stop.idx, section: before.section }),
            },
    {
        let mut ttypes: Vec<TType<'a>> = Vec::new();
        let mut tlabel: Vec<Rc<Label<'a>>> = Vec::new();
        let mut tglobal: Vec<Global<'a>> = Vec::new();
        let ghost goal = parsed(nothing(), old(self).cursor(), old(self).tokens());
        assert(nodes_of(ttypes@) =~= Seq::empty());
        assert(marks_of(tlabel@) =~= Seq::empty());
        assert(exports_of(tglobal@) =~= Seq::empty());
        while self.has_value()
            invariant
                self.same_input(old(self)),
                goal == parsed(nothing(), old(self).cursor(), old(self).tokens()),
                parsed(
                    Syntax {
                        nodes: nodes_of(ttypes@),
                        labels: marks_of(tlabel@),
                        globals: exports_of(tglobal@),
                    },
                    self.cursor(),
                    self.tokens(),
                ) == goal,
            decreases self.tokens().len() - self.cursor().idx,
        {
            let ghost syntax = Syntax {
                nodes: nodes_of(ttypes@),
                labels: marks_of(tlabel@),
                globals: exports_of(tglobal@),
            };
            let at: usize = self.m_idx;
            let var: &'a [u8] = match self.consume() {
                Ok(Token::Variable(var)) => var,
                Ok(_) => {
                    return Err((at, Slip::Syntax));
                },
                Err(e) => {
                    return Err(e);
                },
            };
            if same_bytes(var, "bits".as_bytes()) {
                if let Err(e) = self.consume() {
                    return Err(e);
                }
            } else if same_bytes(var, "section".as_bytes()) {
                let name = match self.expect_name() {
                    Ok(name) => name,
                    Err(e) => {
                        return Err(e);
                    },
                };
                ttypes.push(TType::SectionName(name));
                proof {
                    use_type_invariant(&*self);
                }
                self.m_now_section = name;
                assert(nodes_of(ttypes@) =~= syntax.nodes.push(Node::SectionName(name@)));
            } else if same_bytes(var, "default".as_bytes()) {
                if let Err(e) = self.expect_name() {
                    return Err(e);
                }
            } else if same_bytes(var, "global".as_bytes()) {
                let name = match self.expect_name() {
                    Ok(name) => name,
                    Err(e) => {
                        return Err(e);
                    },
                };
                tglobal.push(Global::Invalid(name));
                assert(exports_of(tglobal@) =~= syntax.globals.push(Export::Invalid(name@)));
            } else if self.m_now_section.len() == 0 {
                return Err((at, Slip::DefineSection));
            } else if same_bytes(var, "mov".as_bytes()) || same_bytes(var, "add".as_bytes())
                || same_bytes(var, "sub".as_bytes()) {
                if let Err(e) = self.expect_name() {
                    return Err(e);
                }
                if let Err(e) = self.expect_name() {
                    return Err(e);
                }
                if let Err(e) = self.consume() {
                    return Err(e);
                }
                ttypes.push(TType::Instruction(var));
                assert(nodes_of(ttypes@) =~= syntax.nodes.push(Node::Instruction(var@)));
            } else if same_bytes(var, "ret".as_bytes()) {
                ttypes.push(TType::Instruction(var));
                assert(nodes_of(ttypes@) =~= syntax.nodes.push(Node::Instruction(var@)));
            } else {
                let mark_at: usize = self.m_idx;
                match self.consume() {
                    Ok(Token::Reserved(_)) => {},
                    Ok(_) => {
                        return Err((mark_at, Slip::Require));
                    },
                    Err(e) => {
                        return Err(e);
                    },
                }
                tlabel.push(Rc::new(Label::new(var)));
                ttypes.push(TType::DefineLabel(var));
                Self::resolve(&mut tglobal, var);
                assert(nodes_of(ttypes@) =~= syntax.nodes.push(Node::DefineLabel(var@)));
                assert(marks_of(tlabel@) =~= syntax.labels.push(Mark { name: var@, pos: 0 }));
            }
        }
        Ok((ttypes, tlabel, tglobal))
    }
}

/// Whether two tokens are of the same kind.
pub open spec fn same_kind(a: Lexeme, b: Lexeme) -> bool {
    (a is Figure && b is Figure) || (a is Variable && b is Variable) || (a is Reserved
        && b is Reserved)
}

impl TKind {
    /// The name of the kind.
    pub open spec fn spec_name(self) -> Seq<u8> {
        match self {
            TKind::I64 => "I64".spec_bytes(),
            TKind::Variable => "Variable".spec_bytes(),
            TKind::Label => "Label".spec_bytes(),
            TKind::Mem => "Mem".spec_bytes(),
            TKind::Reg => "Reg".spec_bytes(),
        }
    }

    /// The kind as it is shown: its name.
    pub fn show(&self) -> (out: Vec<u8>)
        ensures
            out@ == self.spec_name(),
    {
        let name = match self {
            TKind::I64 => "I64",
            TKind::Variable => "Variable",
            TKind::Label => "Label",
            TKind::Mem => "Mem",
            TKind::Reg => "Reg",
        };
        let mut out: Vec<u8> = Vec::new();
        put_bytes(&mut out, name.as_bytes());
        out
    }
}

impl Node {
    /// The node as text: what it is, and the text it was read from.
    pub open spec fn shown(self) -> Seq<u8> {
        match self {
            Node::Property(s) => "Property: ".spec_bytes() + s,
            Node::Value(kind, s) => "Value: ".spec_bytes() + s + "(".spec_bytes()
                + kind.spec_name() + ")".spec_bytes(),
            Node::SectionName(s) => "Section: ".spec_bytes() + s,
            Node::Instruction(s) => "Instruction: ".spec_bytes() + s,
            Node::DefineLabel(s) => "DefineLabel: ".spec_bytes() + s,
        }
    }
}

impl Mark {
    /// The label as text: its name and its position.
    pub open spec fn shown(self) -> Seq<u8> {
        "Label: ".spec_bytes() + self.name + ", pos: ".spec_bytes() + decimal_digits(self.pos)
    }
}

impl Export {
    /// The announced name as text: resolved with its label, or open.
    pub open spec fn shown(self) -> Seq<u8> {
        match self {
            Export::Valid(mark) => "Valid Global: ".spec_bytes() + mark.shown(),
            Export::Invalid(name) => "Invalid Global: ".spec_bytes() + name,
        }
    }
}

impl<'a> TType<'a> {
    /// The node as it is shown.
    pub fn show(&self) -> (out: Vec<u8>)
        ensures
            out@ == self@.shown(),
    {
        let mut out: Vec<u8> = Vec::new();
        match self {
            TType::Property(s) => {
                put_bytes(&mut out, "Property: ".as_bytes());
                put_bytes(&mut out, s);
            },
            TType::Value((kind, s)) => {
                put_bytes(&mut out, "Value: ".as_bytes());
                put_bytes(&mut out, s);
                put_bytes(&mut out, "(".as_bytes());
                let name = kind.show();
                put_bytes(&mut out, name.as_slice());
                put_bytes(&mut out, ")".as_bytes());
            },
            TType::SectionName(s) => {
                put_bytes(&mut out, "Section: ".as_bytes());
                put_bytes(&mut out, s);
            },
            TType::Instruction(s) => {
                put_bytes(&mut out, "Instruction: ".as_bytes());
                put_bytes(&mut out, s);
            },
            TType::DefineLabel(s) => {
                put_bytes(&mut out, "DefineLabel: ".as_bytes());
                put_bytes(&mut out, s);
            },
        }
        out
    }
}

impl<'a> Label<'a> {
    /// Appends the label as it is shown.
    fn put(&self, out: &mut Vec<u8>)
        ensures
            final(out)@ == old(out)@ + self@.shown(),
    {
        put_bytes(out, "Label: ".as_bytes());
        put_bytes(out, self.m_name);
        put_bytes(out, ", pos: ".as_bytes());
        put_decimal(out, self.m_pos);
    }

    /// The label as it is shown.
    pub fn show(&self) -> (out: Vec<u8>)
        ensures
            out@ == self@.shown(),
    {
        let mut out: Vec<u8> = Vec::new();
        self.put(&mut out);
        out
    }
}

impl<'a> Global<'a> {
    /// The announced name as it is shown.
    pub fn show(&self) -> (out: Vec<u8>)
        ensures
            out@ == self@.shown(),
    {
        let mut out: Vec<u8> = Vec::new();
        match self {
            Global::Valid(label) => {
                put_bytes(&mut out, "Valid Global: ".as_bytes());
                label.put(&mut out);
            },
            Global::Invalid(name) => {
                put_bytes(&mut out, "Invalid Global: ".as_bytes());
                put_bytes(&mut out, name);
            },
        }
        out
    }
}

/// The reporter of a parser's text.
pub struct ParserError<'a> {
    m_str: &'a [u8],
}

impl<'a> ParserError<'a> {
    /// The text that is reported on.
    pub closed spec fn source(&self) -> Seq<u8> {
        self.m_str@
    }

    /// A reporter for the text `_str`.
    pub fn new(_str: &'a str) -> (r: Self)
        ensures
            r.source() == _str.spec_bytes(),
    {
        Self { m_str: _str.as_bytes() }
    }

    /// The diagnostic for a fault at the byte offset `first`.
    pub fn panic_from_pos<'b>(&self, first: usize, message: &'b str) -> (d: Diagnostic<'b>)
        where 'a: 'b
        ensures
            d.shows(place_of(self.source(), first as int), message),
    {
        locate(self.m_str, first, message)
    }

    /// The diagnostic for a fault at the word that starts at the byte offset
    /// `word`.
    pub fn panic_from_word<'b>(&self, word: usize, message: &'b str) -> (d: Diagnostic<'b>)
        where 'a: 'b
        ensures
            d.shows(place_of(self.source(), word as int), message),
    {
        self.panic_from_pos(word, message)
    }
}

} // verus!
