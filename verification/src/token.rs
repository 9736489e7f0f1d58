//! Operator tokens, their mutation rules and their spellings; the tokens
//! found in a source file (`MetaToken`) and the mutants built from them.
use crate::text::{copy_bytes, str_eq};
use std::path::PathBuf;
use vstd::prelude::*;

verus! {

/// The operators that Hunter knows how to mutate.
#[derive(Debug, Clone, Copy, PartialEq, Eq, Structural)]
pub enum Token {
    /// <
    Less,
    /// <=
    LessEqual,
    /// >
    Greater,
    /// >=
    GreaterEqual,
    /// ==
    Equal,
    /// !=
    NotEqual,
    /// +
    Plus,
    /// -
    Minus,
    /// *
    Star,
    /// /
    Slash,
    /// %
    Percent,
    /// &
    Ampersand,
    /// ^
    Caret,
    /// <<
    ShiftLeft,
    /// >>
    ShiftRight,
    /// |
    Pipe,
    /// ++
    Increment,
    /// --
    Decrement,
    /// +=
    PlusEquals,
    /// -=
    MinusEquals,
    /// *=
    StarEquals,
    /// /=
    SlashEquals,
    /// %=
    PercentEquals,
    /// &=
    AmpersandEquals,
    /// |=
    PipeEquals,
    /// ^=
    CaretEquals,
    /// <<=
    ShiftLeftEquals,
    /// >>=
    ShiftRightEquals,
}

/// The mutation rule: the operator that replaces `t` in a mutant.
pub open spec fn mutation_of(t: Token) -> Token {
    match t {
        Token::Equal => Token::NotEqual,
        Token::NotEqual => Token::Equal,
        Token::Greater => Token::LessEqual,
        Token::GreaterEqual => Token::Less,
        Token::Less => Token::GreaterEqual,
        Token::LessEqual => Token::Greater,
        Token::Ampersand => Token::Pipe,
        Token::Pipe => Token::Ampersand,
        Token::Caret => Token::Ampersand,
        Token::ShiftLeft => Token::ShiftRight,
        Token::ShiftRight => Token::ShiftLeft,
        Token::Plus => Token::Minus,
        Token::Minus => Token::Plus,
        Token::Star => Token::Slash,
        Token::Slash => Token::Star,
        Token::Percent => Token::Star,
        Token::Increment => Token::Decrement,
        Token::Decrement => Token::Increment,
        Token::PlusEquals => Token::MinusEquals,
        Token::MinusEquals => Token::PlusEquals,
        Token::StarEquals => Token::SlashEquals,
        Token::SlashEquals => Token::StarEquals,
        Token::PercentEquals => Token::StarEquals,
        Token::AmpersandEquals => Token::PipeEquals,
        Token::PipeEquals => Token::AmpersandEquals,
        Token::CaretEquals => Token::AmpersandEquals,
        Token::ShiftLeftEquals => Token::ShiftRightEquals,
        Token::ShiftRightEquals => Token::ShiftLeftEquals,
    }
}

/// The source spelling of an operator, as ASCII bytes.
pub open spec fn spelling(t: Token) -> Seq<u8> {
    match t {
        Token::Equal => seq![61u8, 61u8],
        Token::NotEqual => seq![33u8, 61u8],
        Token::Less => seq![60u8],
        Token::LessEqual => seq![60u8, 61u8],
        Token::Greater => seq![62u8],
        Token::GreaterEqual => seq![62u8, 61u8],
        Token::Ampersand => seq![38u8],
        Token::Pipe => seq![124u8],
        Token::Caret => seq![94u8],
        Token::ShiftLeft => seq![60u8, 60u8],
        Token::ShiftRight => seq![62u8, 62u8],
        Token::Plus => seq![43u8],
        Token::Minus => seq![45u8],
        Token::Star => seq![42u8],
        Token::Slash => seq![47u8],
        Token::Percent => seq![37u8],
        Token::Increment => seq![43u8, 43u8],
        Token::Decrement => seq![45u8, 45u8],
        Token::PlusEquals => seq![43u8, 61u8],
        Token::MinusEquals => seq![45u8, 61u8],
        Token::StarEquals => seq![42u8, 61u8],
        Token::SlashEquals => seq![47u8, 61u8],
        Token::PercentEquals => seq![37u8, 61u8],
        Token::AmpersandEquals => seq![38u8, 61u8],
        Token::PipeEquals => seq![124u8, 61u8],
        Token::CaretEquals => seq![94u8, 61u8],
        Token::ShiftLeftEquals => seq![60u8, 60u8, 61u8],
        Token::ShiftRightEquals => seq![62u8, 62u8, 61u8],
    }
}

/// The pattern string of an operator in `token_patterns`.
pub open spec fn pattern_of(t: Token) -> Seq<char> {
    match t {
        Token::Equal => seq!['=', '='],
        Token::NotEqual => seq!['!', '='],
        Token::Less => seq!['<'],
        Token::LessEqual => seq!['<', '='],
        Token::Greater => seq!['>'],
        Token::GreaterEqual => seq!['>', '='],
        Token::Ampersand => seq!['&'],
        Token::Pipe => seq!['|'],
        Token::Caret => seq!['^'],
        Token::ShiftLeft => seq!['<', '<'],
        Token::ShiftRight => seq!['>', '>'],
        Token::Plus => seq!['\\', '+'],
        Token::Minus => seq!['-'],
        Token::Star => seq!['\\', '*'],
        Token::Slash => seq!['/'],
        Token::Percent => seq!['%'],
        Token::Increment => seq!['\\', '+', '+'],
        Token::Decrement => seq!['-', '-'],
        Token::PlusEquals => seq!['\\', '+', '='],
        Token::MinusEquals => seq!['-', '='],
        Token::StarEquals => seq!['\\', '*', '='],
        Token::SlashEquals => seq!['/', '='],
        Token::PercentEquals => seq!['%', '='],
        Token::AmpersandEquals => seq!['&', '='],
        Token::PipeEquals => seq!['|', '='],
        Token::CaretEquals => seq!['^', '='],
        Token::ShiftLeftEquals => seq!['<', '<', '='],
        Token::ShiftRightEquals => seq!['>', '>', '='],
    }
}

/// The pattern strings of the operators, in the order `token_patterns` lists them.
pub open spec fn pattern_strings() -> Seq<Seq<char>> {
    seq![
        pattern_of(Token::Equal),
        pattern_of(Token::NotEqual),
        pattern_of(Token::Less),
        pattern_of(Token::LessEqual),
        pattern_of(Token::Greater),
        pattern_of(Token::GreaterEqual),
        pattern_of(Token::Ampersand),
        pattern_of(Token::Pipe),
        pattern_of(Token::Caret),
        pattern_of(Token::ShiftLeft),
        pattern_of(Token::ShiftRight),
        pattern_of(Token::Plus),
        pattern_of(Token::Minus),
        pattern_of(Token::Star),
        pattern_of(Token::Slash),
        pattern_of(Token::Percent),
        pattern_of(Token::Increment),
        pattern_of(Token::Decrement),
        pattern_of(Token::PlusEquals),
        pattern_of(Token::MinusEquals),
        pattern_of(Token::StarEquals),
        pattern_of(Token::SlashEquals),
        pattern_of(Token::PercentEquals),
        pattern_of(Token::AmpersandEquals),
        pattern_of(Token::PipeEquals),
        pattern_of(Token::CaretEquals),
        pattern_of(Token::ShiftLeftEquals),
        pattern_of(Token::ShiftRightEquals),
    ]
}

/// The operator that a pattern string names, if it names one.
pub open spec fn token_of_pattern(raw: Seq<char>) -> Option<Token> {
    if raw == pattern_of(Token::Equal) {
        Some(Token::Equal)
    } else if raw == pattern_of(Token::NotEqual) {
        Some(Token::NotEqual)
    } else if raw == pattern_of(Token::Less) {
        Some(Token::Less)
    } else if raw == pattern_of(Token::LessEqual) {
        Some(Token::LessEqual)
    } else if raw == pattern_of(Token::Greater) {
        Some(Token::Greater)
    } else if raw == pattern_of(Token::GreaterEqual) {
        Some(Token::GreaterEqual)
    } else if raw == pattern_of(Token::Ampersand) {
        Some(Token::Ampersand)
    } else if raw == pattern_of(Token::Pipe) {
        Some(Token::Pipe)
    } else if raw == pattern_of(Token::Caret) {
        Some(Token::Caret)
    } else if raw == pattern_of(Token::ShiftLeft) {
        Some(Token::ShiftLeft)
    } else if raw == pattern_of(Token::ShiftRight) {
        Some(Token::ShiftRight)
    } else if raw == pattern_of(Token::Plus) {
        Some(Token::Plus)
    } else if raw == pattern_of(Token::Minus) {
        Some(Token::Minus)
    } else if raw == pattern_of(Token::Star) {
        Some(Token::Star)
    } else if raw == pattern_of(Token::Slash) {
        Some(Token::Slash)
    } else if raw == pattern_of(Token::Percent) {
        Some(Token::Percent)
    } else if raw == pattern_of(Token::Increment) {
        Some(Token::Increment)
    } else if raw == pattern_of(Token::Decrement) {
        Some(Token::Decrement)
    } else if raw == pattern_of(Token::PlusEquals) {
        Some(Token::PlusEquals)
    } else if raw == pattern_of(Token::MinusEquals) {
        Some(Token::MinusEquals)
    } else if raw == pattern_of(Token::StarEquals) {
        Some(Token::StarEquals)
    } else if raw == pattern_of(Token::SlashEquals) {
        Some(Token::SlashEquals)
    } else if raw == pattern_of(Token::PercentEquals) {
        Some(Token::PercentEquals)
    } else if raw == pattern_of(Token::AmpersandEquals) {
        Some(Token::AmpersandEquals)
    } else if raw == pattern_of(Token::PipeEquals) {
        Some(Token::PipeEquals)
    } else if raw == pattern_of(Token::CaretEquals) {
        Some(Token::CaretEquals)
    } else if raw == pattern_of(Token::ShiftLeftEquals) {
        Some(Token::ShiftLeftEquals)
    } else if raw == pattern_of(Token::ShiftRightEquals) {
        Some(Token::ShiftRightEquals)
    } else {
        None
    }
}

/// The pattern strings of all operators, one per operator.
pub fn token_patterns() -> (r: Vec<&'static str>)
    ensures
        r@.map_values(|s: &str| s@) == pattern_strings(),
{
    let r = vec![
        "==", "!=", "<", "<=", ">", ">=", "&", "|", "^", "<<", ">>", r"\+", "-", r"\*", "/", "%",
        r"\++", "--", r"\+=", "-=", r"\*=", "/=", "%=", "&=", "|=", "^=", "<<=", ">>=",
    ];
    proof {
        lemma_pattern_literals();
    }
    assert(r@.map_values(|s: &str| s@) =~= pattern_strings());
    r
}

/// The pattern literals spell out `pattern_of`.
proof fn lemma_pattern_literals()
    ensures
        r"=="@ == pattern_of(Token::Equal),
        r"!="@ == pattern_of(Token::NotEqual),
        r"<"@ == pattern_of(Token::Less),
        r"<="@ == pattern_of(Token::LessEqual),
        r">"@ == pattern_of(Token::Greater),
        r">="@ == pattern_of(Token::GreaterEqual),
        r"&"@ == pattern_of(Token::Ampersand),
        r"|"@ == pattern_of(Token::Pipe),
        r"^"@ == pattern_of(Token::Caret),
        r"<<"@ == pattern_of(Token::ShiftLeft),
        r">>"@ == pattern_of(Token::ShiftRight),
        r"\+"@ == pattern_of(Token::Plus),
        r"-"@ == pattern_of(Token::Minus),
        r"\*"@ == pattern_of(Token::Star),
        r"/"@ == pattern_of(Token::Slash),
        r"%"@ == pattern_of(Token::Percent),
        r"\++"@ == pattern_of(Token::Increment),
        r"--"@ == pattern_of(Token::Decrement),
        r"\+="@ == pattern_of(Token::PlusEquals),
        r"-="@ == pattern_of(Token::MinusEquals),
        r"\*="@ == pattern_of(Token::StarEquals),
        r"/="@ == pattern_of(Token::SlashEquals),
        r"%="@ == pattern_of(Token::PercentEquals),
        r"&="@ == pattern_of(Token::AmpersandEquals),
        r"|="@ == pattern_of(Token::PipeEquals),
        r"^="@ == pattern_of(Token::CaretEquals),
        r"<<="@ == pattern_of(Token::ShiftLeftEquals),
        r">>="@ == pattern_of(Token::ShiftRightEquals),
{
    reveal_strlit(r"==");
    reveal_strlit(r"!=");
    reveal_strlit(r"<");
    reveal_strlit(r"<=");
    reveal_strlit(r">");
    reveal_strlit(r">=");
    reveal_strlit(r"&");
    reveal_strlit(r"|");
    reveal_strlit(r"^");
    reveal_strlit(r"<<");
    reveal_strlit(r">>");
    reveal_strlit(r"\+");
    reveal_strlit(r"-");
    reveal_strlit(r"\*");
    reveal_strlit(r"/");
    reveal_strlit(r"%");
    reveal_strlit(r"\++");
    reveal_strlit(r"--");
    reveal_strlit(r"\+=");
    reveal_strlit(r"-=");
    reveal_strlit(r"\*=");
    reveal_strlit(r"/=");
    reveal_strlit(r"%=");
    reveal_strlit(r"&=");
    reveal_strlit(r"|=");
    reveal_strlit(r"^=");
    reveal_strlit(r"<<=");
    reveal_strlit(r">>=");
    assert(r"=="@ =~= pattern_of(Token::Equal));
    assert(r"!="@ =~= pattern_of(Token::NotEqual));
    assert(r"<"@ =~= pattern_of(Token::Less));
    assert(r"<="@ =~= pattern_of(Token::LessEqual));
    assert(r">"@ =~= pattern_of(Token::Greater));
    assert(r">="@ =~= pattern_of(Token::GreaterEqual));
    assert(r"&"@ =~= pattern_of(Token::Ampersand));
    assert(r"|"@ =~= pattern_of(Token::Pipe));
    assert(r"^"@ =~= pattern_of(Token::Caret));
    assert(r"<<"@ =~= pattern_of(Token::ShiftLeft));
    assert(r">>"@ =~= pattern_of(Token::ShiftRight));
    assert(r"\+"@ =~= pattern_of(Token::Plus));
    assert(r"-"@ =~= pattern_of(Token::Minus));
    assert(r"\*"@ =~= pattern_of(Token::Star));
    assert(r"/"@ =~= pattern_of(Token::Slash));
    assert(r"%"@ =~= pattern_of(Token::Percent));
    assert(r"\++"@ =~= pattern_of(Token::Increment));
    assert(r"--"@ =~= pattern_of(Token::Decrement));
    assert(r"\+="@ =~= pattern_of(Token::PlusEquals));
    assert(r"-="@ =~= pattern_of(Token::MinusEquals));
    assert(r"\*="@ =~= pattern_of(Token::StarEquals));
    assert(r"/="@ =~= pattern_of(Token::SlashEquals));
    assert(r"%="@ =~= pattern_of(Token::PercentEquals));
    assert(r"&="@ =~= pattern_of(Token::AmpersandEquals));
    assert(r"|="@ =~= pattern_of(Token::PipeEquals));
    assert(r"^="@ =~= pattern_of(Token::CaretEquals));
    assert(r"<<="@ =~= pattern_of(Token::ShiftLeftEquals));
    assert(r">>="@ =~= pattern_of(Token::ShiftRightEquals));
}

} // verus!

verus! {

/// The operator named by a pattern string from `token_patterns`, or `None`
/// for any other string.
pub fn raw_string_as_token(raw: &str) -> (r: Option<Token>)
    ensures
        r == token_of_pattern(raw@),
{
    proof {
        lemma_pattern_literals();
    }
    if str_eq(raw, r"==") {
        Some(Token::Equal)
    } else if str_eq(raw, r"!=") {
        Some(Token::NotEqual)
    } else if str_eq(raw, r"<") {
        Some(Token::Less)
    } else if str_eq(raw, r"<=") {
        Some(Token::LessEqual)
    } else if str_eq(raw, r">") {
        Some(Token::Greater)
    } else if str_eq(raw, r">=") {
        Some(Token::GreaterEqual)
    } else if str_eq(raw, r"&") {
        Some(Token::Ampersand)
    } else if str_eq(raw, r"|") {
        Some(Token::Pipe)
    } else if str_eq(raw, r"^") {
        Some(Token::Caret)
    } else if str_eq(raw, r"<<") {
        Some(Token::ShiftLeft)
    } else if str_eq(raw, r">>") {
        Some(Token::ShiftRight)
    } else if str_eq(raw, r"\+") {
        Some(Token::Plus)
    } else if str_eq(raw, r"-") {
        Some(Token::Minus)
    } else if str_eq(raw, r"\*") {
        Some(Token::Star)
    } else if str_eq(raw, r"/") {
        Some(Token::Slash)
    } else if str_eq(raw, r"%") {
        Some(Token::Percent)
    } else if str_eq(raw, r"\++") {
        Some(Token::Increment)
    } else if str_eq(raw, r"--") {
        Some(Token::Decrement)
    } else if str_eq(raw, r"\+=") {
        Some(Token::PlusEquals)
    } else if str_eq(raw, r"-=") {
        Some(Token::MinusEquals)
    } else if str_eq(raw, r"\*=") {
        Some(Token::StarEquals)
    } else if str_eq(raw, r"/=") {
        Some(Token::SlashEquals)
    } else if str_eq(raw, r"%=") {
        Some(Token::PercentEquals)
    } else if str_eq(raw, r"&=") {
        Some(Token::AmpersandEquals)
    } else if str_eq(raw, r"|=") {
        Some(Token::PipeEquals)
    } else if str_eq(raw, r"^=") {
        Some(Token::CaretEquals)
    } else if str_eq(raw, r"<<=") {
        Some(Token::ShiftLeftEquals)
    } else if str_eq(raw, r">>=") {
        Some(Token::ShiftRightEquals)
    } else {
        None
    }
}

/// The mutation of an operator; every operator has one.
pub fn token_mutation(token: Token) -> (r: Option<Token>)
    ensures
        r == Some(mutation_of(token)),
{
    match token {
        Token::Equal => Some(Token::NotEqual),
        Token::NotEqual => Some(Token::Equal),
        Token::Greater => Some(Token::LessEqual),
        Token::GreaterEqual => Some(Token::Less),
        Token::Less => Some(Token::GreaterEqual),
        Token::LessEqual => Some(Token::Greater),
        Token::Ampersand => Some(Token::Pipe),
        Token::Pipe => Some(Token::Ampersand),
        Token::Caret => Some(Token::Ampersand),
        Token::ShiftLeft => Some(Token::ShiftRight),
        Token::ShiftRight => Some(Token::ShiftLeft),
        Token::Plus => Some(Token::Minus),
        Token::Minus => Some(Token::Plus),
        Token::Star => Some(Token::Slash),
        Token::Slash => Some(Token::Star),
        Token::Percent => Some(Token::Star),
        Token::Increment => Some(Token::Decrement),
        Token::Decrement => Some(Token::Increment),
        Token::PlusEquals => Some(Token::MinusEquals),
        Token::MinusEquals => Some(Token::PlusEquals),
        Token::StarEquals => Some(Token::SlashEquals),
        Token::SlashEquals => Some(Token::StarEquals),
        Token::PercentEquals => Some(Token::StarEquals),
        Token::AmpersandEquals => Some(Token::PipeEquals),
        Token::PipeEquals => Some(Token::AmpersandEquals),
        Token::CaretEquals => Some(Token::AmpersandEquals),
        Token::ShiftLeftEquals => Some(Token::ShiftRightEquals),
        Token::ShiftRightEquals => Some(Token::ShiftLeftEquals),
    }
}

/// The source spelling of an operator; every operator has one.
pub fn token_as_bytes<'a>(token: &Token) -> (r: Option<&'a [u8]>)
    ensures
        r matches Some(b) && b@ == spelling(*token),
{
    match token {
        Token::Equal => Some(&[61u8, 61u8]),
        Token::NotEqual => Some(&[33u8, 61u8]),
        Token::Greater => Some(&[62u8]),
        Token::GreaterEqual => Some(&[62u8, 61u8]),
        Token::Less => Some(&[60u8]),
        Token::LessEqual => Some(&[60u8, 61u8]),
        Token::Ampersand => Some(&[38u8]),
        Token::Pipe => Some(&[124u8]),
        Token::Caret => Some(&[94u8]),
        Token::ShiftLeft => Some(&[60u8, 60u8]),
        Token::ShiftRight => Some(&[62u8, 62u8]),
        Token::Plus => Some(&[43u8]),
        Token::Minus => Some(&[45u8]),
        Token::Star => Some(&[42u8]),
        Token::Slash => Some(&[47u8]),
        Token::Percent => Some(&[37u8]),
        Token::Increment => Some(&[43u8, 43u8]),
        Token::Decrement => Some(&[45u8, 45u8]),
        Token::PlusEquals => Some(&[43u8, 61u8]),
        Token::MinusEquals => Some(&[45u8, 61u8]),
        Token::StarEquals => Some(&[42u8, 61u8]),
        Token::SlashEquals => Some(&[47u8, 61u8]),
        Token::PercentEquals => Some(&[37u8, 61u8]),
        Token::AmpersandEquals => Some(&[38u8, 61u8]),
        Token::PipeEquals => Some(&[124u8, 61u8]),
        Token::CaretEquals => Some(&[94u8, 61u8]),
        Token::ShiftLeftEquals => Some(&[60u8, 60u8, 61u8]),
        Token::ShiftRightEquals => Some(&[62u8, 62u8, 61u8]),
    }
}

} // verus!

verus! {

/// What a `MetaToken` holds.
pub struct MetaTokenView {
    pub token: Token,
    pub span: (u32, u32),
    pub src: PathBuf,
    pub id: u32,
}

/// An operator found in a source file: which operator, where (a byte span),
/// in which file, and its number in the scan.
#[derive(Debug, PartialEq)]
pub struct MetaToken {
    token: Token,
    span: (u32, u32),
    src: Box<PathBuf>,
    id: u32,
}

impl View for MetaToken {
    type V = MetaTokenView;

    closed spec fn view(&self) -> MetaTokenView {
        MetaTokenView { token: self.token, span: self.span, src: *self.src, id: self.id }
    }
}

impl Clone for MetaToken {
    fn clone(&self) -> (r: Self)
        ensures
            r@ == self@,
    {
        MetaToken {
            token: self.token,
            span: self.span,
            src: Box::new((*self.src).clone()),
            id: self.id,
        }
    }
}

impl MetaToken {
    pub fn new(token: Token, span: (u32, u32), src: Box<PathBuf>, id: u32) -> (r: Self)
        ensures
            r@ == (MetaTokenView { token, span, src: *src, id }),
    {
        Self { token, span, src, id }
    }

    pub fn token(&self) -> (r: &Token)
        ensures
            *r == self@.token,
    {
        &self.token
    }

    pub fn span(&self) -> (r: (u32, u32))
        ensures
            r == self@.span,
    {
        self.span
    }

    pub fn src(&self) -> (r: &PathBuf)
        ensures
            *r == self@.src,
    {
        &self.src
    }

    pub fn id(&self) -> (r: u32)
        ensures
            r == self@.id,
    {
        self.id
    }

    pub fn set_span(&mut self, new_span: (u32, u32))
        ensures
            final(self)@ == (MetaTokenView { span: new_span, ..old(self)@ }),
    {
        self.span = new_span;
    }

    pub fn span_start(&self) -> (r: u32)
        ensures
            r == self@.span.0,
    {
        self.span.0
    }

    pub fn span_end(&self) -> (r: u32)
        ensures
            r == self@.span.1,
    {
        self.span.1
    }
}

/// The state of a mutant in a campaign.
#[derive(Debug, Clone, Copy, PartialEq, Eq, Structural)]
pub enum MutationStatus {
    Pending,
    Survived,
    Killed,
}

/// What a `Mutant` holds.
pub struct MutantView {
    pub id: u32,
    pub mutation: Token,
    pub bytes: Seq<u8>,
    pub span: (u32, u32),
    pub src_path: PathBuf,
    pub status: MutationStatus,
}

/// A mutation to apply to a source file: the replacing operator and its
/// bytes, the span it replaces, the file, and how the campaign judged it.
#[derive(Debug)]
pub struct Mutant {
    id: u32,
    mutation: Token,
    bytes: Vec<u8>,
    span: (u32, u32),
    src_path: Box<PathBuf>,
    status: MutationStatus,
}

impl View for Mutant {
    type V = MutantView;

    closed spec fn view(&self) -> MutantView {
        MutantView {
            id: self.id,
            mutation: self.mutation,
            bytes: self.bytes@,
            span: self.span,
            src_path: *self.src_path,
            status: self.status,
        }
    }
}

impl Clone for Mutant {
    fn clone(&self) -> (r: Self)
        ensures
            r@ == self@,
    {
        Mutant {
            id: self.id,
            mutation: self.mutation,
            bytes: copy_bytes(self.bytes.as_slice()),
            span: self.span,
            src_path: Box::new((*self.src_path).clone()),
            status: self.status,
        }
    }
}

impl Mutant {
    /// Assembles a mutant from its parts.
    pub fn new(
        id: u32,
        mutation: Token,
        bytes: Vec<u8>,
        span: (u32, u32),
        src_path: Box<PathBuf>,
        status: MutationStatus,
    ) -> (r: Self)
        ensures
            r@ == (MutantView { id, mutation, bytes: bytes@, span, src_path: *src_path, status }),
    {
        Mutant { id, mutation, bytes, span, src_path, status }
    }

    pub fn id(&self) -> (r: u32)
        ensures
            r == self@.id,
    {
        self.id
    }

    pub fn token(&self) -> (r: Token)
        ensures
            r == self@.mutation,
    {
        self.mutation
    }

    pub fn bytes(&self) -> (r: Vec<u8>)
        ensures
            r@ == self@.bytes,
    {
        self.bytes.clone()
    }

    pub fn span(&self) -> (r: (u32, u32))
        ensures
            r == self@.span,
    {
        self.span
    }

    pub fn path(&self) -> (r: &PathBuf)
        ensures
            *r == self@.src_path,
    {
        &self.src_path
    }

    pub fn span_start(&self) -> (r: u32)
        ensures
            r == self@.span.0,
    {
        self.span.0
    }

    pub fn span_end(&self) -> (r: u32)
        ensures
            r == self@.span.1,
    {
        self.span.1
    }

    pub fn status(&self) -> (r: MutationStatus)
        ensures
            r == self@.status,
    {
        self.status
    }

    pub fn set_status(&mut self, new_status: MutationStatus)
        ensures
            final(self)@ == (MutantView { status: new_status, ..old(self)@ }),
    {
        self.status = new_status;
    }
}

/// The mutant for an operator found at `span` in `src_path`: it replaces the
/// operator by its mutation, spelled out in `bytes`, and starts out pending.
pub fn mutant_builder(id: u32, token: Token, span: (u32, u32), src_path: PathBuf) -> (r: Option<
    Mutant,
>)
    ensures
        r matches Some(m) && m@ == (MutantView {
            id,
            mutation: mutation_of(token),
            bytes: spelling(mutation_of(token)),
            span,
            src_path,
            status: MutationStatus::Pending,
        }),
{
    let mutation = match token_mutation(token) {
        Some(m) => m,
        None => token,
    };
    let bytes = match token_as_bytes(&mutation) {
        Some(b) => copy_bytes(b),
        None => Vec::new(),
    };
    Some(Mutant {
        id,
        mutation,
        bytes,
        span,
        src_path: Box::new(src_path),
        status: MutationStatus::Pending,
    })
}

} // verus!

verus! {

/// No mutation leaves an operator unchanged.
pub proof fn lemma_mutation_changes_token(t: Token)
    ensures
        mutation_of(t) != t,
{
}

/// Mutating twice gives the operator back, except for `^`, `%`, `^=` and
/// `%=`, whose mutations (`&`, `*`, `&=`, `*=`) mutate to other operators.
pub proof fn lemma_mutation_involutive(t: Token)
    requires
        t != Token::Caret,
        t != Token::Percent,
        t != Token::CaretEquals,
        t != Token::PercentEquals,
    ensures
        mutation_of(mutation_of(t)) == t,
{
}

/// Every spelling is one to three bytes long.
pub proof fn lemma_spelling_length(t: Token)
    ensures
        1 <= spelling(t).len() <= 3,
{
}

/// The operator whose spelling is `s`, if any.
pub open spec fn token_of_spelling(s: Seq<u8>) -> Option<Token> {
    if s == spelling(Token::Equal) { Some(Token::Equal) }
    else if s == spelling(Token::NotEqual) { Some(Token::NotEqual) }
    else if s == spelling(Token::Less) { Some(Token::Less) }
    else if s == spelling(Token::LessEqual) { Some(Token::LessEqual) }
    else if s == spelling(Token::Greater) { Some(Token::Greater) }
    else if s == spelling(Token::GreaterEqual) { Some(Token::GreaterEqual) }
    else if s == spelling(Token::Ampersand) { Some(Token::Ampersand) }
    else if s == spelling(Token::Pipe) { Some(Token::Pipe) }
    else if s == spelling(Token::Caret) { Some(Token::Caret) }
    else if s == spelling(Token::ShiftLeft) { Some(Token::ShiftLeft) }
    else if s == spelling(Token::ShiftRight) { Some(Token::ShiftRight) }
    else if s == spelling(Token::Plus) { Some(Token::Plus) }
    else if s == spelling(Token::Minus) { Some(Token::Minus) }
    else if s == spelling(Token::Star) { Some(Token::Star) }
    else if s == spelling(Token::Slash) { Some(Token::Slash) }
    else if s == spelling(Token::Percent) { Some(Token::Percent) }
    else if s == spelling(Token::Increment) { Some(Token::Increment) }
    else if s == spelling(Token::Decrement) { Some(Token::Decrement) }
    else if s == spelling(Token::PlusEquals) { Some(Token::PlusEquals) }
    else if s == spelling(Token::MinusEquals) { Some(Token::MinusEquals) }
    else if s == spelling(Token::StarEquals) { Some(Token::StarEquals) }
    else if s == spelling(Token::SlashEquals) { Some(Token::SlashEquals) }
    else if s == spelling(Token::PercentEquals) { Some(Token::PercentEquals) }
    else if s == spelling(Token::AmpersandEquals) { Some(Token::AmpersandEquals) }
    else if s == spelling(Token::PipeEquals) { Some(Token::PipeEquals) }
    else if s == spelling(Token::CaretEquals) { Some(Token::CaretEquals) }
    else if s == spelling(Token::ShiftLeftEquals) { Some(Token::ShiftLeftEquals) }
    else if s == spelling(Token::ShiftRightEquals) { Some(Token::ShiftRightEquals) }
    else { None }
}

/// A spelling names exactly one operator: `token_as_bytes` is injective, so
/// the bytes of a mutant tell which operator it writes.
pub proof fn lemma_spelling_identifies_token(t: Token)
    ensures
        token_of_spelling(spelling(t)) == Some(t),
{
    let s = spelling(t);
    assert(s.len() >= 1);
    assert(forall|u: Token| #[trigger] spelling(u) == s ==> u == t) by {
        assert forall|u: Token| #[trigger] spelling(u) == s implies u == t by {
            assert(spelling(u).len() == s.len());
            assert(spelling(u)[0] == s[0]);
            if s.len() > 1 {
                assert(spelling(u)[1] == s[1]);
            }
            if s.len() > 2 {
                assert(spelling(u)[2] == s[2]);
            }
        }
    }
}

/// The patterns of `token_patterns` name every operator: each operator's
/// pattern is listed, it names that operator, and no two operators share one.
pub proof fn lemma_patterns_name_each_token(t: Token)
    ensures
        pattern_strings().contains(pattern_of(t)),
        token_of_pattern(pattern_of(t)) == Some(t),
        forall|u: Token| #[trigger] pattern_of(u) == pattern_of(t) ==> u == t,
{
    let p = pattern_strings();
    let s = pattern_of(t);
    let i: int = match t {
        Token::Equal => 0,
        Token::NotEqual => 1,
        Token::Less => 2,
        Token::LessEqual => 3,
        Token::Greater => 4,
        Token::GreaterEqual => 5,
        Token::Ampersand => 6,
        Token::Pipe => 7,
        Token::Caret => 8,
        Token::ShiftLeft => 9,
        Token::ShiftRight => 10,
        Token::Plus => 11,
        Token::Minus => 12,
        Token::Star => 13,
        Token::Slash => 14,
        Token::Percent => 15,
        Token::Increment => 16,
        Token::Decrement => 17,
        Token::PlusEquals => 18,
        Token::MinusEquals => 19,
        Token::StarEquals => 20,
        Token::SlashEquals => 21,
        Token::PercentEquals => 22,
        Token::AmpersandEquals => 23,
        Token::PipeEquals => 24,
        Token::CaretEquals => 25,
        Token::ShiftLeftEquals => 26,
        Token::ShiftRightEquals => 27,
    };
    assert(p[i] == pattern_of(t));
    assert forall|u: Token| #[trigger] pattern_of(u) == s implies u == t by {
        assert(pattern_of(u).len() == s.len());
        assert(pattern_of(u)[0] == s[0]);
        if s.len() > 1 {
            assert(pattern_of(u)[1] == s[1]);
        }
        if s.len() > 2 {
            assert(pattern_of(u)[2] == s[2]);
        }
    }
}

} // verus!
