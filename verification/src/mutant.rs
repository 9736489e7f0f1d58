//! The first form of a mutant: it borrows its source path and covers the
//! comparison, bitwise, shift and arithmetic operators only.
use crate::text::copy_bytes;
use crate::token::{mutation_of, spelling, token_as_bytes, token_mutation, Token};
use std::path::PathBuf;
use vstd::prelude::*;

verus! {

/// What a `Mutant` holds.
pub struct MutantView {
    pub id: u32,
    pub token: Token,
    pub bytes: Seq<u8>,
    pub span: (u32, u32),
    pub src_path: PathBuf,
}

/// A mutation of an operator: the replacing operator and its bytes, where
/// it stands, and the file.
#[derive(Debug)]
pub struct Mutant<'a> {
    id: u32,
    token: Token,
    bytes: Vec<u8>,
    span: (u32, u32),
    src_path: &'a PathBuf,
}

impl<'a> View for Mutant<'a> {
    type V = MutantView;

    closed spec fn view(&self) -> MutantView {
        MutantView {
            id: self.id,
            token: self.token,
            bytes: self.bytes@,
            span: self.span,
            src_path: *self.src_path,
        }
    }
}

impl<'a> Clone for Mutant<'a> {
    fn clone(&self) -> (r: Self)
        ensures
            r@ == self@,
    {
        Mutant {
            id: self.id,
            token: self.token,
            bytes: copy_bytes(self.bytes.as_slice()),
            span: self.span,
            src_path: self.src_path,
        }
    }
}

impl<'a> Mutant<'a> {
    /// Assembles a mutant from its parts.
    pub fn new(id: u32, token: Token, bytes: Vec<u8>, span: (u32, u32), src_path: &'a PathBuf) -> (r:
        Self)
        ensures
            r@ == (MutantView { id, token, bytes: bytes@, span, src_path: *src_path }),
    {
        Mutant { id, token, bytes, span, src_path }
    }

    pub fn id(&self) -> (r: u32)
        ensures
            r == self@.id,
    {
        self.id
    }

    pub fn token(&self) -> (r: Token)
        ensures
            r == self@.token,
    {
        self.token
    }

    pub fn bytes(&self) -> (r: Vec<u8>)
        ensures
            r@ == self@.bytes,
    {
        copy_bytes(self.bytes.as_slice())
    }

    pub fn span(&self) -> (r: (u32, u32))
        ensures
            r == self@.span,
    {
        self.span
    }

    pub fn path(&self) -> (r: &PathBuf)
        ensures
            *r == self@.src_path,
    {
        self.src_path
    }

    pub fn start(&self) -> (r: u32)
        ensures
            r == self@.span.0,
    {
        self.span.0
    }

    pub fn end(&self) -> (r: u32)
        ensures
            r == self@.span.1,
    {
        self.span.1
    }
}

/// The operators this form of mutant covers: comparisons, `&`, `|`, `^`,
/// shifts and the arithmetic operators, without the compound assignments
/// and `++`/`--`.
pub open spec fn is_covered(t: Token) -> bool {
    match t {
        Token::Equal | Token::NotEqual | Token::Greater | Token::GreaterEqual | Token::Less
        | Token::LessEqual | Token::Ampersand | Token::Pipe | Token::Caret | Token::ShiftLeft
        | Token::ShiftRight | Token::Plus | Token::Minus | Token::Star | Token::Slash
        | Token::Percent => true,
        _ => false,
    }
}

/// The mutant for a covered operator found at `span` in `src_path`; `None`
/// for any other operator.
pub fn mutant_builder<'a>(id: u32, token: Token, span: (u32, u32), src_path: &'a PathBuf) -> (r:
    Option<Mutant<'a>>)
    ensures
        is_covered(token) ==> (r matches Some(m) && m@ == (MutantView {
            id,
            token: mutation_of(token),
            bytes: spelling(mutation_of(token)),
            span,
            src_path: *src_path,
        })),
        !is_covered(token) ==> r is None,
{
    match token {
        Token::Equal | Token::NotEqual | Token::Greater | Token::GreaterEqual | Token::Less
        | Token::LessEqual | Token::Ampersand | Token::Pipe | Token::Caret | Token::ShiftLeft
        | Token::ShiftRight | Token::Plus | Token::Minus | Token::Star | Token::Slash
        | Token::Percent => {
            let mutation = match token_mutation(token) {
                Some(m) => m,
                None => token,
            };
            let bytes = match token_as_bytes(&mutation) {
                Some(b) => copy_bytes(b),
                None => Vec::new(),
            };
            Some(Mutant { id, token: mutation, bytes, span, src_path })
        },
        _ => None,
    }
}

} // verus!
