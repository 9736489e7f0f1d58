//! The mutants of a campaign: one per token found by a scan.
use crate::text::copy_bytes;
use crate::token::{mutation_of, spelling, token_as_bytes, token_mutation, MetaToken, Token};
use crate::utils::{replace_bytes, replace_bytes_accepts, replaced_bytes};
use std::path::PathBuf;
use vstd::prelude::*;

verus! {

/// How a mutant fared: not yet run, its tests passed, its tests failed, or
/// it did not build.
#[derive(Debug, Clone, Copy, PartialEq, Eq, Structural)]
pub enum MutationStatus {
    Pending,
    Survived,
    Killed,
    Unbuildable,
}

/// What a `Mutant` holds.
pub struct MutantView {
    pub id: u32,
    pub original: Token,
    pub mutation: Token,
    pub bytes: Seq<u8>,
    pub span: (u32, u32),
    pub src_path: PathBuf,
    pub status: MutationStatus,
}

/// A mutant: the operator found in the source, the operator that replaces
/// it and the replacement's bytes, where it stands, and how it fared.
#[derive(Debug)]
pub struct Mutant {
    id: u32,
    original: Token,
    mutation: Token,
    bytes: Vec<u8>,
    span: (u32, u32),
    src_path: Box<PathBuf>,
    status: MutationStatus,
}

impl View for Mutant {
    type V = MutantView;

    closed spec fn view(&self) -> MutantView {
        MutantView {
            id: self.id,
            original: self.original,
            mutation: self.mutation,
            bytes: self.bytes@,
            span: self.span,
            src_path: *self.src_path,
            status: self.status,
        }
    }
}

impl Clone for Mutant {
    fn clone(&self) -> (r: Self)
        ensures
            r@ == self@,
    {
        Mutant {
            id: self.id,
            original: self.original,
            mutation: self.mutation,
            bytes: copy_bytes(self.bytes.as_slice()),
            span: self.span,
            src_path: Box::new((*self.src_path).clone()),
            status: self.status,
        }
    }
}

impl Mutant {
    /// Assembles a mutant from its parts.
    pub fn new(
        id: u32,
        original: Token,
        mutation: Token,
        bytes: Vec<u8>,
        span: (u32, u32),
        src_path: Box<PathBuf>,
        status: MutationStatus,
    ) -> (r: Self)
        ensures
            r@ == (MutantView {
                id,
                original,
                mutation,
                bytes: bytes@,
                span,
                src_path: *src_path,
                status,
            }),
    {
        Mutant { id, original, mutation, bytes, span, src_path, status }
    }

    pub fn id(&self) -> (r: u32)
        ensures
            r == self@.id,
    {
        self.id
    }

    /// The operator found in the source.
    pub fn token(&self) -> (r: Token)
        ensures
            r == self@.original,
    {
        self.original
    }

    /// The operator that replaces it.
    pub fn mutation(&self) -> (r: Token)
        ensures
            r == self@.mutation,
    {
        self.mutation
    }

    pub fn bytes(&self) -> (r: Vec<u8>)
        ensures
            r@ == self@.bytes,
    {
        copy_bytes(self.bytes.as_slice())
    }

    pub fn span(&self) -> (r: (u32, u32))
        ensures
            r == self@.span,
    {
        self.span
    }

    pub fn path(&self) -> (r: &PathBuf)
        ensures
            *r == self@.src_path,
    {
        &self.src_path
    }

    pub fn span_start(&self) -> (r: u32)
        ensures
            r == self@.span.0,
    {
        self.span.0
    }

    pub fn span_end(&self) -> (r: u32)
        ensures
            r == self@.span.1,
    {
        self.span.1
    }

    pub fn status(&self) -> (r: MutationStatus)
        ensures
            r == self@.status,
    {
        self.status
    }

    pub fn set_status(&mut self, new_status: MutationStatus)
        ensures
            final(self)@ == (MutantView { status: new_status, ..old(self)@ }),
    {
        self.status = new_status;
    }
}

} // verus!

verus! {

/// A number drawn from the random keys of a fresh
/// `std::collections::hash_map::RandomState`, hashed with
/// `BuildHasher::hash_one`.  Nothing is stated of its value: it changes from
/// call to call.
#[verifier::external_body]
fn random_u64() -> u64 {
    std::hash::BuildHasher::hash_one(&std::collections::hash_map::RandomState::new(), 0u8)
}

/// The operators in the order in which a random draw numbers them.
pub open spec fn drawable_tokens() -> Seq<Token> {
    crate::utils::scan_order()
}

/// The operator that a random number `seed` selects.
pub fn token_at(seed: u64) -> (r: Token)
    ensures
        r == drawable_tokens()[(seed % 28) as int],
{
    match seed % 28 {
        0 => Token::Equal,
        1 => Token::NotEqual,
        2 => Token::Less,
        3 => Token::LessEqual,
        4 => Token::Greater,
        5 => Token::GreaterEqual,
        6 => Token::Ampersand,
        7 => Token::Pipe,
        8 => Token::Caret,
        9 => Token::ShiftLeft,
        10 => Token::ShiftRight,
        11 => Token::Plus,
        12 => Token::Minus,
        13 => Token::Star,
        14 => Token::Slash,
        15 => Token::Percent,
        16 => Token::Increment,
        17 => Token::Decrement,
        18 => Token::PlusEquals,
        19 => Token::MinusEquals,
        20 => Token::StarEquals,
        21 => Token::SlashEquals,
        22 => Token::PercentEquals,
        23 => Token::AmpersandEquals,
        24 => Token::PipeEquals,
        25 => Token::CaretEquals,
        26 => Token::ShiftLeftEquals,
        _ => Token::ShiftRightEquals,
    }
}

/// A randomly chosen operator: `token_at` of a random number.
pub fn random_token() -> (r: Token)
    ensures
        drawable_tokens().contains(r),
{
    let seed = random_u64();
    let t = token_at(seed);
    assert(drawable_tokens()[(seed % 28) as int] == t);
    t
}

/// The mutant for an operator found at `span` in `src_path`: pending, with
/// the operator's mutation (a random operator when `random` is set) and the
/// mutation's spelling.
pub fn mutant_builder(
    id: u32,
    original: Token,
    span: (u32, u32),
    src_path: PathBuf,
    random: bool,
) -> (r: Option<Mutant>)
    ensures
        r matches Some(m) && {
            &&& m@.id == id
            &&& m@.original == original
            &&& !random ==> m@.mutation == mutation_of(original)
            &&& m@.bytes == spelling(m@.mutation)
            &&& m@.span == span
            &&& m@.src_path == src_path
            &&& m@.status == MutationStatus::Pending
        },
{
    let mutation = if random {
        random_token()
    } else {
        match token_mutation(original) {
            Some(t) => t,
            None => original,
        }
    };
    let bytes = match token_as_bytes(&mutation) {
        Some(b) => copy_bytes(b),
        None => Vec::new(),
    };
    Some(Mutant {
        id,
        original,
        mutation,
        bytes,
        span,
        src_path: Box::new(src_path),
        status: MutationStatus::Pending,
    })
}

/// The mutant a token yields (see `mutant_builder`).
pub open spec fn mutant_of_token(t: crate::token::MetaTokenView, m: MutantView, random: bool) -> bool {
    &&& m.id == t.id
    &&& m.original == t.token
    &&& !random ==> m.mutation == mutation_of(t.token)
    &&& m.bytes == spelling(m.mutation)
    &&& m.span == t.span
    &&& m.src_path == t.src
    &&& m.status == MutationStatus::Pending
}

/// One mutant per token, in the order of the tokens.
pub fn mutants(meta_tokens: &Vec<MetaToken>, random: bool) -> (r: Vec<Mutant>)
    ensures
        r@.len() == meta_tokens@.len(),
        forall|i: int|
            0 <= i < r@.len() ==> mutant_of_token(#[trigger] meta_tokens@[i]@, r@[i]@, random),
{
    let mut mutants: Vec<Mutant> = Vec::new();
    let mut i: usize = 0;
    while i < meta_tokens.len()
        invariant
            i <= meta_tokens@.len(),
            mutants@.len() == i,
            forall|j: int|
                0 <= j < i ==> mutant_of_token(#[trigger] meta_tokens@[j]@, mutants@[j]@, random),
        decreases meta_tokens@.len() - i,
    {
        let entry = &meta_tokens[i];
        let path = entry.src().clone();
        match mutant_builder(entry.id(), *entry.token(), entry.span(), path, random) {
            None => {},
            Some(m) => {
                mutants.push(m);
            },
        }
        i = i + 1;
    }
    mutants
}

/// Writes a mutant into the bytes of its source file: the mutant's bytes
/// replace the spelling of its original operator at the start of its span,
/// as `replace_bytes` does.  Leaves the bytes unchanged and returns `false`
/// where `replace_bytes` would not accept the inputs.
pub fn apply_mutant(contents: &mut Vec<u8>, mutant: &Mutant) -> (applied: bool)
    ensures
        applied == replace_bytes_accepts(
            old(contents)@,
            mutant@.span.0 as int,
            spelling(mutant@.original),
            mutant@.bytes,
        ),
        applied ==> final(contents)@ == replaced_bytes(
            old(contents)@,
            mutant@.span.0 as int,
            spelling(mutant@.original),
            mutant@.bytes,
        ),
        !applied ==> final(contents)@ == old(contents)@,
{
    let start = mutant.span.0 as usize;
    let original = match token_as_bytes(&mutant.original) {
        Some(b) => b,
        None => return false,
    };
    if crate::utils::replace_bytes_accepted(contents, start, original, mutant.bytes.as_slice()) {
        replace_bytes(contents, start, original, mutant.bytes.as_slice());
        true
    } else {
        false
    }
}

/// A mutant built from an operator rewrites exactly that operator: when the
/// span start of a non-random mutant leaves room for its original operator,
/// `apply_mutant` succeeds and substitutes the mutation's spelling for the
/// operator's spelling.
pub proof fn lemma_mutant_rewrites_its_token(m: MutantView, contents: Seq<u8>)
    requires
        m.mutation == mutation_of(m.original),
        m.bytes == spelling(m.mutation),
        m.span.0 + spelling(m.original).len() <= contents.len(),
    ensures
        replace_bytes_accepts(contents, m.span.0 as int, spelling(m.original), m.bytes),
        replaced_bytes(contents, m.span.0 as int, spelling(m.original), m.bytes)
            == contents.subrange(0, m.span.0 as int) + spelling(m.mutation) + contents.subrange(
            m.span.0 + spelling(m.original).len(),
            contents.len() as int,
        ),
{
    crate::utils::lemma_replace_substitutes_mutation(contents, m.span.0 as int, m.original);
}

/// Whether any mutant survived its tests.
pub fn any_survived(mutants: &Vec<Mutant>) -> (r: bool)
    ensures
        r == exists|i: int| 0 <= i < mutants@.len() && #[trigger] mutants@[i]@.status
            == MutationStatus::Survived,
{
    let mut i: usize = 0;
    while i < mutants.len()
        invariant
            i <= mutants@.len(),
            forall|j: int| 0 <= j < i ==> #[trigger] mutants@[j]@.status != MutationStatus::Survived,
        decreases mutants@.len() - i,
    {
        if mutants[i].status() == MutationStatus::Survived {
            return true;
        }
        i = i + 1;
    }
    false
}

} // verus!
