//! Finding the matches of a regular expression in source text, with the
//! `regex` crate.
use vstd::prelude::*;

verus! {

/// The byte ranges `(start, end)` of the successive non-overlapping matches
/// that `regex::Regex::find_iter` reports for `pattern` in `text`.
pub uninterp spec fn regex_matches(pattern: Seq<char>, text: Seq<char>) -> Seq<(usize, usize)>;

/// Whether `regex::Regex::new` accepts `pattern`: it is valid syntax and its
/// compiled form stays within the crate's default size and nesting limits.
pub uninterp spec fn regex_compiles(pattern: Seq<char>) -> bool;

/// Compiles `pattern` with `regex::Regex::new` and lists the byte ranges of
/// `find_iter`'s matches in `text`.  Whether compilation succeeds is named
/// `regex_compiles` (a failure gives `None`; `find_iter` itself never fails),
/// the ranges are named `regex_matches`.  Which patterns compile is not
/// stated.
#[verifier::external_body]
pub(crate) fn find_matches(pattern: &str, text: &str) -> (r: Option<Vec<(usize, usize)>>)
    ensures
        r is Some <==> regex_compiles(pattern@),
        r matches Some(v) ==> v@ == regex_matches(pattern@, text@),
{
    match regex::Regex::new(pattern) {
        Ok(re) => Some(re.find_iter(text).map(|m| (m.start(), m.end())).collect()),
        Err(_) => None,
    }
}

} // verus!
