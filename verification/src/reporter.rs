//! The figures that Hunter reports: how many unit tests a file holds, how
//! many test runs a campaign needs, which mutants are listed as surviving,
//! and on which line of a file a mutant stands.
use crate::filters::{noir_test_pattern, test_pattern_compiles, test_pattern_of, test_regex};
use crate::handlers::mutator::{Mutant, MutationStatus};
use crate::processor::{is_crash, outcome_of, status_of};
use crate::languages::common::Language;
use crate::matching::{find_matches, regex_matches};
use vstd::prelude::*;

verus! {

/// The number of unit tests in a file: the matches of the language's test
/// pattern, or none for a language without one.
pub open spec fn tests_in(language: Language, text: Seq<char>) -> nat {
    match test_pattern_of(language) {
        Some(p) => regex_matches(p, text).len(),
        None => 0,
    }
}

/// Every match of the test pattern is one unit test: a Noir file holds as
/// many unit tests as the Noir test pattern has matches in it, however many
/// that is; a Solidity file is counted as holding none.
pub proof fn lemma_each_test_match_counts(text: Seq<char>)
    ensures
        tests_in(Language::Noir, text) == regex_matches(noir_test_pattern(), text).len(),
        tests_in(Language::Solidity, text) == 0,
{
}

/// Counts the unit tests in the text of a source file.  `None` exactly when
/// the test pattern does not compile.
pub fn count_tests(contents: &str, language: &Language) -> (r: Option<usize>)
    ensures
        r is Some <==> test_pattern_compiles(*language),
        r matches Some(n) ==> n == tests_in(*language, contents@),
        *language == Language::Noir ==> (r matches Some(n) ==> n == regex_matches(
            noir_test_pattern(),
            contents@,
        ).len()),
        test_pattern_of(*language) is None ==> r == Some(0usize),
{
    match test_regex(language) {
        Some(p) => match find_matches(p, contents) {
            Some(v) => Some(v.len()),
            None => None,
        },
        None => Some(0),
    }
}

/// The number of test runs a campaign needs: every mutant runs the whole
/// suite.  `None` when the product does not fit a `usize`.
pub fn required_test_runs(num_mutants: usize, test_count: usize) -> (r: Option<usize>)
    ensures
        num_mutants * test_count <= usize::MAX ==> r == Some((num_mutants * test_count) as usize),
        num_mutants * test_count > usize::MAX ==> r is None,
{
    num_mutants.checked_mul(test_count)
}

/// The mutants listed in the surviving-mutants table: those that survived
/// and those still pending.
pub open spec fn is_listed(status: MutationStatus) -> bool {
    status == MutationStatus::Survived || status == MutationStatus::Pending
}

/// Only mutants that survived or that no run has judged yet are listed: a
/// killed or an unbuildable mutant never is.
pub proof fn lemma_listed_statuses(status: MutationStatus)
    ensures
        is_listed(status) <==> (status != MutationStatus::Killed && status
            != MutationStatus::Unbuildable),
        !is_listed(MutationStatus::Killed),
        !is_listed(MutationStatus::Unbuildable),
{
}

/// A mutant marked from a run that did not crash is listed exactly when both
/// its build and its tests exited with 0.
pub proof fn lemma_listed_after_run(build_code: Option<i32>, test_code: Option<i32>)
    requires
        !is_crash(outcome_of(build_code, test_code)),
    ensures
        is_listed(status_of(outcome_of(build_code, test_code))) <==> (build_code == Some(0i32)
            && test_code == Some(0i32)),
{
}

/// Whether a mutant goes into the surviving-mutants table.
pub fn is_reportable(mutant: &Mutant) -> (r: bool)
    ensures
        r == is_listed(mutant@.status),
        r <==> (mutant@.status == MutationStatus::Survived || mutant@.status
            == MutationStatus::Pending),
{
    let s = mutant.status();
    s == MutationStatus::Survived || s == MutationStatus::Pending
}

/// The offset at which line `i` starts when lines of the given byte lengths
/// are separated by one newline byte each.
pub open spec fn line_start(line_lengths: Seq<usize>, i: int) -> int
    decreases i,
{
    if i <= 0 {
        0
    } else {
        line_start(line_lengths, i - 1) + line_lengths[i - 1] + 1
    }
}

/// Line `i` holds the whole span.
pub open spec fn line_covers(line_lengths: Seq<usize>, i: int, span: (usize, usize)) -> bool {
    line_start(line_lengths, i) <= span.0 && line_start(line_lengths, i) + line_lengths[i]
        >= span.1
}

proof fn lemma_line_start_monotone(line_lengths: Seq<usize>, i: int, j: int)
    requires
        0 <= i <= j,
    ensures
        line_start(line_lengths, i) <= line_start(line_lengths, j),
    decreases j - i,
{
    if i < j {
        lemma_line_start_monotone(line_lengths, i, j - 1);
    }
}

/// The index of the first line that holds the whole span, if any.
pub fn span_line(line_lengths: &Vec<usize>, span: (usize, usize)) -> (r: Option<usize>)
    requires
        line_start(line_lengths@, line_lengths@.len() as int) <= usize::MAX,
    ensures
        match r {
            Some(i) => i < line_lengths@.len() && line_covers(line_lengths@, i as int, span)
                && forall|j: int| 0 <= j < i ==> !#[trigger] line_covers(line_lengths@, j, span),
            None => forall|j: int|
                0 <= j < line_lengths@.len() ==> !#[trigger] line_covers(line_lengths@, j, span),
        },
{
    let mut byte_index: usize = 0;
    let mut i: usize = 0;
    while i < line_lengths.len()
        invariant
            i <= line_lengths@.len(),
            line_start(line_lengths@, line_lengths@.len() as int) <= usize::MAX,
            byte_index == line_start(line_lengths@, i as int),
            forall|j: int| 0 <= j < i ==> !#[trigger] line_covers(line_lengths@, j, span),
        decreases line_lengths@.len() - i,
    {
        proof {
            lemma_line_start_monotone(line_lengths@, i + 1, line_lengths@.len() as int);
        }
        let line_length = line_lengths[i];
        if byte_index <= span.0 && byte_index + line_length >= span.1 {
            return Some(i);
        }
        byte_index = byte_index + line_length + 1;
        i = i + 1;
    }
    None
}

} // verus!
