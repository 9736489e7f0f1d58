//! Judging a mutant from the output of its test run, as the single-pass
//! runner does: a passing suite means the mutant survived; a failing suite
//! kills it only when its error output reports failed tests, not a compile
//! error (the search is on the bytes of the output).
use crate::text::{bytes_contain, contains_seq};
use vstd::string::StringSliceAdditionalSpecFns;
use crate::token::MutationStatus;
use vstd::prelude::*;

verus! {

/// The output reports a failed test.
pub open spec fn reports_failure(stderr: Seq<u8>) -> bool {
    (contains_seq(stderr, "test failed".spec_bytes()) || contains_seq(stderr, "FAILED".spec_bytes()))
        && !contains_seq(stderr, "aborting due to 1 previous errors".spec_bytes())
}

/// Output that reports an aborted compilation never counts as a failed test,
/// whichever of `test failed` or `FAILED` it also holds; without that report,
/// either of the two counts, and output with neither never does.
pub proof fn lemma_abort_is_no_failure(stderr: Seq<u8>)
    ensures
        contains_seq(stderr, "aborting due to 1 previous errors".spec_bytes()) ==> !reports_failure(
            stderr,
        ),
        !contains_seq(stderr, "aborting due to 1 previous errors".spec_bytes()) && contains_seq(
            stderr,
            "test failed".spec_bytes(),
        ) ==> reports_failure(stderr),
        !contains_seq(stderr, "aborting due to 1 previous errors".spec_bytes()) && contains_seq(
            stderr,
            "FAILED".spec_bytes(),
        ) ==> reports_failure(stderr),
        !contains_seq(stderr, "test failed".spec_bytes()) && !contains_seq(
            stderr,
            "FAILED".spec_bytes(),
        ) ==> !reports_failure(stderr),
{
}

/// The status a mutant takes from its test run: `Survived` when the suite
/// passed, `Killed` when it failed and its error output reports a failed test
/// (and not an aborted compilation), and no change (`None`) otherwise.
pub fn test_run_status(success: bool, stderr: &str) -> (r: Option<MutationStatus>)
    ensures
        success ==> r == Some(MutationStatus::Survived),
        !success && reports_failure(stderr.spec_bytes()) ==> r == Some(MutationStatus::Killed),
        !success && !reports_failure(stderr.spec_bytes()) ==> r is None,
        !success && contains_seq(
            stderr.spec_bytes(),
            "aborting due to 1 previous errors".spec_bytes(),
        ) ==> r is None,
{
    if success {
        Some(MutationStatus::Survived)
    } else if (bytes_contain(stderr.as_bytes(), "test failed".as_bytes()) || bytes_contain(
        stderr.as_bytes(),
        "FAILED".as_bytes(),
    )) && !bytes_contain(stderr.as_bytes(), "aborting due to 1 previous errors".as_bytes()) {
        Some(MutationStatus::Killed)
    } else {
        None
    }
}

} // verus!
