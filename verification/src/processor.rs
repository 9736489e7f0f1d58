//! Judging a mutant from the exit codes of its build and of its test suite,
//! and counting the campaign's mutants by outcome.
use crate::handlers::mutator::{Mutant, MutantView, MutationStatus};
use vstd::prelude::*;

verus! {

/// What the build and the test suite of a mutated project tell: the mutant
/// survived (tests passed), was killed (a test failed), did not build, or a
/// process was killed by a signal or crashed, which ends the campaign.
#[derive(Debug, Clone, Copy, PartialEq, Eq, Structural)]
pub enum RunOutcome {
    Survived,
    Killed,
    Unbuildable,
    BuildCrashed,
    TestsCrashed,
}

/// The outcome of a run from the exit codes of the build and of the tests
/// (`None` when a process ended without an exit code).
pub open spec fn outcome_of(build_code: Option<i32>, test_code: Option<i32>) -> RunOutcome {
    match build_code {
        Some(0) => match test_code {
            Some(0) => RunOutcome::Survived,
            Some(_) => RunOutcome::Killed,
            None => RunOutcome::TestsCrashed,
        },
        Some(_) => RunOutcome::Unbuildable,
        None => RunOutcome::BuildCrashed,
    }
}

/// Judges a run from the exit codes of the build and of the tests.
pub fn classify_run(build_code: Option<i32>, test_code: Option<i32>) -> (r: RunOutcome)
    ensures
        r == outcome_of(build_code, test_code),
        build_code matches Some(c) && c != 0 ==> r == RunOutcome::Unbuildable,
{
    match build_code {
        Some(0) => match test_code {
            Some(0) => RunOutcome::Survived,
            Some(_) => RunOutcome::Killed,
            None => RunOutcome::TestsCrashed,
        },
        Some(_) => RunOutcome::Unbuildable,
        None => RunOutcome::BuildCrashed,
    }
}

/// A build that exits with a nonzero code makes the mutant unbuildable,
/// whatever its test run gave: the run does not end the campaign, and the
/// mutant is marked and counted unbuildable, never killed or survived.
pub proof fn lemma_failed_build_unbuildable(code: i32, test_code: Option<i32>)
    requires
        code != 0,
    ensures
        outcome_of(Some(code), test_code) == RunOutcome::Unbuildable,
        !is_crash(outcome_of(Some(code), test_code)),
        status_of(outcome_of(Some(code), test_code)) == MutationStatus::Unbuildable,
{
}

/// The tests decide only a mutant that built: it survives exactly when the
/// build and the tests both exit with 0, and it is killed exactly when the
/// build exits with 0 and the tests with another code.
pub proof fn lemma_tests_judge_built_mutants(build_code: Option<i32>, test_code: Option<i32>)
    ensures
        outcome_of(build_code, test_code) == RunOutcome::Survived <==> (build_code == Some(0i32)
            && test_code == Some(0i32)),
        outcome_of(build_code, test_code) == RunOutcome::Killed <==> (build_code == Some(0i32)
            && test_code is Some && test_code != Some(0i32)),
        outcome_of(build_code, test_code) == RunOutcome::Unbuildable <==> (build_code is Some
            && build_code != Some(0i32)),
{
}

/// The run ended the campaign.
pub open spec fn is_crash(outcome: RunOutcome) -> bool {
    outcome == RunOutcome::BuildCrashed || outcome == RunOutcome::TestsCrashed
}

/// The status a mutant takes from a run that did not crash.
pub open spec fn status_of(outcome: RunOutcome) -> MutationStatus {
    match outcome {
        RunOutcome::Survived => MutationStatus::Survived,
        RunOutcome::Killed => MutationStatus::Killed,
        RunOutcome::Unbuildable => MutationStatus::Unbuildable,
        _ => MutationStatus::Pending,
    }
}

/// What a `MutationTally` counts.
pub struct TallyView {
    pub total: nat,
    pub pending: nat,
    pub destroyed: nat,
    pub survived: nat,
    pub unbuildable: nat,
}

impl TallyView {
    /// Every mutant is counted once: pending, destroyed, survived or unbuildable.
    pub open spec fn accounts_for_all(self) -> bool {
        self.pending + self.destroyed + self.survived + self.unbuildable == self.total
    }
}

/// The mutants of a campaign counted by outcome.
pub struct MutationTally {
    total: usize,
    pending: usize,
    destroyed: usize,
    survived: usize,
    unbuildable: usize,
}

impl View for MutationTally {
    type V = TallyView;

    closed spec fn view(&self) -> TallyView {
        TallyView {
            total: self.total as nat,
            pending: self.pending as nat,
            destroyed: self.destroyed as nat,
            survived: self.survived as nat,
            unbuildable: self.unbuildable as nat,
        }
    }
}

impl MutationTally {
    #[verifier::type_invariant]
    closed spec fn counts_add_up(&self) -> bool {
        self@.accounts_for_all()
    }

    /// A campaign of `total` mutants, all pending.
    pub fn new(total: usize) -> (r: Self)
        ensures
            r@ == (TallyView {
                total: total as nat,
                pending: total as nat,
                destroyed: 0,
                survived: 0,
                unbuildable: 0,
            }),
            r@.accounts_for_all(),
    {
        MutationTally { total, pending: total, destroyed: 0, survived: 0, unbuildable: 0 }
    }

    /// The number of mutants; every one of them is counted exactly once.
    pub fn total(&self) -> (r: usize)
        ensures
            r == self@.total,
            self@.accounts_for_all(),
    {
        proof {
            use_type_invariant(self);
        }
        self.total
    }

    pub fn pending(&self) -> (r: usize)
        ensures
            r == self@.pending,
    {
        self.pending
    }

    pub fn destroyed(&self) -> (r: usize)
        ensures
            r == self@.destroyed,
    {
        self.destroyed
    }

    pub fn survived(&self) -> (r: usize)
        ensures
            r == self@.survived,
    {
        self.survived
    }

    pub fn unbuildable(&self) -> (r: usize)
        ensures
            r == self@.unbuildable,
    {
        self.unbuildable
    }

    /// Counts the outcome of one pending mutant: it leaves the pending count
    /// and joins the count of its outcome.  A crash changes nothing (the
    /// campaign ends there), nor does an outcome when no mutant is pending.
    pub fn record(&mut self, outcome: RunOutcome)
        ensures
            final(self)@.accounts_for_all(),
            final(self)@.total == old(self)@.total,
            (old(self)@.pending == 0 || is_crash(outcome)) ==> final(self)@ == old(self)@,
            old(self)@.pending > 0 && !is_crash(outcome) ==> {
                &&& final(self)@.pending == old(self)@.pending - 1
                &&& final(self)@.destroyed == old(self)@.destroyed + if outcome == RunOutcome::Killed { 1int } else { 0int }
                &&& final(self)@.survived == old(self)@.survived + if outcome == RunOutcome::Survived { 1int } else { 0int }
                &&& final(self)@.unbuildable == old(self)@.unbuildable + if outcome == RunOutcome::Unbuildable { 1int } else { 0int }
            },
    {
        proof {
            use_type_invariant(&*self);
        }
        if self.pending == 0 {
            return;
        }
        let pending = self.pending - 1;
        match outcome {
            RunOutcome::Survived => {
                *self = MutationTally { survived: self.survived + 1, pending, ..*self };
            },
            RunOutcome::Killed => {
                *self = MutationTally { destroyed: self.destroyed + 1, pending, ..*self };
            },
            RunOutcome::Unbuildable => {
                *self = MutationTally { unbuildable: self.unbuildable + 1, pending, ..*self };
            },
            _ => {},
        }
    }
}

/// Records the run of one mutant: sets its status and counts it.  Returns
/// `false`, changing neither, when the build or the tests crashed, which ends
/// the campaign.
pub fn record_run(
    mutant: &mut Mutant,
    tally: &mut MutationTally,
    build_code: Option<i32>,
    test_code: Option<i32>,
) -> (carry_on: bool)
    ensures
        carry_on == !is_crash(outcome_of(build_code, test_code)),
        carry_on ==> final(mutant)@ == (MutantView {
            status: status_of(outcome_of(build_code, test_code)),
            ..old(mutant)@
        }),
        !carry_on ==> final(mutant)@ == old(mutant)@ && final(tally)@ == old(tally)@,
        carry_on && old(tally)@.pending > 0 ==> {
            let outcome = outcome_of(build_code, test_code);
            &&& final(tally)@.pending == old(tally)@.pending - 1
            &&& final(tally)@.destroyed == old(tally)@.destroyed + if outcome == RunOutcome::Killed { 1int } else { 0int }
            &&& final(tally)@.survived == old(tally)@.survived + if outcome == RunOutcome::Survived { 1int } else { 0int }
            &&& final(tally)@.unbuildable == old(tally)@.unbuildable + if outcome == RunOutcome::Unbuildable { 1int } else { 0int }
        },
        carry_on && old(tally)@.pending == 0 ==> final(tally)@ == old(tally)@,
        final(tally)@.total == old(tally)@.total,
{
    let outcome = classify_run(build_code, test_code);
    match outcome {
        RunOutcome::BuildCrashed | RunOutcome::TestsCrashed => false,
        _ => {
            let status = match outcome {
                RunOutcome::Survived => MutationStatus::Survived,
                RunOutcome::Killed => MutationStatus::Killed,
                _ => MutationStatus::Unbuildable,
            };
            mutant.set_status(status);
            tally.record(outcome);
            true
        },
    }
}

} // verus!
