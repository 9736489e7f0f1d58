//! The stages of a campaign as first laid out; they do nothing yet.
use std::path::PathBuf;
use vstd::prelude::*;

verus! {

/// Loading the source files of a project (not done by this stage).
pub fn load_src_files(src: Option<PathBuf>) {
}

/// Mutating the loaded sources (not done by this stage).
pub fn mutate() {
}

/// Running the tests of the mutants (not done by this stage).
pub fn run_tests() {
}

/// Reporting the results (not done by this stage).
pub fn report() {
}

} // verus!
