//! Building the mutants of a scan, and the results of a scan.
pub mod mutator;
pub mod scanner;
