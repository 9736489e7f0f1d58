//! Hunter: mutation testing for Noir (and Solidity) sources.
//!
//! The library holds the logic of the tool: the operator tokens and their
//! mutation rules, the scanning of source text for mutable tokens, the
//! rewriting of source bytes, the classification of test runs and the
//! bookkeeping of a mutation campaign.  Reading and writing files, running
//! the test suites and printing reports live in the application around it.

pub mod cli;
pub mod config;
pub mod file_manager;
pub mod filters;
pub mod handlers;
pub mod languages;
pub mod matching;
pub mod mutant;
pub mod parallel;
pub mod paths;
pub mod processor;
pub mod reporter;
pub mod stages;
pub mod text;
pub mod token;
pub mod utils;
