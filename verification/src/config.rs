//! What Hunter needs to know about a language: its file extension, the tool
//! that builds and tests it, where its sources are not looked for, and the
//! patterns of the regions it must not mutate.
use crate::languages::common::Language;
use vstd::prelude::*;

verus! {

/// The settings of a language.  Running the tool and preparing the copies of
/// a project are done by the application, outside the library.
pub trait LanguageConfig {
    fn language(&self) -> Language;

    fn name(&self) -> &'static str;

    fn ext(&self) -> &'static str;

    fn test_runner(&self) -> &'static str;

    fn test_command(&self) -> &'static str;

    fn build_command(&self) -> &'static str;

    fn manifest_name(&self) -> &'static str;

    fn excluded_dirs(&self) -> Vec<&'static str>;

    fn filter_tests(&self) -> bool;

    fn test_regex(&self) -> Option<&'static str>;

    fn comment_regex(&self) -> &'static str;

    fn literal_regex(&self) -> &'static str;
}

} // verus!
