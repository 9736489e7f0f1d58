//! Noir: sources `*.nr`, built and tested with `nargo`.
use crate::config::LanguageConfig;
use crate::filters::{comment_pattern, comment_regex, literal_pattern, literal_regex, test_pattern_of, test_regex};
use crate::languages::common::Language;
use vstd::prelude::*;

verus! {

/// The settings of Noir.
#[derive(Clone, Copy)]
pub struct NoirConfig;

/// The directories under which no Noir source is looked for.
pub open spec fn noir_excluded_dirs() -> Seq<Seq<char>> {
    seq!["temp"@, "target"@, "test"@, "tests"@]
}

impl LanguageConfig for NoirConfig {
    fn language(&self) -> (r: Language)
        ensures
            r == Language::Noir,
    {
        Language::Noir
    }

    fn name(&self) -> (r: &'static str)
        ensures
            r@ == "Noir"@,
    {
        "Noir"
    }

    fn ext(&self) -> (r: &'static str)
        ensures
            r@ == "nr"@,
    {
        "nr"
    }

    fn test_runner(&self) -> (r: &'static str)
        ensures
            r@ == "nargo"@,
    {
        "nargo"
    }

    fn test_command(&self) -> (r: &'static str)
        ensures
            r@ == "test"@,
    {
        "test"
    }

    fn build_command(&self) -> (r: &'static str)
        ensures
            r@ == "build"@,
    {
        "build"
    }

    fn manifest_name(&self) -> (r: &'static str)
        ensures
            r@ == "Nargo.toml"@,
    {
        "Nargo.toml"
    }

    fn excluded_dirs(&self) -> (r: Vec<&'static str>)
        ensures
            r@.map_values(|s: &str| s@) == noir_excluded_dirs(),
    {
        let r = vec!["temp", "target", "test", "tests"];
        assert(r@.map_values(|s: &str| s@) =~= noir_excluded_dirs());
        r
    }

    fn filter_tests(&self) -> (r: bool)
        ensures
            r == true,
    {
        true
    }

    fn test_regex(&self) -> (r: Option<&'static str>)
        ensures
            match test_pattern_of(Language::Noir) {
                Some(p) => r matches Some(s) && s@ == p,
                None => r is None,
            },
    {
        test_regex(&Language::Noir)
    }

    fn comment_regex(&self) -> (r: &'static str)
        ensures
            r@ == comment_pattern(),
    {
        comment_regex(&Language::Noir)
    }

    fn literal_regex(&self) -> (r: &'static str)
        ensures
            r@ == literal_pattern(),
    {
        literal_regex(&Language::Noir)
    }
}

} // verus!
