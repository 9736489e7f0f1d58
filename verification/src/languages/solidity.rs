//! Solidity: sources `*.sol`, built and tested with `forge`.
use crate::config::LanguageConfig;
use crate::filters::{comment_pattern, comment_regex, literal_pattern, literal_regex, test_pattern_of, test_regex};
use crate::languages::common::Language;
use vstd::prelude::*;
use vstd::string::StringSliceAdditionalSpecFns;

verus! {

/// The settings of Solidity.
#[derive(Clone, Copy)]
pub struct SolidityConfig;

/// The directories under which no Solidity source is looked for.
pub open spec fn solidity_excluded_dirs() -> Seq<Seq<char>> {
    seq!["temp"@, "target"@, "test"@, "tests"@, "lib"@, "node_modules"@]
}

impl LanguageConfig for SolidityConfig {
    fn language(&self) -> (r: Language)
        ensures
            r == Language::Solidity,
    {
        Language::Solidity
    }

    fn name(&self) -> (r: &'static str)
        ensures
            r@ == "Solidity"@,
    {
        "Solidity"
    }

    fn ext(&self) -> (r: &'static str)
        ensures
            r@ == "sol"@,
    {
        "sol"
    }

    fn test_runner(&self) -> (r: &'static str)
        ensures
            r@ == "forge"@,
    {
        "forge"
    }

    fn test_command(&self) -> (r: &'static str)
        ensures
            r@ == "test"@,
    {
        "test"
    }

    fn build_command(&self) -> (r: &'static str)
        ensures
            r@ == "build"@,
    {
        "build"
    }

    fn manifest_name(&self) -> (r: &'static str)
        ensures
            r@ == "Foundry.toml"@,
    {
        "Foundry.toml"
    }

    fn excluded_dirs(&self) -> (r: Vec<&'static str>)
        ensures
            r@.map_values(|s: &str| s@) == solidity_excluded_dirs(),
    {
        let r = vec!["temp", "target", "test", "tests", "lib", "node_modules"];
        assert(r@.map_values(|s: &str| s@) =~= solidity_excluded_dirs());
        r
    }

    fn filter_tests(&self) -> (r: bool)
        ensures
            r == false,
    {
        false
    }

    fn test_regex(&self) -> (r: Option<&'static str>)
        ensures
            match test_pattern_of(Language::Solidity) {
                Some(p) => r matches Some(s) && s@ == p,
                None => r is None,
            },
    {
        test_regex(&Language::Solidity)
    }

    fn comment_regex(&self) -> (r: &'static str)
        ensures
            r@ == comment_pattern(),
    {
        comment_regex(&Language::Solidity)
    }

    fn literal_regex(&self) -> (r: &'static str)
        ensures
            r@ == literal_pattern(),
    {
        literal_regex(&Language::Solidity)
    }
}

} // verus!

verus! {

/// The entries of a Foundry project that are not copied into the scratch
/// project: caches, broadcast logs and the README.
pub open spec fn is_skipped_entry(path_text: Seq<u8>) -> bool {
    crate::text::contains_seq(path_text, "cache".spec_bytes()) || crate::text::contains_seq(
        path_text,
        "broadcast".spec_bytes(),
    ) || crate::text::contains_seq(path_text, "README.md".spec_bytes())
}

/// Whether an entry of a Foundry project, given by its path's text, is left
/// out of the scratch project.
pub fn skips_entry(path_text: &str) -> (r: bool)
    ensures
        r == is_skipped_entry(path_text.spec_bytes()),
{
    let bytes = path_text.as_bytes();
    crate::text::bytes_contain(bytes, "cache".as_bytes()) || crate::text::bytes_contain(
        bytes,
        "broadcast".as_bytes(),
    ) || crate::text::bytes_contain(bytes, "README.md".as_bytes())
}

} // verus!
