//! The regular expressions that mark the regions of a source file where no
//! token is mutated: unit tests, comments and string literals.
use crate::languages::common::Language;
use crate::matching::regex_compiles;
use vstd::prelude::*;

verus! {

/// The pattern of a Noir unit test: `#[test]` (with optional arguments),
/// `fn name()` and a body without nested braces.
pub open spec fn noir_test_pattern() -> Seq<char> {
    r"#\[test(\(.*\))?\]\s+fn\s+\w+\(\)\s*\{[^}]*\}"@
}

/// The pattern of a line comment or a block comment.
pub open spec fn comment_pattern() -> Seq<char> {
    r"//.*|/\*(?s:.*?)\*/"@
}

/// The pattern of a double-quoted string literal with backslash escapes.
pub open spec fn literal_pattern() -> Seq<char> {
    r#""([^"\\]|\\.)*""#@
}

/// The unit-test pattern of a language: Noir's, and none for Solidity.
pub open spec fn test_pattern_of(language: Language) -> Option<Seq<char>> {
    match language {
        Language::Noir => Some(noir_test_pattern()),
        Language::Solidity => None,
    }
}

/// The language has no test pattern, or its test pattern compiles.
pub open spec fn test_pattern_compiles(language: Language) -> bool {
    match test_pattern_of(language) {
        Some(p) => regex_compiles(p),
        None => true,
    }
}

/// The pattern of a language's unit tests, if Hunter recognises them.
pub fn test_regex(language: &Language) -> (r: Option<&'static str>)
    ensures
        match test_pattern_of(*language) {
            Some(p) => r matches Some(s) && s@ == p,
            None => r is None,
        },
{
    match language {
        Language::Noir => Some(r"#\[test(\(.*\))?\]\s+fn\s+\w+\(\)\s*\{[^}]*\}"),
        Language::Solidity => None,
    }
}

/// The pattern of a language's comments.
pub fn comment_regex(language: &Language) -> (r: &'static str)
    ensures
        r@ == comment_pattern(),
{
    match language {
        Language::Noir => r"//.*|/\*(?s:.*?)\*/",
        Language::Solidity => r"//.*|/\*(?s:.*?)\*/",
    }
}

/// The pattern of a language's string literals.
pub fn literal_regex(language: &Language) -> (r: &'static str)
    ensures
        r@ == literal_pattern(),
{
    match language {
        Language::Noir => r#""([^"\\]|\\.)*""#,
        Language::Solidity => r#""([^"\\]|\\.)*""#,
    }
}

} // verus!
