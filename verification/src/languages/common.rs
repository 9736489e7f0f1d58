//! The supported languages, and reading a language's name.
use crate::text::str_eq;
use vstd::prelude::*;
use vstd::string::is_ascii;

verus! {

/// A language Hunter can mutate.
#[derive(Clone, Copy, Debug, PartialEq, Eq, Structural)]
pub enum Language {
    Noir,
    Solidity,
}

/// ASCII lower-casing of one character.
pub open spec fn ascii_lower_char(c: char) -> char {
    if 'A' <= c && c <= 'Z' {
        ((c as u32) + 32) as char
    } else {
        c
    }
}

/// What `str::to_lowercase` returns for a string (Unicode lower-casing).
pub uninterp spec fn lowercase(s: Seq<char>) -> Seq<char>;

/// `str::to_lowercase`.  Its result is named `lowercase`; for an ASCII
/// string, Unicode lower-casing maps `A`..`Z` to `a`..`z` and keeps every
/// other character, which the second clause states.  Nothing is stated of
/// the characters outside ASCII beyond the name.
#[verifier::external_body]
fn to_lowercase(s: &str) -> (r: String)
    ensures
        r@ == lowercase(s@),
        is_ascii(s) ==> r@ == s@.map_values(|c: char| ascii_lower_char(c)),
{
    s.to_lowercase()
}

/// The text of the error for an unknown language name.
pub open spec fn unknown_language_message() -> Seq<char> {
    "No matching languages supported. Current supported languages are: "@ + "Noir, Solidity"@
}

/// The language a lower-cased name denotes.
pub open spec fn language_named(lowered: Seq<char>) -> Option<Language> {
    if lowered == "noir"@ {
        Some(Language::Noir)
    } else if lowered == "solidity"@ {
        Some(Language::Solidity)
    } else {
        None
    }
}

impl Language {
    /// The supported languages, separated by commas.
    pub fn list() -> (r: String)
        ensures
            r@ == "Noir, Solidity"@,
    {
        let mut r = String::from_str("Noir");
        r.append(", ");
        r.append("Solidity");
        proof {
            reveal_strlit("Noir");
            reveal_strlit(", ");
            reveal_strlit("Solidity");
            reveal_strlit("Noir, Solidity");
            assert(r@ =~= "Noir, Solidity"@);
        }
        r
    }
}

/// Reads a language name, ignoring case.
pub fn parse_language(s: &str) -> (r: Result<Language, String>)
    ensures
        match language_named(lowercase(s@)) {
            Some(l) => r == Ok::<Language, String>(l),
            None => r matches Err(e) && e@ == unknown_language_message(),
        },
        is_ascii(s) ==> match language_named(s@.map_values(|c: char| ascii_lower_char(c))) {
            Some(l) => r == Ok::<Language, String>(l),
            None => r matches Err(e) && e@ == unknown_language_message(),
        },
{
    let lowered = to_lowercase(s);
    if str_eq(lowered.as_str(), "noir") {
        Ok(Language::Noir)
    } else if str_eq(lowered.as_str(), "solidity") {
        Ok(Language::Solidity)
    } else {
        let mut e = String::from_str("No matching languages supported. Current supported languages are: ");
        let list = Language::list();
        e.append(list.as_str());
        Err(e)
    }
}

/// The name of a language as its settings give it.
pub open spec fn language_name(l: Language) -> Seq<char> {
    match l {
        Language::Noir => "Noir"@,
        Language::Solidity => "Solidity"@,
    }
}

/// A language's own name reads back as that language, whatever the case of
/// its ASCII letters: lower-casing `Noir` and `Solidity` gives the names
/// `parse_language` knows.
pub proof fn lemma_language_name_reads_back(l: Language)
    ensures
        language_named(language_name(l).map_values(|c: char| ascii_lower_char(c))) == Some(l),
{
    reveal_strlit("Noir");
    reveal_strlit("noir");
    reveal_strlit("Solidity");
    reveal_strlit("solidity");
    let lowered = language_name(l).map_values(|c: char| ascii_lower_char(c));
    match l {
        Language::Noir => {
            assert(lowered =~= "noir"@);
        },
        Language::Solidity => {
            assert(lowered =~= "solidity"@);
        },
    }
}

impl std::str::FromStr for Language {
    type Err = String;

    fn from_str(s: &str) -> (r: Result<Self, Self::Err>)
        ensures
            match language_named(lowercase(s@)) {
                Some(l) => r == Ok::<Language, String>(l),
                None => r matches Err(e) && e@ == unknown_language_message(),
            },
            is_ascii(s) ==> match language_named(s@.map_values(|c: char| ascii_lower_char(c))) {
                Some(l) => r == Ok::<Language, String>(l),
                None => r matches Err(e) && e@ == unknown_language_message(),
            },
    {
        parse_language(s)
    }
}

} // verus!
