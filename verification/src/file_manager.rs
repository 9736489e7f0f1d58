//! The decisions of the search for source files: which directories are
//! excluded, and what becomes of each entry of a directory.
use crate::text::{trim_end_slashes, trimmed_eq};
use vstd::prelude::*;

verus! {

/// `name` is one of the excluded directories (trailing `/` ignored).
pub open spec fn is_excluded_name(excluded: Seq<&str>, name: Seq<char>) -> bool {
    exists|i: int| 0 <= i < excluded.len() && trim_end_slashes(#[trigger] excluded[i]@) == name
}

/// Whether a directory name is one of the excluded directories; Hunter
/// refuses to run from inside such a directory.
pub fn is_excluded_dir(excluded: &Vec<&str>, dir_name: &str) -> (r: bool)
    ensures
        r == is_excluded_name(excluded@, dir_name@),
{
    let mut i: usize = 0;
    while i < excluded.len()
        invariant
            i <= excluded@.len(),
            forall|j: int| 0 <= j < i ==> trim_end_slashes(#[trigger] excluded@[j]@) != dir_name@,
        decreases excluded@.len() - i,
    {
        if trimmed_eq(excluded[i], dir_name) {
            return true;
        }
        i = i + 1;
    }
    false
}

/// What the search does with an entry of a directory.
#[derive(Debug, Clone, Copy, PartialEq, Eq, Structural)]
pub enum EntryAction {
    /// A directory to search in turn.
    Descend,
    /// An excluded directory.
    Skip,
    /// A source file of the language.
    Collect,
    /// Any other file.
    Ignore,
}

/// The action for an entry: a directory whose first or last path component
/// is an excluded directory is skipped, any other directory is searched; a
/// file with the language's extension is collected, any other is ignored.
pub open spec fn entry_action(
    excluded: Seq<&str>,
    is_dir: bool,
    first_component: Seq<char>,
    last_component: Seq<char>,
    extension: Option<Seq<char>>,
    ext: Seq<char>,
) -> EntryAction {
    if is_dir {
        if is_excluded_name(excluded, last_component) || is_excluded_name(excluded, first_component) {
            EntryAction::Skip
        } else {
            EntryAction::Descend
        }
    } else if extension == Some(ext) {
        EntryAction::Collect
    } else {
        EntryAction::Ignore
    }
}

/// Decides what the search does with an entry of a directory, from whether
/// it is a directory, the first and last components of its path, its
/// extension and the language's extension.
pub fn classify_entry(
    excluded: &Vec<&str>,
    is_dir: bool,
    first_component: &str,
    last_component: &str,
    extension: Option<&str>,
    ext: &str,
) -> (r: EntryAction)
    ensures
        r == entry_action(
            excluded@,
            is_dir,
            first_component@,
            last_component@,
            match extension {
                Some(e) => Some(e@),
                None => None,
            },
            ext@,
        ),
{
    if is_dir {
        if is_excluded_dir(excluded, last_component) || is_excluded_dir(excluded, first_component) {
            EntryAction::Skip
        } else {
            EntryAction::Descend
        }
    } else {
        match extension {
            Some(e) => if crate::text::str_eq(e, ext) {
                EntryAction::Collect
            } else {
                EntryAction::Ignore
            },
            None => EntryAction::Ignore,
        }
    }
}

} // verus!
