//! The command line: its arguments, and what a run does with them.
use crate::languages::common::Language;
use std::path::PathBuf;
use vstd::prelude::*;

verus! {

/// The two things Hunter can do.
#[derive(PartialEq, Eq, Debug, Clone, Copy, Structural)]
pub enum Subcommand {
    /// Scan for mutants without running tests and print a summary of the results
    Scan,
    /// Apply mutations and run the test suite against each mutant
    Mutate,
}

/// The arguments of a run.
#[derive(PartialEq, Debug)]
pub struct Args {
    /// The target language
    pub language: Option<Language>,
    /// Enable randomized mutant generation
    pub random: bool,
    /// The path to the source files directory
    pub source_path: PathBuf,
    /// The path to the output file (.md extension recommended)
    pub output_path: Option<PathBuf>,
    /// Display information about the program
    pub info: bool,
    /// Choose between running the scan or mutate subcommands
    pub subcommand: Option<Subcommand>,
}

impl Clone for Args {
    fn clone(&self) -> (r: Self)
        ensures
            r == *self,
    {
        Args {
            language: self.language,
            random: self.random,
            source_path: self.source_path.clone(),
            output_path: match &self.output_path {
                Some(p) => Some(p.clone()),
                None => None,
            },
            info: self.info,
            subcommand: self.subcommand,
        }
    }
}

/// What a run does: show the information text, scan, or scan and mutate.
#[derive(PartialEq, Eq, Debug, Clone, Copy, Structural)]
pub enum CliAction {
    ShowInfo,
    Scan,
    Mutate,
}

/// The action of a run: the information text when asked for or when no
/// subcommand is given, else the subcommand.
pub open spec fn action_of(info: bool, subcommand: Option<Subcommand>) -> CliAction {
    if info {
        CliAction::ShowInfo
    } else {
        match subcommand {
            Some(Subcommand::Scan) => CliAction::Scan,
            Some(Subcommand::Mutate) => CliAction::Mutate,
            None => CliAction::ShowInfo,
        }
    }
}

/// Decides what a run does.
pub fn cli_action(info: bool, subcommand: Option<Subcommand>) -> (r: CliAction)
    ensures
        r == action_of(info, subcommand),
{
    if info {
        CliAction::ShowInfo
    } else {
        match subcommand {
            Some(Subcommand::Scan) => CliAction::Scan,
            Some(Subcommand::Mutate) => CliAction::Mutate,
            None => CliAction::ShowInfo,
        }
    }
}

/// The language of a run: the one given, else Noir; the flag tells whether
/// the default was taken (the run then says so).
pub fn resolve_language(language: Option<Language>) -> (r: (Language, bool))
    ensures
        r == match language {
            Some(l) => (l, false),
            None => (Language::Noir, true),
        },
{
    match language {
        Some(l) => (l, false),
        None => (Language::Noir, true),
    }
}

} // verus!
