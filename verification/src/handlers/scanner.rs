//! The results of a scan, and the scan itself on the texts of the sources.
use crate::handlers::mutator::{mutant_of_token, mutants, Mutant, MutantView};
use crate::languages::common::Language;
use crate::filters::test_pattern_compiles;
use crate::reporter::{count_tests, tests_in};
use crate::token::{MetaToken, MetaTokenView};
use crate::utils::{collect_tokens, collected_tokens, collection_fits};
use std::path::PathBuf;
use vstd::prelude::*;

verus! {

/// What a `ScanResult` holds.
pub struct ScanResultView {
    pub paths: Seq<PathBuf>,
    pub contains_unit_tests: Seq<PathBuf>,
    pub meta_tokens: Seq<MetaTokenView>,
    pub test_count: usize,
    pub mutants: Seq<MutantView>,
}

/// The results of a scan: the source files found, those holding unit tests,
/// the tokens found in those, the number of unit tests, and the mutants.
#[derive(Debug)]
pub struct ScanResult {
    paths: Vec<PathBuf>,
    contains_unit_tests: Vec<PathBuf>,
    meta_tokens: Vec<MetaToken>,
    test_count: usize,
    mutants: Vec<Mutant>,
}

impl View for ScanResult {
    type V = ScanResultView;

    closed spec fn view(&self) -> ScanResultView {
        ScanResultView {
            paths: self.paths@,
            contains_unit_tests: self.contains_unit_tests@,
            meta_tokens: self.meta_tokens@.map_values(|m: MetaToken| m@),
            test_count: self.test_count,
            mutants: self.mutants@.map_values(|m: Mutant| m@),
        }
    }
}

/// An owned copy of a list of paths.
fn copy_paths(paths: &Vec<PathBuf>) -> (r: Vec<PathBuf>)
    ensures
        r@ == paths@,
{
    let mut r: Vec<PathBuf> = Vec::new();
    let mut i: usize = 0;
    while i < paths.len()
        invariant
            i <= paths@.len(),
            r@ == paths@.take(i as int),
        decreases paths@.len() - i,
    {
        r.push(paths[i].clone());
        assert(r@ =~= paths@.take(i + 1));
        i = i + 1;
    }
    assert(r@ =~= paths@);
    r
}

impl Clone for ScanResult {
    fn clone(&self) -> (r: Self)
        ensures
            r@ == self@,
    {
        let mut meta_tokens: Vec<MetaToken> = Vec::new();
        let mut i: usize = 0;
        while i < self.meta_tokens.len()
            invariant
                i <= self.meta_tokens@.len(),
                meta_tokens@.map_values(|m: MetaToken| m@) == self.meta_tokens@.take(
                    i as int,
                ).map_values(|m: MetaToken| m@),
            decreases self.meta_tokens@.len() - i,
        {
            let c = self.meta_tokens[i].clone();
            assert(c@ == self.meta_tokens@[i as int]@);
            let ghost before = meta_tokens@.map_values(|m: MetaToken| m@);
            meta_tokens.push(c);
            assert(meta_tokens@.map_values(|m: MetaToken| m@) =~= before.push(c@));
            assert(self.meta_tokens@.take(i + 1).map_values(|m: MetaToken| m@) =~= self.meta_tokens@.take(
                i as int,
            ).map_values(|m: MetaToken| m@).push(self.meta_tokens@[i as int]@));
            assert(meta_tokens@.map_values(|m: MetaToken| m@) =~= self.meta_tokens@.take(
                i + 1,
            ).map_values(|m: MetaToken| m@));
            i = i + 1;
        }
        let mut mutants: Vec<Mutant> = Vec::new();
        let mut j: usize = 0;
        while j < self.mutants.len()
            invariant
                j <= self.mutants@.len(),
                mutants@.map_values(|m: Mutant| m@) == self.mutants@.take(j as int).map_values(
                    |m: Mutant| m@,
                ),
            decreases self.mutants@.len() - j,
        {
            let c = self.mutants[j].clone();
            assert(c@ == self.mutants@[j as int]@);
            let ghost before = mutants@.map_values(|m: Mutant| m@);
            mutants.push(c);
            assert(mutants@.map_values(|m: Mutant| m@) =~= before.push(c@));
            assert(self.mutants@.take(j + 1).map_values(|m: Mutant| m@) =~= self.mutants@.take(
                j as int,
            ).map_values(|m: Mutant| m@).push(self.mutants@[j as int]@));
            assert(mutants@.map_values(|m: Mutant| m@) =~= self.mutants@.take(j + 1).map_values(
                |m: Mutant| m@,
            ));
            j = j + 1;
        }
        assert(self.meta_tokens@.take(i as int) =~= self.meta_tokens@);
        assert(self.mutants@.take(j as int) =~= self.mutants@);
        ScanResult {
            paths: copy_paths(&self.paths),
            contains_unit_tests: copy_paths(&self.contains_unit_tests),
            meta_tokens,
            test_count: self.test_count,
            mutants,
        }
    }
}

impl ScanResult {
    pub fn new(
        paths: Vec<PathBuf>,
        contains_unit_tests: Vec<PathBuf>,
        meta_tokens: Vec<MetaToken>,
        test_count: usize,
        mutants: Vec<Mutant>,
    ) -> (r: ScanResult)
        ensures
            r@ == (ScanResultView {
                paths: paths@,
                contains_unit_tests: contains_unit_tests@,
                meta_tokens: meta_tokens@.map_values(|m: MetaToken| m@),
                test_count,
                mutants: mutants@.map_values(|m: Mutant| m@),
            }),
    {
        ScanResult { paths, contains_unit_tests, meta_tokens, test_count, mutants }
    }

    pub fn paths(&self) -> (r: &Vec<PathBuf>)
        ensures
            r@ == self@.paths,
    {
        &self.paths
    }

    pub fn contains_unit_tests(&self) -> (r: &Vec<PathBuf>)
        ensures
            r@ == self@.contains_unit_tests,
    {
        &self.contains_unit_tests
    }

    pub fn meta_tokens(&self) -> (r: &Vec<MetaToken>)
        ensures
            r@.map_values(|m: MetaToken| m@) == self@.meta_tokens,
    {
        &self.meta_tokens
    }

    pub fn test_count(&self) -> (r: usize)
        ensures
            r == self@.test_count,
    {
        self.test_count
    }

    /// The mutants, to be updated in place as the campaign runs them.
    pub fn mutants(&mut self) -> (r: &mut Vec<Mutant>)
        ensures
            r@.map_values(|m: Mutant| m@) == old(self)@.mutants,
            final(self)@ == (ScanResultView {
                mutants: final(r)@.map_values(|m: Mutant| m@),
                ..old(self)@
            }),
    {
        &mut self.mutants
    }
}

} // verus!

verus! {

/// The sources that hold at least one unit test, in order.
pub open spec fn tested_sources(sources: Seq<(PathBuf, String)>, language: Language) -> Seq<
    (PathBuf, String),
>
    decreases sources.len(),
{
    if sources.len() == 0 {
        seq![]
    } else {
        let prev = tested_sources(sources.drop_last(), language);
        if tests_in(language, sources.last().1@) > 0 {
            prev.push(sources.last())
        } else {
            prev
        }
    }
}

/// The number of unit tests in all sources.
pub open spec fn total_tests(sources: Seq<(PathBuf, String)>, language: Language) -> int
    decreases sources.len(),
{
    if sources.len() == 0 {
        0
    } else {
        total_tests(sources.drop_last(), language) + tests_in(language, sources.last().1@)
    }
}

/// The unit tests of a prefix of the sources are no more than those of all.
proof fn lemma_total_tests_prefix(sources: Seq<(PathBuf, String)>, language: Language, k: int)
    requires
        0 <= k <= sources.len(),
    ensures
        total_tests(sources.take(k), language) <= total_tests(sources, language),
    decreases sources.len(),
{
    if k < sources.len() {
        assert(sources.drop_last().take(k) =~= sources.take(k));
        lemma_total_tests_prefix(sources.drop_last(), language, k);
    } else {
        assert(sources.take(k) =~= sources);
    }
}

/// The inputs on which a scan succeeds: the test pattern compiles, the test
/// count fits a `usize`, some source holds a unit test, and the tokens of
/// those sources can be collected.
pub open spec fn scan_succeeds(sources: Seq<(PathBuf, String)>, language: Language) -> bool {
    let tested = tested_sources(sources, language);
    &&& test_pattern_compiles(language)
    &&& total_tests(sources, language) <= usize::MAX
    &&& tested.len() > 0
    &&& collection_fits(tested, language)
}

/// The paths of some sources.
pub open spec fn paths_of(sources: Seq<(PathBuf, String)>) -> Seq<PathBuf> {
    sources.map_values(|s: (PathBuf, String)| s.0)
}

/// Scans the texts of the source files found: counts their unit tests,
/// collects the tokens of the files that hold tests, and builds one mutant
/// per token.  `None` exactly when no file holds a unit test (there is then
/// nothing to mutate), when the test count overflows, or when `count_tests`
/// or `collect_tokens` gives `None` (see `scan_succeeds`).
pub fn scan_sources(sources: &Vec<(PathBuf, String)>, language: &Language, random: bool) -> (r:
    Option<ScanResult>)
    ensures
        r is Some <==> scan_succeeds(sources@, *language),
        r matches Some(result) ==> {
            let tested = tested_sources(sources@, *language);
            &&& tested.len() > 0
            &&& result@.paths == paths_of(sources@)
            &&& result@.contains_unit_tests == paths_of(tested)
            &&& result@.test_count == total_tests(sources@, *language)
            &&& result@.meta_tokens == collected_tokens(tested, *language)
            &&& result@.mutants.len() == result@.meta_tokens.len()
            &&& forall|i: int|
                0 <= i < result@.mutants.len() ==> mutant_of_token(
                    #[trigger] result@.meta_tokens[i],
                    result@.mutants[i],
                    random,
                )
        },
{
    let mut paths: Vec<PathBuf> = Vec::new();
    let mut tested: Vec<(PathBuf, String)> = Vec::new();
    let mut tested_paths: Vec<PathBuf> = Vec::new();
    let mut test_count: usize = 0;
    let mut i: usize = 0;
    while i < sources.len()
        invariant
            i <= sources@.len(),
            paths@ == paths_of(sources@.take(i as int)),
            tested@ == tested_sources(sources@.take(i as int), *language),
            tested_paths@ == paths_of(tested@),
            test_count == total_tests(sources@.take(i as int), *language),
            i > 0 ==> test_pattern_compiles(*language),
        decreases sources@.len() - i,
    {
        let path = sources[i].0.clone();
        let text = &sources[i].1;
        let n = match count_tests(text.as_str(), language) {
            Some(n) => n,
            None => return None,
        };
        assert(sources@.take(i + 1).drop_last() =~= sources@.take(i as int));
        test_count = match test_count.checked_add(n) {
            Some(t) => t,
            None => {
                proof {
                    lemma_total_tests_prefix(sources@, *language, i + 1);
                }
                return None;
            },
        };
        if n > 0 {
            tested.push((sources[i].0.clone(), sources[i].1.clone()));
            tested_paths.push(sources[i].0.clone());
            assert(paths_of(tested@) =~= paths_of(tested@.drop_last()).push(sources@[i as int].0));
        }
        paths.push(path);
        assert(paths@ =~= paths_of(sources@.take(i + 1)));
        i = i + 1;
    }
    assert(sources@.take(i as int) =~= sources@);
    if tested.len() == 0 {
        return None;
    }
    let meta_tokens = match collect_tokens(&tested, language) {
        Some(t) => t,
        None => return None,
    };
    let mutants = mutants(&meta_tokens, random);
    let result = ScanResult::new(paths, tested_paths, meta_tokens, test_count, mutants);
    assert forall|i: int| 0 <= i < result@.mutants.len() implies mutant_of_token(
        #[trigger] result@.meta_tokens[i],
        result@.mutants[i],
        random,
    ) by {}
    Some(result)
}

} // verus!
