use hunter::cli::{cli_action, resolve_language, CliAction, Subcommand};
use hunter::config::LanguageConfig;
use hunter::file_manager::{classify_entry, is_excluded_dir, EntryAction};
use hunter::filters::{comment_regex, literal_regex, test_regex};
use hunter::handlers::mutator::{
    any_survived, apply_mutant, mutant_builder as build_mutant, mutants, token_at,
    MutationStatus as CampaignStatus,
};
use hunter::handlers::scanner::{scan_sources, ScanResult};
use hunter::languages::common::{parse_language, Language};
use hunter::languages::noir::NoirConfig;
use hunter::languages::solidity::{skips_entry, SolidityConfig};
use hunter::parallel::test_run_status;
use hunter::processor::{classify_run, record_run, MutationTally, RunOutcome};
use hunter::reporter::{count_tests, is_reportable, required_test_runs, span_line};
use hunter::stages::{load_src_files, mutate, report, run_tests};
use hunter::token::{
    raw_string_as_token, token_as_bytes, token_mutation, token_patterns, MetaToken,
    MutationStatus, Token,
};
use hunter::utils::{
    collect_tokens, file_tokens, replace_bytes, replace_bytes_accepted, select_tokens,
    token_regexes,
};
use std::path::PathBuf;
use std::str::FromStr;

const ALL_TOKENS: [Token; 28] = [
    Token::Less,
    Token::LessEqual,
    Token::Greater,
    Token::GreaterEqual,
    Token::Equal,
    Token::NotEqual,
    Token::Plus,
    Token::Minus,
    Token::Star,
    Token::Slash,
    Token::Percent,
    Token::Ampersand,
    Token::Caret,
    Token::ShiftLeft,
    Token::ShiftRight,
    Token::Pipe,
    Token::Increment,
    Token::Decrement,
    Token::PlusEquals,
    Token::MinusEquals,
    Token::StarEquals,
    Token::SlashEquals,
    Token::PercentEquals,
    Token::AmpersandEquals,
    Token::PipeEquals,
    Token::CaretEquals,
    Token::ShiftLeftEquals,
    Token::ShiftRightEquals,
];

#[test]
fn mutation_never_keeps_the_token() {
    for t in ALL_TOKENS {
        assert_ne!(token_mutation(t).unwrap(), t);
    }
}

#[test]
fn mutation_twice_restores_symmetric_tokens() {
    for t in ALL_TOKENS {
        let twice = token_mutation(token_mutation(t).unwrap()).unwrap();
        match t {
            Token::Caret | Token::Percent | Token::CaretEquals | Token::PercentEquals => {
                assert_ne!(twice, t)
            }
            _ => assert_eq!(twice, t),
        }
    }
    assert_eq!(token_mutation(Token::Caret), Some(Token::Ampersand));
    assert_eq!(token_mutation(Token::Ampersand), Some(Token::Pipe));
}

#[test]
fn spellings_are_short_and_distinct() {
    for a in ALL_TOKENS {
        let sa = token_as_bytes(&a).unwrap();
        assert!(!sa.is_empty() && sa.len() <= 3);
        for b in ALL_TOKENS {
            if a != b {
                assert_ne!(sa, token_as_bytes(&b).unwrap());
            }
        }
    }
}

#[test]
fn every_pattern_names_a_distinct_token() {
    let patterns = token_patterns();
    assert_eq!(patterns.len(), 28);
    let named: Vec<Token> = patterns.iter().map(|p| raw_string_as_token(p).unwrap()).collect();
    for t in ALL_TOKENS {
        assert_eq!(named.iter().filter(|n| **n == t).count(), 1);
    }
    assert_eq!(raw_string_as_token(r"\+"), Some(Token::Plus));
    assert_eq!(raw_string_as_token("+"), None);
    assert_eq!(raw_string_as_token(""), None);
    assert_eq!(raw_string_as_token(">>="), Some(Token::ShiftRightEquals));
}

#[test]
fn replacing_a_token_with_its_mutation_substitutes_it() {
    for t in ALL_TOKENS {
        let old = token_as_bytes(&t).unwrap();
        let new = token_as_bytes(&token_mutation(t).unwrap()).unwrap();
        let mut text = b"x ".to_vec();
        text.extend_from_slice(old);
        text.extend_from_slice(b" y");
        let mut expected = b"x ".to_vec();
        expected.extend_from_slice(new);
        expected.extend_from_slice(b" y");
        assert!(replace_bytes_accepted(&text, 2, old, new));
        replace_bytes(&mut text, 2, old, new);
        assert_eq!(text, expected);
    }
}

#[test]
fn replace_bytes_refuses_what_would_panic() {
    let text = b"a >".to_vec();
    assert!(!replace_bytes_accepted(&text, 2, b"<=", b">"));
    assert!(replace_bytes_accepted(&text, 2, b">", b"<="));
    assert!(!replace_bytes_accepted(&text, 0, b"abcd", b"abcd"));
    assert!(!replace_bytes_accepted(&text, 0, b"+", b""));
    assert!(!replace_bytes_accepted(&b"abc".to_vec(), 0, b"!", b""));
    let mut with_bang = b"x = !a && !b".to_vec();
    assert!(replace_bytes_accepted(&with_bang, 0, b"!", b""));
    replace_bytes(&mut with_bang, 0, b"!", b"");
    assert_eq!(with_bang, b"x = a && !b");
}

#[test]
fn language_names_read_back_in_any_case() {
    assert_eq!(parse_language("Noir"), Ok(Language::Noir));
    assert_eq!(parse_language("NOIR"), Ok(Language::Noir));
    assert_eq!(parse_language("SoLiDiTy"), Ok(Language::Solidity));
    assert_eq!(Language::from_str("noir"), Ok(Language::Noir));
    assert_eq!(
        parse_language("rust"),
        Err("No matching languages supported. Current supported languages are: Noir, Solidity"
            .to_string())
    );
    assert_eq!(Language::list(), "Noir, Solidity");
    assert_eq!(parse_language(NoirConfig.name()), Ok(Language::Noir));
    assert_eq!(parse_language(SolidityConfig.name()), Ok(Language::Solidity));
}

#[test]
fn language_settings() {
    assert_eq!(NoirConfig.language(), Language::Noir);
    assert_eq!(NoirConfig.ext(), "nr");
    assert_eq!(NoirConfig.test_runner(), "nargo");
    assert_eq!(NoirConfig.test_command(), "test");
    assert_eq!(NoirConfig.build_command(), "build");
    assert_eq!(NoirConfig.manifest_name(), "Nargo.toml");
    assert_eq!(NoirConfig.excluded_dirs(), vec!["temp", "target", "test", "tests"]);
    assert!(NoirConfig.filter_tests());
    assert_eq!(NoirConfig.test_regex(), test_regex(&Language::Noir));
    assert_eq!(SolidityConfig.language(), Language::Solidity);
    assert_eq!(SolidityConfig.ext(), "sol");
    assert_eq!(SolidityConfig.test_runner(), "forge");
    assert_eq!(SolidityConfig.manifest_name(), "Foundry.toml");
    assert_eq!(
        SolidityConfig.excluded_dirs(),
        vec!["temp", "target", "test", "tests", "lib", "node_modules"]
    );
    assert!(!SolidityConfig.filter_tests());
    assert_eq!(SolidityConfig.test_regex(), None);
    assert_eq!(SolidityConfig.comment_regex(), comment_regex(&Language::Noir));
    assert_eq!(SolidityConfig.literal_regex(), literal_regex(&Language::Solidity));
    assert_eq!(comment_regex(&Language::Noir), r"//.*|/\*(?s:.*?)\*/");
    assert_eq!(literal_regex(&Language::Noir), r#""([^"\\]|\\.)*""#);
}

const NOIR_SOURCE: &str = "fn main(x: Field, y: Field) {\n    assert(x == y);\n    // a comment with x != y\n    let s = \"a + b\";\n    let z = x + y;\n}\n\n#[test]\nfn test_main() {\n    main(1, 1);\n    assert(1 == 1);\n}\n";

#[test]
fn tokens_outside_comments_tests_and_literals() {
    let path = PathBuf::from("src/main.nr");
    let tokens = file_tokens(NOIR_SOURCE, &path, &Language::Noir, 0).unwrap();
    let found: Vec<(Token, (u32, u32), u32)> =
        tokens.iter().map(|t| (*t.token(), t.span(), t.id())).collect();
    let eq = NOIR_SOURCE.find("x == y").unwrap() as u32 + 2;
    let plus = NOIR_SOURCE.find("x + y").unwrap() as u32 + 2;
    assert_eq!(found, vec![(Token::Equal, (eq, eq + 3), 0), (Token::Plus, (plus, plus + 2), 1)]);
    assert_eq!(tokens[0].src(), &path);
    assert_eq!(&NOIR_SOURCE.as_bytes()[eq as usize..eq as usize + 2], b"==");
}

#[test]
fn collected_tokens_are_numbered_across_files() {
    let sources = vec![
        (PathBuf::from("a.nr"), NOIR_SOURCE.to_string()),
        (PathBuf::from("b.nr"), "fn f(a: u8) -> bool { a < 3 }".to_string()),
    ];
    let tokens = collect_tokens(&sources, &Language::Noir).unwrap();
    assert_eq!(tokens.len(), 3);
    assert_eq!(tokens.iter().map(|t| t.id()).collect::<Vec<_>>(), vec![0, 1, 2]);
    assert_eq!(*tokens[2].token(), Token::Less);
    assert_eq!(tokens[2].src(), &PathBuf::from("b.nr"));
    assert_eq!(collect_tokens(&Vec::new(), &Language::Noir), None);
}

#[test]
fn select_tokens_drops_filtered_matches_and_checks_bounds() {
    let path = PathBuf::from("f.nr");
    let kinds = vec![
        (Token::Equal, vec![(4, 8), (20, 24)]),
        (Token::Minus, vec![(30, 33)]),
    ];
    let filters = vec![(15, 30)];
    let tokens = select_tokens(&kinds, &filters, &path, 7).unwrap();
    let found: Vec<(Token, (u32, u32), u32)> =
        tokens.iter().map(|t| (*t.token(), t.span(), t.id())).collect();
    assert_eq!(found, vec![(Token::Equal, (5, 8), 7), (Token::Minus, (31, 33), 8)]);
    assert!(select_tokens(&kinds, &filters, &path, u32::MAX - 1).is_none());
    let too_far = vec![(Token::Plus, vec![(u32::MAX as usize, u32::MAX as usize + 2)])];
    assert!(select_tokens(&too_far, &Vec::new(), &path, 0).is_none());
}

#[test]
fn token_regexes_cover_every_token_once() {
    let regexes = token_regexes();
    assert_eq!(regexes.len(), 28);
    for t in ALL_TOKENS {
        assert_eq!(regexes.iter().filter(|(r, _)| *r == t).count(), 1);
    }
}

#[test]
fn counting_unit_tests() {
    assert_eq!(count_tests(NOIR_SOURCE, &Language::Noir), Some(1));
    assert_eq!(count_tests("fn main() {}", &Language::Noir), Some(0));
    assert_eq!(count_tests(NOIR_SOURCE, &Language::Solidity), Some(0));
    assert_eq!(required_test_runs(4, 3), Some(12));
    assert_eq!(required_test_runs(usize::MAX, 2), None);
}

#[test]
fn scanning_sources() {
    let sources = vec![
        (PathBuf::from("lib.nr"), NOIR_SOURCE.to_string()),
        (PathBuf::from("util.nr"), "fn g(a: u8) -> u8 { a * 2 }".to_string()),
    ];
    let mut result: ScanResult = scan_sources(&sources, &Language::Noir, false).unwrap();
    assert_eq!(result.paths(), &vec![PathBuf::from("lib.nr"), PathBuf::from("util.nr")]);
    assert_eq!(result.contains_unit_tests(), &vec![PathBuf::from("lib.nr")]);
    assert_eq!(result.test_count(), 1);
    assert_eq!(result.meta_tokens().len(), 2);
    let ms = result.mutants();
    assert_eq!(ms.len(), 2);
    assert_eq!(ms[0].mutation(), Token::NotEqual);
    assert_eq!(ms[1].mutation(), Token::Minus);
    ms[0].set_status(CampaignStatus::Killed);
    assert_eq!(result.mutants()[0].status(), CampaignStatus::Killed);
    let untested = vec![(PathBuf::from("util.nr"), "fn g() {}".to_string())];
    assert!(scan_sources(&untested, &Language::Noir, false).is_none());
}

#[test]
fn mutants_follow_their_tokens() {
    let tokens = vec![
        MetaToken::new(Token::Less, (3, 5), Box::new(PathBuf::from("a.nr")), 0),
        MetaToken::new(Token::PlusEquals, (10, 13), Box::new(PathBuf::from("b.nr")), 1),
    ];
    let built = mutants(&tokens, false);
    assert_eq!(built.len(), 2);
    assert_eq!(built[0].token(), Token::Less);
    assert_eq!(built[0].mutation(), Token::GreaterEqual);
    assert_eq!(built[0].bytes(), b">=".to_vec());
    assert_eq!(built[1].id(), 1);
    assert_eq!(built[1].span(), (10, 13));
    assert_eq!(built[1].path(), &PathBuf::from("b.nr"));
    assert_eq!(built[1].bytes(), b"-=".to_vec());
    assert_eq!(built[1].status(), CampaignStatus::Pending);
    let random = build_mutant(5, Token::Star, (1, 2), PathBuf::from("c.nr"), true).unwrap();
    assert_eq!(random.token(), Token::Star);
    assert_eq!(random.bytes(), token_as_bytes(&random.mutation()).unwrap().to_vec());
    assert_eq!(token_at(0), Token::Equal);
    assert_eq!(token_at(29), Token::NotEqual);
}

#[test]
fn applying_a_mutant_rewrites_the_source() {
    let text = "assert(c as u64 <= x as u64);";
    let start = text.find("<=").unwrap() as u32;
    let m = build_mutant(0, Token::LessEqual, (start, start + 3), PathBuf::from("a.nr"), false)
        .unwrap();
    let mut bytes = text.as_bytes().to_vec();
    assert!(apply_mutant(&mut bytes, &m));
    assert_eq!(bytes, b"assert(c as u64 > x as u64);".to_vec());
    let mut short = b"<".to_vec();
    assert!(!apply_mutant(&mut short, &m));
    assert_eq!(short, b"<".to_vec());
}

#[test]
fn runs_are_judged_by_exit_codes() {
    assert_eq!(classify_run(Some(0), Some(0)), RunOutcome::Survived);
    assert_eq!(classify_run(Some(0), Some(1)), RunOutcome::Killed);
    assert_eq!(classify_run(Some(0), None), RunOutcome::TestsCrashed);
    assert_eq!(classify_run(Some(2), Some(0)), RunOutcome::Unbuildable);
    assert_eq!(classify_run(None, Some(0)), RunOutcome::BuildCrashed);
}

#[test]
fn tally_counts_each_mutant_once() {
    let mut tally = MutationTally::new(3);
    let mut m = build_mutant(0, Token::Plus, (1, 2), PathBuf::from("a.nr"), false).unwrap();
    assert!(record_run(&mut m, &mut tally, Some(0), Some(0)));
    assert_eq!(m.status(), CampaignStatus::Survived);
    assert!(record_run(&mut m, &mut tally, Some(0), Some(101)));
    assert_eq!(m.status(), CampaignStatus::Killed);
    assert!(!record_run(&mut m, &mut tally, None, None));
    assert_eq!(m.status(), CampaignStatus::Killed);
    assert!(record_run(&mut m, &mut tally, Some(1), None));
    assert_eq!(m.status(), CampaignStatus::Unbuildable);
    assert_eq!(
        (tally.total(), tally.pending(), tally.survived(), tally.destroyed(), tally.unbuildable()),
        (3, 0, 1, 1, 1)
    );
    tally.record(RunOutcome::Killed);
    assert_eq!(tally.destroyed(), 1);
}

#[test]
fn reportable_and_surviving_mutants() {
    let mut a = build_mutant(0, Token::Plus, (1, 2), PathBuf::from("a.nr"), false).unwrap();
    let mut b = a.clone();
    assert!(is_reportable(&a));
    a.set_status(CampaignStatus::Killed);
    assert!(!is_reportable(&a));
    assert!(!any_survived(&vec![a.clone()]));
    b.set_status(CampaignStatus::Survived);
    assert!(is_reportable(&b));
    assert!(any_survived(&vec![a, b]));
}

#[test]
fn test_output_statuses() {
    assert_eq!(test_run_status(true, ""), Some(MutationStatus::Survived));
    assert_eq!(test_run_status(false, "test failed: x"), Some(MutationStatus::Killed));
    assert_eq!(test_run_status(false, "1 FAILED"), Some(MutationStatus::Killed));
    assert_eq!(
        test_run_status(false, "FAILED; aborting due to 1 previous errors"),
        None
    );
    assert_eq!(test_run_status(false, "error"), None);
}

#[test]
fn line_of_a_span() {
    let lines = vec![10, 4, 20];
    assert_eq!(span_line(&lines, (2, 8)), Some(0));
    assert_eq!(span_line(&lines, (12, 15)), Some(1));
    assert_eq!(span_line(&lines, (17, 30)), Some(2));
    assert_eq!(span_line(&lines, (8, 13)), None);
    assert_eq!(span_line(&Vec::new(), (0, 0)), None);
}

#[test]
fn directory_decisions() {
    let excluded = vec!["temp/", "target", "tests"];
    assert!(is_excluded_dir(&excluded, "temp"));
    assert!(!is_excluded_dir(&excluded, "temp/"));
    assert!(!is_excluded_dir(&excluded, "src"));
    assert_eq!(classify_entry(&excluded, true, ".", "target", None, "nr"), EntryAction::Skip);
    assert_eq!(classify_entry(&excluded, true, "tests", "x", None, "nr"), EntryAction::Skip);
    assert_eq!(classify_entry(&excluded, true, ".", "src", None, "nr"), EntryAction::Descend);
    assert_eq!(classify_entry(&excluded, false, ".", "a.nr", Some("nr"), "nr"), EntryAction::Collect);
    assert_eq!(classify_entry(&excluded, false, ".", "a.sol", Some("sol"), "nr"), EntryAction::Ignore);
    assert_eq!(classify_entry(&excluded, false, ".", "Makefile", None, "nr"), EntryAction::Ignore);
    assert!(skips_entry("/p/cache/x.json"));
    assert!(skips_entry("/p/broadcast"));
    assert!(skips_entry("/p/README.md"));
    assert!(!skips_entry("/p/src/Counter.sol"));
}

#[test]
fn command_line_decisions() {
    assert_eq!(cli_action(true, Some(Subcommand::Scan)), CliAction::ShowInfo);
    assert_eq!(cli_action(false, None), CliAction::ShowInfo);
    assert_eq!(cli_action(false, Some(Subcommand::Scan)), CliAction::Scan);
    assert_eq!(cli_action(false, Some(Subcommand::Mutate)), CliAction::Mutate);
    assert_eq!(resolve_language(None), (Language::Noir, true));
    assert_eq!(resolve_language(Some(Language::Solidity)), (Language::Solidity, false));
}

#[test]
fn meta_token_accessors() {
    let mut t = MetaToken::new(Token::Caret, (4, 6), Box::new(PathBuf::from("m.nr")), 9);
    assert_eq!(*t.token(), Token::Caret);
    assert_eq!((t.span_start(), t.span_end(), t.id()), (4, 6, 9));
    t.set_span((7, 8));
    assert_eq!(t.span(), (7, 8));
    assert_eq!(t.clone(), t);
}

#[test]
fn first_stages_do_nothing() {
    load_src_files(None);
    mutate();
    run_tests();
    report();
}

#[test]
fn mutating_back_restores_the_text() {
    let text = b"let z = a << b;".to_vec();
    let start = 10;
    let once_m = build_mutant(0, Token::ShiftLeft, (start, start + 3), PathBuf::from("a.nr"), false)
        .unwrap();
    let mut bytes = text.clone();
    assert!(apply_mutant(&mut bytes, &once_m));
    assert_eq!(bytes, b"let z = a >> b;".to_vec());
    let back = build_mutant(1, Token::ShiftRight, (start, start + 3), PathBuf::from("a.nr"), false)
        .unwrap();
    assert!(apply_mutant(&mut bytes, &back));
    assert_eq!(bytes, text);
}
