//! Rewriting source bytes, and deciding which found tokens lie inside
//! regions that must not be mutated.
use crate::token::{mutation_of, spelling, MetaToken, MetaTokenView, Token};
use crate::filters::{
    comment_pattern,
    comment_regex,
    literal_pattern,
    literal_regex,
    test_pattern_compiles,
    test_pattern_of,
    test_regex,
};
use crate::languages::common::Language;
use crate::matching::{find_matches, regex_compiles, regex_matches};
use std::path::PathBuf;
use std::ops::Range;
use vstd::prelude::*;

verus! {

/// `token` lies strictly inside `filter`: it starts after the filter starts
/// and ends before it ends.
pub fn overlaps(filter: &Range<usize>, token: &Range<u32>) -> (r: bool)
    ensures
        r == (token.start > filter.start && token.end < filter.end),
{
    (token.start as usize) > filter.start && (token.end as usize) < filter.end
}

/// The byte `!`.
pub open spec fn bang() -> u8 {
    33u8
}

/// `replacement` is `>` or `<`.
pub open spec fn is_single_angle(replacement: Seq<u8>) -> bool {
    replacement == seq![62u8] || replacement == seq![60u8]
}

/// `replacement` is `>=` or `<=`.
pub open spec fn is_angle_equal(replacement: Seq<u8>) -> bool {
    replacement == seq![62u8, 61u8] || replacement == seq![60u8, 61u8]
}

/// The inputs on which `replace_bytes` does its work: an empty replacement
/// removes a `!` (the replaced token must start with `!` and the text must
/// hold one); otherwise the replacement is one to three bytes long and the
/// span it overwrites lies within the text.
pub open spec fn replace_bytes_accepts(
    original: Seq<u8>,
    start: int,
    original_token: Seq<u8>,
    replacement: Seq<u8>,
) -> bool {
    if replacement.len() == 0 {
        original_token.len() > 0 && original_token[0] == bang() && original.contains(bang())
    } else if replacement.len() == 1 {
        if is_single_angle(replacement) {
            start + 2 <= original.len()
        } else {
            start + 1 <= original.len()
        }
    } else if replacement.len() == 2 {
        if is_angle_equal(replacement) {
            start + 1 <= original.len()
        } else {
            start + 2 <= original.len()
        }
    } else if replacement.len() == 3 {
        start + 3 <= original.len()
    } else {
        false
    }
}

/// How many bytes of the original text, from `start` on, a replacement
/// overwrites: `>` and `<` stand in for the two-byte `<=` and `>=`; `>=` and
/// `<=` stand in for the one-byte `<` and `>`; any other replacement
/// overwrites as many bytes as it has.
pub open spec fn replaced_len(replacement: Seq<u8>) -> int {
    if is_single_angle(replacement) {
        2
    } else if is_angle_equal(replacement) {
        1
    } else {
        replacement.len() as int
    }
}

/// The text after `replace_bytes`: the first `!` removed for an empty
/// replacement, else the replacement written over `replaced_len` bytes at `start`.
pub open spec fn replaced_bytes(
    original: Seq<u8>,
    start: int,
    original_token: Seq<u8>,
    replacement: Seq<u8>,
) -> Seq<u8> {
    if replacement.len() == 0 {
        original.remove_value(bang())
    } else {
        original.subrange(0, start) + replacement + original.subrange(
            start + replaced_len(replacement),
            original.len() as int,
        )
    }
}

/// `original[..start] + replacement + original[cut_end..]`.
fn splice_bytes(original: &Vec<u8>, start: usize, cut_end: usize, replacement: &[u8]) -> (r: Vec<
    u8,
>)
    requires
        start <= cut_end <= original@.len(),
    ensures
        r@ == original@.subrange(0, start as int) + replacement@ + original@.subrange(
            cut_end as int,
            original@.len() as int,
        ),
{
    let mut r: Vec<u8> = Vec::new();
    let mut i: usize = 0;
    while i < start
        invariant
            i <= start <= cut_end <= original@.len(),
            r@ == original@.subrange(0, i as int),
        decreases start - i,
    {
        r.push(original[i]);
        i = i + 1;
    }
    let mut j: usize = 0;
    while j < replacement.len()
        invariant
            start <= cut_end <= original@.len(),
            j <= replacement@.len(),
            r@ == original@.subrange(0, start as int) + replacement@.subrange(0, j as int),
        decreases replacement@.len() - j,
    {
        r.push(replacement[j]);
        j = j + 1;
    }
    assert(replacement@.subrange(0, j as int) =~= replacement@);
    let mut k: usize = cut_end;
    while k < original.len()
        invariant
            start <= cut_end <= k <= original@.len(),
            r@ == original@.subrange(0, start as int) + replacement@ + original@.subrange(
                cut_end as int,
                k as int,
            ),
        decreases original@.len() - k,
    {
        r.push(original[k]);
        k = k + 1;
    }
    assert(r@ =~= original@.subrange(0, start as int) + replacement@ + original@.subrange(
        cut_end as int,
        original@.len() as int,
    ));
    r
}

/// The index of the first `!` in `bytes`.
fn first_bang(bytes: &Vec<u8>) -> (r: usize)
    requires
        bytes@.contains(bang()),
    ensures
        r < bytes@.len(),
        bytes@.index_of_first(bang()) == Some(r as int),
{
    proof {
        bytes@.index_of_first_ensures(bang());
    }
    let ghost first = bytes@.index_of_first(bang()).unwrap();
    let mut i: usize = 0;
    while i < bytes.len()
        invariant
            i <= bytes@.len(),
            0 <= first < bytes@.len(),
            bytes@[first] == bang(),
            forall|j: int| 0 <= j < first ==> bytes@[j] != bang(),
            forall|j: int| 0 <= j < i ==> bytes@[j] != bang(),
            bytes@.index_of_first(bang()) == Some(first),
        decreases bytes@.len() - i,
    {
        if bytes[i] == 33u8 {
            assert(i as int == first);
            return i;
        }
        i = i + 1;
    }
    assert(false);
    0
}

/// Rewrites a mutated operator into source bytes.  An empty replacement
/// removes the first `!` of the text; otherwise `replacement` is written at
/// `start_index` over `replaced_len(replacement)` bytes, so that a one-byte
/// `>`/`<` replaces a two-byte `<=`/`>=` and the other way round.
pub fn replace_bytes(
    original_bytes: &mut Vec<u8>,
    start_index: usize,
    original_token_as_bytes: &[u8],
    replacement: &[u8],
)
    requires
        replace_bytes_accepts(
            old(original_bytes)@,
            start_index as int,
            original_token_as_bytes@,
            replacement@,
        ),
    ensures
        final(original_bytes)@ == replaced_bytes(
            old(original_bytes)@,
            start_index as int,
            original_token_as_bytes@,
            replacement@,
        ),
{
    let replacement_length = replacement.len();
    if replacement_length == 0 {
        let bang_index = first_bang(original_bytes);
        original_bytes.remove(bang_index);
    } else {
        let single_angle = replacement_length == 1 && (replacement[0] == 62u8 || replacement[0]
            == 60u8);
        let angle_equal = replacement_length == 2 && (replacement[0] == 62u8 || replacement[0]
            == 60u8) && replacement[1] == 61u8;
        proof {
            lemma_angle_forms(replacement@);
        }
        let cut = if single_angle {
            2
        } else if angle_equal {
            1
        } else {
            replacement_length
        };
        let n = original_bytes.len();
        assert(start_index + cut <= n);
        let spliced = splice_bytes(original_bytes, start_index, start_index + cut, replacement);
        *original_bytes = spliced;
    }
}

/// Writing the mutation of an operator over the operator's own spelling
/// replaces exactly that spelling: for every operator `t` spelled at `start`,
/// `replace_bytes` with the spellings of `t` and of its mutation yields the
/// text with the one spelling substituted for the other.
pub proof fn lemma_replace_substitutes_mutation(original: Seq<u8>, start: int, t: Token)
    requires
        0 <= start,
        start + spelling(t).len() <= original.len(),
    ensures
        replace_bytes_accepts(original, start, spelling(t), spelling(mutation_of(t))),
        replaced_bytes(original, start, spelling(t), spelling(mutation_of(t))) == original.subrange(
            0,
            start,
        ) + spelling(mutation_of(t)) + original.subrange(
            start + spelling(t).len(),
            original.len() as int,
        ),
{
    let r = spelling(mutation_of(t));
    lemma_angle_forms(r);
}

/// The two angle forms, by length and bytes.
proof fn lemma_angle_forms(r: Seq<u8>)
    ensures
        is_single_angle(r) == (r.len() == 1 && (r[0] == 62u8 || r[0] == 60u8)),
        is_angle_equal(r) == (r.len() == 2 && (r[0] == 62u8 || r[0] == 60u8) && r[1] == 61u8),
{
    if r.len() == 1 && (r[0] == 62u8 || r[0] == 60u8) {
        assert(r =~= seq![62u8] || r =~= seq![60u8]);
    }
    if r.len() == 2 && (r[0] == 62u8 || r[0] == 60u8) && r[1] == 61u8 {
        assert(r =~= seq![62u8, 61u8] || r =~= seq![60u8, 61u8]);
    }
}

} // verus!

verus! {

/// The regular expression that finds an operator in source text: its
/// spelling with an ASCII blank on either side.
pub open spec fn token_regex_of(t: Token) -> Seq<char> {
    match t {
        Token::Equal => r"[ \t\r\n](==)[ \t\r\n]"@,
        Token::NotEqual => r"[ \t\r\n](!=)[ \t\r\n]"@,
        Token::Less => r"[ \t\r\n](<)[ \t\r\n]"@,
        Token::LessEqual => r"[ \t\r\n](<=)[ \t\r\n]"@,
        Token::Greater => r"[ \t\r\n](>)[ \t\r\n]"@,
        Token::GreaterEqual => r"[ \t\r\n](>=)[ \t\r\n]"@,
        Token::Ampersand => r"[ \t\r\n](&)[ \t\r\n]"@,
        Token::Pipe => r"[ \t\r\n](\|)[ \t\r\n]"@,
        Token::Caret => r"[ \t\r\n](\^)[ \t\r\n]"@,
        Token::ShiftLeft => r"[ \t\r\n](<<)[ \t\r\n]"@,
        Token::ShiftRight => r"[ \t\r\n](>>)[ \t\r\n]"@,
        Token::Plus => r"[ \t\r\n](\+)[ \t\r\n]"@,
        Token::Minus => r"[ \t\r\n](-)[ \t\r\n]"@,
        Token::Star => r"[ \t\r\n](\*)[ \t\r\n]"@,
        Token::Slash => r"[ \t\r\n](/)[ \t\r\n]"@,
        Token::Percent => r"[ \t\r\n](%)[ \t\r\n]"@,
        Token::Increment => r"[ \t\r\n](\+\+)[ \t\r\n]"@,
        Token::Decrement => r"[ \t\r\n](--)[ \t\r\n]"@,
        Token::PlusEquals => r"[ \t\r\n](\+=)[ \t\r\n]"@,
        Token::MinusEquals => r"[ \t\r\n](-=)[ \t\r\n]"@,
        Token::StarEquals => r"[ \t\r\n](\*=)[ \t\r\n]"@,
        Token::SlashEquals => r"[ \t\r\n](/=)[ \t\r\n]"@,
        Token::PercentEquals => r"[ \t\r\n](%=)[ \t\r\n]"@,
        Token::AmpersandEquals => r"[ \t\r\n](&=)[ \t\r\n]"@,
        Token::PipeEquals => r"[ \t\r\n](\|=)[ \t\r\n]"@,
        Token::CaretEquals => r"[ \t\r\n](\^=)[ \t\r\n]"@,
        Token::ShiftLeftEquals => r"[ \t\r\n](<<=)[ \t\r\n]"@,
        Token::ShiftRightEquals => r"[ \t\r\n](>>=)[ \t\r\n]"@,
    }
}

/// The operators, in the order in which a scan looks for them.
pub open spec fn scan_order() -> Seq<Token> {
    seq![
        Token::Equal,
        Token::NotEqual,
        Token::Less,
        Token::LessEqual,
        Token::Greater,
        Token::GreaterEqual,
        Token::Ampersand,
        Token::Pipe,
        Token::Caret,
        Token::ShiftLeft,
        Token::ShiftRight,
        Token::Plus,
        Token::Minus,
        Token::Star,
        Token::Slash,
        Token::Percent,
        Token::Increment,
        Token::Decrement,
        Token::PlusEquals,
        Token::MinusEquals,
        Token::StarEquals,
        Token::SlashEquals,
        Token::PercentEquals,
        Token::AmpersandEquals,
        Token::PipeEquals,
        Token::CaretEquals,
        Token::ShiftLeftEquals,
        Token::ShiftRightEquals,
    ]
}

/// The characters that have a meaning of their own in a regular expression
/// outside a character class.
pub open spec fn is_regex_special(c: char) -> bool {
    c == '\\' || c == '.' || c == '+' || c == '*' || c == '?' || c == '(' || c == ')' || c == '|'
        || c == '[' || c == ']' || c == '{' || c == '}' || c == '^' || c == '$'
}

/// A regular expression that matches exactly the ASCII bytes `bytes`: each
/// byte as a character, with a backslash before each special one.
pub open spec fn literal_regex_of(bytes: Seq<u8>) -> Seq<char>
    decreases bytes.len(),
{
    if bytes.len() == 0 {
        seq![]
    } else {
        let c = bytes[0] as char;
        (if is_regex_special(c) {
            seq!['\\', c]
        } else {
            seq![c]
        }) + literal_regex_of(bytes.drop_first())
    }
}

/// The class of the ASCII blanks: space, tab, carriage return, line feed.
pub open spec fn blank_class() -> Seq<char> {
    seq!['[', ' ', '\\', 't', '\\', 'r', '\\', 'n', ']']
}

/// Each operator is found by its own spelling and nothing else: its
/// expression is a blank, then a group that matches exactly the operator's
/// spelling, then a blank.
pub proof fn lemma_token_regex_is_spelling(t: Token)
    ensures
        token_regex_of(t) == blank_class() + seq!['('] + literal_regex_of(spelling(t)) + seq![')']
            + blank_class(),
{
    reveal_with_fuel(literal_regex_of, 4);
    let r = blank_class() + seq!['('] + literal_regex_of(spelling(t)) + seq![')'] + blank_class();
    match t {
        Token::Equal => {
            reveal_strlit(r"[ \t\r\n](==)[ \t\r\n]");
            assert(token_regex_of(t) =~= r);
        },
        Token::NotEqual => {
            reveal_strlit(r"[ \t\r\n](!=)[ \t\r\n]");
            assert(token_regex_of(t) =~= r);
        },
        Token::Less => {
            reveal_strlit(r"[ \t\r\n](<)[ \t\r\n]");
            assert(token_regex_of(t) =~= r);
        },
        Token::LessEqual => {
            reveal_strlit(r"[ \t\r\n](<=)[ \t\r\n]");
            assert(token_regex_of(t) =~= r);
        },
        Token::Greater => {
            reveal_strlit(r"[ \t\r\n](>)[ \t\r\n]");
            assert(token_regex_of(t) =~= r);
        },
        Token::GreaterEqual => {
            reveal_strlit(r"[ \t\r\n](>=)[ \t\r\n]");
            assert(token_regex_of(t) =~= r);
        },
        Token::Ampersand => {
            reveal_strlit(r"[ \t\r\n](&)[ \t\r\n]");
            assert(token_regex_of(t) =~= r);
        },
        Token::Pipe => {
            reveal_strlit(r"[ \t\r\n](\|)[ \t\r\n]");
            assert(token_regex_of(t) =~= r);
        },
        Token::Caret => {
            reveal_strlit(r"[ \t\r\n](\^)[ \t\r\n]");
            assert(token_regex_of(t) =~= r);
        },
        Token::ShiftLeft => {
            reveal_strlit(r"[ \t\r\n](<<)[ \t\r\n]");
            assert(token_regex_of(t) =~= r);
        },
        Token::ShiftRight => {
            reveal_strlit(r"[ \t\r\n](>>)[ \t\r\n]");
            assert(token_regex_of(t) =~= r);
        },
        Token::Plus => {
            reveal_strlit(r"[ \t\r\n](\+)[ \t\r\n]");
            assert(token_regex_of(t) =~= r);
        },
        Token::Minus => {
            reveal_strlit(r"[ \t\r\n](-)[ \t\r\n]");
            assert(token_regex_of(t) =~= r);
        },
        Token::Star => {
            reveal_strlit(r"[ \t\r\n](\*)[ \t\r\n]");
            assert(token_regex_of(t) =~= r);
        },
        Token::Slash => {
            reveal_strlit(r"[ \t\r\n](/)[ \t\r\n]");
            assert(token_regex_of(t) =~= r);
        },
        Token::Percent => {
            reveal_strlit(r"[ \t\r\n](%)[ \t\r\n]");
            assert(token_regex_of(t) =~= r);
        },
        Token::Increment => {
            reveal_strlit(r"[ \t\r\n](\+\+)[ \t\r\n]");
            assert(token_regex_of(t) =~= r);
        },
        Token::Decrement => {
            reveal_strlit(r"[ \t\r\n](--)[ \t\r\n]");
            assert(token_regex_of(t) =~= r);
        },
        Token::PlusEquals => {
            reveal_strlit(r"[ \t\r\n](\+=)[ \t\r\n]");
            assert(token_regex_of(t) =~= r);
        },
        Token::MinusEquals => {
            reveal_strlit(r"[ \t\r\n](-=)[ \t\r\n]");
            assert(token_regex_of(t) =~= r);
        },
        Token::StarEquals => {
            reveal_strlit(r"[ \t\r\n](\*=)[ \t\r\n]");
            assert(token_regex_of(t) =~= r);
        },
        Token::SlashEquals => {
            reveal_strlit(r"[ \t\r\n](/=)[ \t\r\n]");
            assert(token_regex_of(t) =~= r);
        },
        Token::PercentEquals => {
            reveal_strlit(r"[ \t\r\n](%=)[ \t\r\n]");
            assert(token_regex_of(t) =~= r);
        },
        Token::AmpersandEquals => {
            reveal_strlit(r"[ \t\r\n](&=)[ \t\r\n]");
            assert(token_regex_of(t) =~= r);
        },
        Token::PipeEquals => {
            reveal_strlit(r"[ \t\r\n](\|=)[ \t\r\n]");
            assert(token_regex_of(t) =~= r);
        },
        Token::CaretEquals => {
            reveal_strlit(r"[ \t\r\n](\^=)[ \t\r\n]");
            assert(token_regex_of(t) =~= r);
        },
        Token::ShiftLeftEquals => {
            reveal_strlit(r"[ \t\r\n](<<=)[ \t\r\n]");
            assert(token_regex_of(t) =~= r);
        },
        Token::ShiftRightEquals => {
            reveal_strlit(r"[ \t\r\n](>>=)[ \t\r\n]");
            assert(token_regex_of(t) =~= r);
        },
    }
}

/// The operators with the regular expressions that find them, in scan order.
pub fn token_regexes() -> (r: Vec<(Token, &'static str)>)
    ensures
        r@.len() == scan_order().len(),
        forall|i: int|
            #![trigger r@[i]]
            0 <= i < r@.len() ==> r@[i].0 == scan_order()[i] && r@[i].1@ == token_regex_of(
                scan_order()[i],
            ),
        forall|i: int|
            #![trigger r@[i]]
            0 <= i < r@.len() ==> r@[i].1@ == blank_class() + seq!['('] + literal_regex_of(
                spelling(r@[i].0),
            ) + seq![')'] + blank_class(),
{
    let r = vec![
        (Token::Equal, r"[ \t\r\n](==)[ \t\r\n]"),
        (Token::NotEqual, r"[ \t\r\n](!=)[ \t\r\n]"),
        (Token::Less, r"[ \t\r\n](<)[ \t\r\n]"),
        (Token::LessEqual, r"[ \t\r\n](<=)[ \t\r\n]"),
        (Token::Greater, r"[ \t\r\n](>)[ \t\r\n]"),
        (Token::GreaterEqual, r"[ \t\r\n](>=)[ \t\r\n]"),
        (Token::Ampersand, r"[ \t\r\n](&)[ \t\r\n]"),
        (Token::Pipe, r"[ \t\r\n](\|)[ \t\r\n]"),
        (Token::Caret, r"[ \t\r\n](\^)[ \t\r\n]"),
        (Token::ShiftLeft, r"[ \t\r\n](<<)[ \t\r\n]"),
        (Token::ShiftRight, r"[ \t\r\n](>>)[ \t\r\n]"),
        (Token::Plus, r"[ \t\r\n](\+)[ \t\r\n]"),
        (Token::Minus, r"[ \t\r\n](-)[ \t\r\n]"),
        (Token::Star, r"[ \t\r\n](\*)[ \t\r\n]"),
        (Token::Slash, r"[ \t\r\n](/)[ \t\r\n]"),
        (Token::Percent, r"[ \t\r\n](%)[ \t\r\n]"),
        (Token::Increment, r"[ \t\r\n](\+\+)[ \t\r\n]"),
        (Token::Decrement, r"[ \t\r\n](--)[ \t\r\n]"),
        (Token::PlusEquals, r"[ \t\r\n](\+=)[ \t\r\n]"),
        (Token::MinusEquals, r"[ \t\r\n](-=)[ \t\r\n]"),
        (Token::StarEquals, r"[ \t\r\n](\*=)[ \t\r\n]"),
        (Token::SlashEquals, r"[ \t\r\n](/=)[ \t\r\n]"),
        (Token::PercentEquals, r"[ \t\r\n](%=)[ \t\r\n]"),
        (Token::AmpersandEquals, r"[ \t\r\n](&=)[ \t\r\n]"),
        (Token::PipeEquals, r"[ \t\r\n](\|=)[ \t\r\n]"),
        (Token::CaretEquals, r"[ \t\r\n](\^=)[ \t\r\n]"),
        (Token::ShiftLeftEquals, r"[ \t\r\n](<<=)[ \t\r\n]"),
        (Token::ShiftRightEquals, r"[ \t\r\n](>>=)[ \t\r\n]"),
    ];
    assert(r@.len() == scan_order().len());
    assert forall|i: int| 0 <= i < r@.len() implies #[trigger] r@[i].1@ == blank_class() + seq![
        '(',
    ] + literal_regex_of(spelling(r@[i].0)) + seq![')'] + blank_class() by {
        lemma_token_regex_is_spelling(r@[i].0);
    }
    r
}

} // verus!

verus! {

/// A match lies strictly inside one of the filtered regions.
pub open spec fn inside_any(filters: Seq<(usize, usize)>, m: (usize, usize)) -> bool {
    exists|i: int| 0 <= i < filters.len() && m.0 > filters[i].0 && m.1 < filters[i].1
}

/// The matches of one operator that lie outside every filtered region, in order.
pub open spec fn kept_tokens(
    t: Token,
    matches: Seq<(usize, usize)>,
    filters: Seq<(usize, usize)>,
) -> Seq<(Token, (usize, usize))>
    decreases matches.len(),
{
    if matches.len() == 0 {
        seq![]
    } else {
        let prev = kept_tokens(t, matches.drop_last(), filters);
        if inside_any(filters, matches.last()) {
            prev
        } else {
            prev.push((t, matches.last()))
        }
    }
}

/// The kept matches of all operators, operator after operator.
pub open spec fn found_tokens(
    kinds: Seq<(Token, Seq<(usize, usize)>)>,
    filters: Seq<(usize, usize)>,
) -> Seq<(Token, (usize, usize))>
    decreases kinds.len(),
{
    if kinds.len() == 0 {
        seq![]
    } else {
        found_tokens(kinds.drop_last(), filters) + kept_tokens(
            kinds.last().0,
            kinds.last().1,
            filters,
        )
    }
}

/// Every match starts before `u32::MAX` and ends at or before it, so that its
/// span fits the `u32` offsets of a `MetaToken`.
pub open spec fn spans_fit(kinds: Seq<(Token, Seq<(usize, usize)>)>) -> bool {
    forall|k: int, j: int|
        0 <= k < kinds.len() && 0 <= j < kinds[k].1.len() ==> #[trigger] kinds[k].1[j].0
            < u32::MAX && kinds[k].1[j].1 <= u32::MAX
}

/// The tokens made from kept matches: the span starts one byte into the
/// match (after the blank before the operator) and ends with it; ids count
/// up from `first_id`.
pub open spec fn token_views(found: Seq<(Token, (usize, usize))>, src: PathBuf, first_id: u32) -> Seq<
    MetaTokenView,
> {
    Seq::new(
        found.len(),
        |i: int|
            MetaTokenView {
                token: found[i].0,
                span: ((found[i].1.0 + 1) as u32, found[i].1.1 as u32),
                src,
                id: (first_id + i) as u32,
            },
    )
}

/// The views of the matches of each operator.
pub open spec fn kind_views(kinds: Seq<(Token, Vec<(usize, usize)>)>) -> Seq<
    (Token, Seq<(usize, usize)>),
> {
    kinds.map_values(|k: (Token, Vec<(usize, usize)>)| (k.0, k.1@))
}

proof fn lemma_kept_prefix(t: Token, m: Seq<(usize, usize)>, j: int, f: Seq<(usize, usize)>)
    requires
        0 <= j <= m.len(),
    ensures
        kept_tokens(t, m.take(j), f).len() <= kept_tokens(t, m, f).len(),
    decreases m.len(),
{
    if j < m.len() {
        assert(m.drop_last().take(j) =~= m.take(j));
        lemma_kept_prefix(t, m.drop_last(), j, f);
    } else {
        assert(m.take(j) =~= m);
    }
}

proof fn lemma_found_prefix(ks: Seq<(Token, Seq<(usize, usize)>)>, k: int, f: Seq<(usize, usize)>)
    requires
        0 <= k <= ks.len(),
    ensures
        found_tokens(ks.take(k), f).len() <= found_tokens(ks, f).len(),
    decreases ks.len(),
{
    if k < ks.len() {
        assert(ks.drop_last().take(k) =~= ks.take(k));
        lemma_found_prefix(ks.drop_last(), k, f);
    } else {
        assert(ks.take(k) =~= ks);
    }
}

/// Whether a match lies strictly inside one of the filtered regions.
fn is_filtered(filters: &Vec<(usize, usize)>, start: u32, end: u32) -> (r: bool)
    ensures
        r == inside_any(filters@, (start as usize, end as usize)),
{
    let mut i: usize = 0;
    while i < filters.len()
        invariant
            i <= filters@.len(),
            forall|j: int|
                0 <= j < i ==> !(start > filters@[j].0 && end < filters@[j].1),
        decreases filters@.len() - i,
    {
        let f = filters[i];
        if overlaps(&(f.0..f.1), &(start..end)) {
            return true;
        }
        i = i + 1;
    }
    false
}

/// Whether every match fits the `u32` offsets of a `MetaToken`.
fn check_spans_fit(kinds: &Vec<(Token, Vec<(usize, usize)>)>) -> (r: bool)
    ensures
        r == spans_fit(kind_views(kinds@)),
{
    let ghost ks = kind_views(kinds@);
    let mut k: usize = 0;
    while k < kinds.len()
        invariant
            k <= kinds@.len(),
            ks == kind_views(kinds@),
            forall|a: int, b: int|
                0 <= a < k && 0 <= b < ks[a].1.len() ==> #[trigger] ks[a].1[b].0 < u32::MAX
                    && ks[a].1[b].1 <= u32::MAX,
        decreases kinds@.len() - k,
    {
        let matches = &kinds[k].1;
        let mut j: usize = 0;
        while j < matches.len()
            invariant
                k < kinds@.len(),
                j <= matches@.len(),
                ks == kind_views(kinds@),
                ks[k as int].1 == matches@,
                forall|a: int, b: int|
                    0 <= a < k && 0 <= b < ks[a].1.len() ==> #[trigger] ks[a].1[b].0 < u32::MAX
                        && ks[a].1[b].1 <= u32::MAX,
                forall|b: int|
                    0 <= b < j ==> #[trigger] ks[k as int].1[b].0 < u32::MAX && ks[k as int].1[b].1
                        <= u32::MAX,
            decreases matches@.len() - j,
        {
            let m = matches[j];
            if !(m.0 < 4294967295usize && m.1 <= 4294967295usize) {
                assert(ks[k as int].1[j as int] == m);
                return false;
            }
            j = j + 1;
        }
        k = k + 1;
    }
    true
}

/// The tokens of one file from the matches of each operator: the matches
/// inside a filtered region are dropped, the others become tokens numbered
/// from `first_id` on.  `None` when a match does not fit `u32` offsets or
/// the numbers would pass `u32::MAX`.
pub fn select_tokens(
    kinds: &Vec<(Token, Vec<(usize, usize)>)>,
    filters: &Vec<(usize, usize)>,
    src: &PathBuf,
    first_id: u32,
) -> (r: Option<Vec<MetaToken>>)
    ensures
        ({
            let ks = kind_views(kinds@);
            let found = found_tokens(ks, filters@);
            match r {
                None => !spans_fit(ks) || first_id + found.len() > u32::MAX,
                Some(v) => spans_fit(ks) && first_id + found.len() <= u32::MAX && v@.map_values(
                    |m: MetaToken| m@,
                ) == token_views(found, *src, first_id),
            }
        }),
{
    let ghost ks = kind_views(kinds@);
    let ghost f = filters@;
    if !check_spans_fit(kinds) {
        return None;
    }
    let mut result: Vec<MetaToken> = Vec::new();
    let mut next_id: u32 = first_id;
    let mut k: usize = 0;
    while k < kinds.len()
        invariant
            k <= kinds@.len(),
            ks == kind_views(kinds@),
            f == filters@,
            spans_fit(ks),
            next_id == first_id + found_tokens(ks.take(k as int), f).len(),
            result@.map_values(|m: MetaToken| m@) == token_views(
                found_tokens(ks.take(k as int), f),
                *src,
                first_id,
            ),
        decreases kinds@.len() - k,
    {
        let t = kinds[k].0;
        let matches = &kinds[k].1;
        let ghost before = found_tokens(ks.take(k as int), f);
        assert(ks.take(k + 1).drop_last() =~= ks.take(k as int));
        assert(found_tokens(ks.take(k + 1), f) == before + kept_tokens(t, matches@, f));
        let mut j: usize = 0;
        while j < matches.len()
            invariant
                k < kinds@.len(),
                j <= matches@.len(),
                ks == kind_views(kinds@),
                f == filters@,
                spans_fit(ks),
                ks[k as int] == (t, matches@),
                before == found_tokens(ks.take(k as int), f),
                found_tokens(ks.take(k + 1), f) == before + kept_tokens(t, matches@, f),
                next_id == first_id + (before + kept_tokens(t, matches@.take(j as int), f)).len(),
                result@.map_values(|m: MetaToken| m@) == token_views(
                    before + kept_tokens(t, matches@.take(j as int), f),
                    *src,
                    first_id,
                ),
            decreases matches@.len() - j,
        {
            let m = matches[j];
            assert(ks[k as int].1[j as int] == m);
            assert(ks[k as int].1[j as int].0 < u32::MAX && ks[k as int].1[j as int].1 <= u32::MAX);
            let start = m.0 as u32;
            let end = m.1 as u32;
            let ghost prefix = before + kept_tokens(t, matches@.take(j as int), f);
            assert(matches@.take(j + 1).drop_last() =~= matches@.take(j as int));
            assert(matches@.take(j + 1).last() == m);
            if !is_filtered(filters, start, end) {
                assert(kept_tokens(t, matches@.take(j + 1), f) == kept_tokens(
                    t,
                    matches@.take(j as int),
                    f,
                ).push((t, m)));
                if next_id == 4294967295u32 {
                    proof {
                        lemma_kept_prefix(t, matches@, j + 1, f);
                        lemma_found_prefix(ks, k + 1, f);
                    }
                    return None;
                }
                let token = MetaToken::new(t, (start + 1, end), Box::new(src.clone()), next_id);
                let ghost old_views = result@.map_values(|x: MetaToken| x@);
                assert(token@ == token_views(prefix.push((t, m)), *src, first_id)[prefix.len() as int]);
                let ghost tv = token@;
                result.push(token);
                next_id = next_id + 1;
                assert(result@.map_values(|x: MetaToken| x@) =~= old_views.push(tv));
                assert(token_views(prefix.push((t, m)), *src, first_id) =~= token_views(
                    prefix,
                    *src,
                    first_id,
                ).push(tv));
                assert(prefix.push((t, m)) =~= before + kept_tokens(
                    t,
                    matches@.take(j + 1),
                    f,
                ));
                assert(result@.map_values(|x: MetaToken| x@) =~= token_views(
                    prefix.push((t, m)),
                    *src,
                    first_id,
                ));
            } else {
                assert(kept_tokens(t, matches@.take(j + 1), f) == kept_tokens(
                    t,
                    matches@.take(j as int),
                    f,
                ));
            }
            j = j + 1;
        }
        assert(matches@.take(j as int) =~= matches@);
        k = k + 1;
    }
    assert(ks.take(k as int) =~= ks);
    Some(result)
}

} // verus!

verus! {

/// The regions of a file where no operator is mutated: its comments, its
/// unit tests (where the language has a test pattern) and its string literals.
pub open spec fn file_filters(language: Language, text: Seq<char>) -> Seq<(usize, usize)> {
    regex_matches(comment_pattern(), text) + match test_pattern_of(language) {
        Some(p) => regex_matches(p, text),
        None => seq![],
    } + regex_matches(literal_pattern(), text)
}

/// The matches of each operator's regular expression in a file, in scan order.
pub open spec fn file_kinds(text: Seq<char>) -> Seq<(Token, Seq<(usize, usize)>)> {
    Seq::new(
        scan_order().len(),
        |i: int| (scan_order()[i], regex_matches(token_regex_of(scan_order()[i]), text)),
    )
}

/// The tokens of one file, numbered from `first_id`.
pub open spec fn file_token_views(
    language: Language,
    text: Seq<char>,
    src: PathBuf,
    first_id: u32,
) -> Seq<MetaTokenView> {
    token_views(found_tokens(file_kinds(text), file_filters(language, text)), src, first_id)
}

/// Every pattern that a scan of a file in `language` compiles: the comment,
/// test and literal patterns and each operator's expression.
pub open spec fn patterns_compile(language: Language) -> bool {
    &&& regex_compiles(comment_pattern())
    &&& test_pattern_compiles(language)
    &&& regex_compiles(literal_pattern())
    &&& forall|i: int|
        #![trigger scan_order()[i]]
        0 <= i < scan_order().len() ==> regex_compiles(token_regex_of(scan_order()[i]))
}

/// The inputs on which `file_tokens` succeeds: every pattern compiles, every
/// match fits `u32` offsets, and the tokens numbered from `first_id` stay
/// within `u32::MAX`.
pub open spec fn file_fits(language: Language, text: Seq<char>, first_id: int) -> bool {
    &&& patterns_compile(language)
    &&& spans_fit(file_kinds(text))
    &&& first_id + found_tokens(file_kinds(text), file_filters(language, text)).len() <= u32::MAX
}

/// The tokens of one source file: every match of an operator's regular
/// expression that lies outside the file's comments, unit tests and string
/// literals.  `None` exactly when a pattern does not compile, a match does
/// not fit `u32` offsets, or the numbers would pass `u32::MAX`.
pub fn file_tokens(contents: &str, src: &PathBuf, language: &Language, first_id: u32) -> (r: Option<
    Vec<MetaToken>,
>)
    ensures
        r is Some <==> file_fits(*language, contents@, first_id as int),
        r matches Some(v) ==> {
            &&& first_id + found_tokens(
                file_kinds(contents@),
                file_filters(*language, contents@),
            ).len() <= u32::MAX
            &&& v@.map_values(|m: MetaToken| m@) == file_token_views(
                *language,
                contents@,
                *src,
                first_id,
            )
        },
{
    let mut filters = match find_matches(comment_regex(language), contents) {
        Some(v) => v,
        None => return None,
    };
    let mut tests = match test_regex(language) {
        Some(p) => match find_matches(p, contents) {
            Some(v) => v,
            None => return None,
        },
        None => Vec::new(),
    };
    let mut literals = match find_matches(literal_regex(language), contents) {
        Some(v) => v,
        None => return None,
    };
    filters.append(&mut tests);
    filters.append(&mut literals);
    assert(filters@ =~= file_filters(*language, contents@));
    let regexes = token_regexes();
    let ghost all = file_kinds(contents@);
    let mut kinds: Vec<(Token, Vec<(usize, usize)>)> = Vec::new();
    let mut i: usize = 0;
    while i < regexes.len()
        invariant
            i <= regexes@.len(),
            regexes@.len() == scan_order().len(),
            forall|j: int|
                #![trigger regexes@[j]]
                0 <= j < regexes@.len() ==> regexes@[j].0 == scan_order()[j] && regexes@[j].1@
                    == token_regex_of(scan_order()[j]),
            all == file_kinds(contents@),
            kind_views(kinds@) == all.take(i as int),
            forall|j: int|
                #![trigger scan_order()[j]]
                0 <= j < i ==> regex_compiles(token_regex_of(scan_order()[j])),
        decreases regexes@.len() - i,
    {
        let t = regexes[i].0;
        let p = regexes[i].1;
        assert(regexes@[i as int].0 == scan_order()[i as int]);
        assert(p@ == token_regex_of(scan_order()[i as int]));
        let ms = match find_matches(p, contents) {
            Some(v) => v,
            None => return None,
        };
        let ghost old_kinds = kinds@;
        assert(ms@ == regex_matches(token_regex_of(scan_order()[i as int]), contents@));
        assert(all[i as int] == (t, ms@));
        kinds.push((t, ms));
        assert(kinds@ == old_kinds.push((t, ms)));
        assert(kind_views(kinds@) =~= kind_views(old_kinds).push((t, ms@)));
        assert(all.take(i + 1) =~= all.take(i as int).push(all[i as int]));
        assert(kind_views(kinds@) =~= all.take(i + 1));
        i = i + 1;
    }
    assert(all.take(i as int) =~= all);
    select_tokens(&kinds, &filters, src, first_id)
}

/// The tokens of a list of source files, numbered across the files in order.
pub open spec fn collected_tokens(sources: Seq<(PathBuf, String)>, language: Language) -> Seq<
    MetaTokenView,
>
    decreases sources.len(),
{
    if sources.len() == 0 {
        seq![]
    } else {
        let prev = collected_tokens(sources.drop_last(), language);
        prev + file_token_views(
            language,
            sources.last().1@,
            sources.last().0,
            prev.len() as u32,
        )
    }
}

/// Each file of the list, in order, meets `file_fits` with its tokens
/// numbered after those of the files before it.
pub open spec fn collection_fits(sources: Seq<(PathBuf, String)>, language: Language) -> bool
    decreases sources.len(),
{
    sources.len() == 0 || {
        &&& collection_fits(sources.drop_last(), language)
        &&& file_fits(
            language,
            sources.last().1@,
            collected_tokens(sources.drop_last(), language).len() as int,
        )
    }
}

/// A list whose files all fit has prefixes whose files all fit.
proof fn lemma_collection_fits_prefix(sources: Seq<(PathBuf, String)>, language: Language, k: int)
    requires
        0 <= k <= sources.len(),
        collection_fits(sources, language),
    ensures
        collection_fits(sources.take(k), language),
    decreases sources.len(),
{
    if k < sources.len() {
        assert(sources.drop_last().take(k) =~= sources.take(k));
        lemma_collection_fits_prefix(sources.drop_last(), language, k);
    } else {
        assert(sources.take(k) =~= sources);
    }
}

/// The tokens of all given source files (each a path with the file's text).
/// `None` exactly for an empty list, and when `file_tokens` gives `None` for
/// a file (see `collection_fits`).
pub fn collect_tokens(sources: &Vec<(PathBuf, String)>, language: &Language) -> (r: Option<
    Vec<MetaToken>,
>)
    ensures
        r is Some <==> sources@.len() > 0 && collection_fits(sources@, *language),
        r matches Some(v) ==> v@.map_values(|m: MetaToken| m@) == collected_tokens(
            sources@,
            *language,
        ),
{
    if sources.len() == 0 {
        return None;
    }
    let mut tokens: Vec<MetaToken> = Vec::new();
    let mut i: usize = 0;
    while i < sources.len()
        invariant
            i <= sources@.len(),
            tokens@.len() <= u32::MAX,
            tokens@.map_values(|m: MetaToken| m@) == collected_tokens(
                sources@.take(i as int),
                *language,
            ),
            collection_fits(sources@.take(i as int), *language),
        decreases sources@.len() - i,
    {
        let next_id = tokens.len() as u32;
        assert(sources@.take(i + 1).drop_last() =~= sources@.take(i as int));
        assert(sources@.take(i + 1).last() == sources@[i as int]);
        let file = match file_tokens(sources[i].1.as_str(), &sources[i].0, language, next_id) {
            Some(v) => v,
            None => {
                proof {
                    if collection_fits(sources@, *language) {
                        lemma_collection_fits_prefix(sources@, *language, i + 1);
                    }
                }
                return None;
            },
        };
        let ghost old_views = tokens@.map_values(|m: MetaToken| m@);
        let ghost file_views = file@.map_values(|m: MetaToken| m@);
        let mut file = file;
        tokens.append(&mut file);
        assert(tokens@.map_values(|m: MetaToken| m@) =~= old_views + file_views);
        i = i + 1;
    }
    assert(sources@.take(i as int) =~= sources@);
    Some(tokens)
}

} // verus!

verus! {

/// Whether `bytes` holds a `!`.
fn contains_bang(bytes: &Vec<u8>) -> (r: bool)
    ensures
        r == bytes@.contains(bang()),
{
    let mut i: usize = 0;
    while i < bytes.len()
        invariant
            i <= bytes@.len(),
            forall|j: int| 0 <= j < i ==> bytes@[j] != bang(),
        decreases bytes@.len() - i,
    {
        if bytes[i] == 33u8 {
            assert(bytes@[i as int] == bang());
            return true;
        }
        i = i + 1;
    }
    false
}

/// Whether `replace_bytes` accepts these inputs (see `replace_bytes_accepts`).
pub fn replace_bytes_accepted(
    original_bytes: &Vec<u8>,
    start_index: usize,
    original_token_as_bytes: &[u8],
    replacement: &[u8],
) -> (r: bool)
    ensures
        r == replace_bytes_accepts(
            original_bytes@,
            start_index as int,
            original_token_as_bytes@,
            replacement@,
        ),
{
    proof {
        lemma_angle_forms(replacement@);
    }
    let n = original_bytes.len();
    let len = replacement.len();
    if len == 0 {
        original_token_as_bytes.len() > 0 && original_token_as_bytes[0] == 33u8 && contains_bang(
            original_bytes,
        )
    } else if len == 1 {
        if replacement[0] == 62u8 || replacement[0] == 60u8 {
            start_index < n && n - start_index >= 2
        } else {
            start_index < n
        }
    } else if len == 2 {
        if (replacement[0] == 62u8 || replacement[0] == 60u8) && replacement[1] == 61u8 {
            start_index < n
        } else {
            start_index < n && n - start_index >= 2
        }
    } else if len == 3 {
        start_index < n && n - start_index >= 3
    } else {
        false
    }
}

} // verus!

verus! {

proof fn lemma_kept_outside(t: Token, matches: Seq<(usize, usize)>, filters: Seq<(usize, usize)>)
    ensures
        forall|i: int|
            0 <= i < kept_tokens(t, matches, filters).len() ==> {
                let k = #[trigger] kept_tokens(t, matches, filters)[i];
                &&& k.0 == t
                &&& matches.contains(k.1)
                &&& !inside_any(filters, k.1)
            },
    decreases matches.len(),
{
    if matches.len() > 0 {
        lemma_kept_outside(t, matches.drop_last(), filters);
        let prev = kept_tokens(t, matches.drop_last(), filters);
        assert forall|i: int| 0 <= i < kept_tokens(t, matches, filters).len() implies {
            let k = #[trigger] kept_tokens(t, matches, filters)[i];
            &&& k.0 == t
            &&& matches.contains(k.1)
            &&& !inside_any(filters, k.1)
        } by {
            if i < prev.len() {
                assert(kept_tokens(t, matches, filters)[i] == prev[i]);
                let j = choose|j: int| 0 <= j < matches.drop_last().len() && matches.drop_last()[j] == prev[i].1;
                assert(matches[j] == prev[i].1);
            } else {
                assert(matches[matches.len() - 1] == matches.last());
            }
        }
    }
}

/// No token is taken from inside a filtered region: every token a scan
/// finds is a match of its operator's expression that lies outside all the
/// comments, unit tests and string literals of the file.
pub proof fn lemma_found_tokens_avoid_filters(
    kinds: Seq<(Token, Seq<(usize, usize)>)>,
    filters: Seq<(usize, usize)>,
)
    ensures
        forall|i: int|
            0 <= i < found_tokens(kinds, filters).len() ==> {
                let f = #[trigger] found_tokens(kinds, filters)[i];
                &&& !inside_any(filters, f.1)
                &&& exists|k: int| 0 <= k < kinds.len() && kinds[k].0 == f.0 && kinds[k].1.contains(f.1)
            },
    decreases kinds.len(),
{
    if kinds.len() > 0 {
        lemma_found_tokens_avoid_filters(kinds.drop_last(), filters);
        let last = kinds.last();
        lemma_kept_outside(last.0, last.1, filters);
        let prev = found_tokens(kinds.drop_last(), filters);
        let kept = kept_tokens(last.0, last.1, filters);
        assert forall|i: int| 0 <= i < found_tokens(kinds, filters).len() implies {
            let f = #[trigger] found_tokens(kinds, filters)[i];
            &&& !inside_any(filters, f.1)
            &&& exists|k: int| 0 <= k < kinds.len() && kinds[k].0 == f.0 && kinds[k].1.contains(f.1)
        } by {
            let f = found_tokens(kinds, filters)[i];
            if i < prev.len() {
                assert(f == prev[i]);
                let k = choose|k: int| 0 <= k < kinds.drop_last().len() && kinds.drop_last()[k].0 == f.0 && kinds.drop_last()[k].1.contains(f.1);
                assert(kinds[k] == kinds.drop_last()[k]);
            } else {
                assert(f == kept[i - prev.len()]);
                assert(kinds[kinds.len() - 1] == last);
            }
        }
    }
}

} // verus!

verus! {

/// Mutating an operator spelled at `start` and then mutating the result
/// back restores the text, for every operator whose mutation mutates back to
/// it (all but `^`, `%`, `^=` and `%=`).
pub proof fn lemma_mutation_undone(original: Seq<u8>, start: int, t: Token)
    requires
        0 <= start,
        start + spelling(t).len() <= original.len(),
        original.subrange(start, start + spelling(t).len()) == spelling(t),
        t != Token::Caret,
        t != Token::Percent,
        t != Token::CaretEquals,
        t != Token::PercentEquals,
    ensures
        ({
            let once = replaced_bytes(original, start, spelling(t), spelling(mutation_of(t)));
            &&& replace_bytes_accepts(
                once,
                start,
                spelling(mutation_of(t)),
                spelling(mutation_of(mutation_of(t))),
            )
            &&& replaced_bytes(
                once,
                start,
                spelling(mutation_of(t)),
                spelling(mutation_of(mutation_of(t))),
            ) == original
        }),
{
    let u = mutation_of(t);
    crate::token::lemma_mutation_involutive(t);
    lemma_replace_substitutes_mutation(original, start, t);
    let once = replaced_bytes(original, start, spelling(t), spelling(u));
    assert(once.len() == original.len() - spelling(t).len() + spelling(u).len());
    assert(once.subrange(start, start + spelling(u).len()) =~= spelling(u));
    lemma_replace_substitutes_mutation(once, start, u);
    assert(once.subrange(0, start) =~= original.subrange(0, start));
    assert(once.subrange(start + spelling(u).len(), once.len() as int) =~= original.subrange(
        start + spelling(t).len(),
        original.len() as int,
    ));
    assert(original.subrange(0, start) + spelling(t) + original.subrange(
        start + spelling(t).len(),
        original.len() as int,
    ) =~= original);
}

} // verus!

verus! {

/// The tokens of a list of files are numbered 0, 1, 2, … in order, across
/// the files, as long as their number fits the `u32` ids.
pub proof fn lemma_collected_ids_count_up(sources: Seq<(PathBuf, String)>, language: Language)
    requires
        collected_tokens(sources, language).len() <= u32::MAX + 1,
    ensures
        forall|i: int|
            0 <= i < collected_tokens(sources, language).len() ==> #[trigger] collected_tokens(
                sources,
                language,
            )[i].id == i,
    decreases sources.len(),
{
    if sources.len() > 0 {
        let prev = collected_tokens(sources.drop_last(), language);
        lemma_collected_ids_count_up(sources.drop_last(), language);
        let all = collected_tokens(sources, language);
        assert forall|i: int| 0 <= i < all.len() implies #[trigger] all[i].id == i by {
            if i >= prev.len() {
                assert(all[i] == file_token_views(
                    language,
                    sources.last().1@,
                    sources.last().0,
                    prev.len() as u32,
                )[i - prev.len()]);
            } else {
                assert(all[i] == prev[i]);
            }
        }
    }
}

} // verus!
