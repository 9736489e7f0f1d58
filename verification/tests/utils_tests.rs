use hunter::filters::test_regex;
use hunter::languages::common::Language;
use hunter::utils::{overlaps, replace_bytes};
use std::ops::Range;
#[test]
fn test_test_regex_noir() {
    let pattern = test_regex(&Language::Noir);
    assert_eq!(
        pattern.unwrap(),
        r"#\[test(\(.*\))?\]\s+fn\s+\w+\(\)\s*\{[^}]*\}"
    );
}

#[test]
fn test_replace_bytes_equal() {
    let mut original_bytes = "==".as_bytes().to_vec();
    let original_token_as_bytes = "==".as_bytes();
    let replacement = b"!=";
    let start_index = 0;
    replace_bytes(
        &mut original_bytes,
        start_index,
        original_token_as_bytes,
        replacement,
    );
    assert_eq!(original_bytes, b"!=");
}

#[test]
fn test_replace_bytes_not_equal() {
    let mut original_bytes = "!=".as_bytes().to_vec();
    let original_token_as_bytes = "!=".as_bytes();
    let replacement = b"==";
    let start_index = 0;
    replace_bytes(
        &mut original_bytes,
        start_index,
        original_token_as_bytes,
        replacement,
    );
    assert_eq!(original_bytes, b"==");
}

#[test]
fn test_replace_bytes_greater_than() {
    let mut original_bytes = ">".as_bytes().to_vec();
    let original_token_as_bytes = ">".as_bytes();
    let replacement = b"<=";
    let start_index = 0;
    replace_bytes(
        &mut original_bytes,
        start_index,
        original_token_as_bytes,
        replacement,
    );
    assert_eq!(original_bytes, b"<=");
}

#[test]
fn test_replace_bytes_greater_than_2() {
    let mut original_bytes = "assert(c as u64 > x as u64);".as_bytes().to_vec();
    let original_token_as_bytes = ">".as_bytes();
    let replacement = b"<=";
    let start_index = 16;
    replace_bytes(
        &mut original_bytes,
        start_index,
        original_token_as_bytes,
        replacement,
    );
    assert_eq!(original_bytes, b"assert(c as u64 <= x as u64);");
}

#[test]
fn test_replace_bytes_greater_than_or_equal_to() {
    let mut original_bytes = ">=".as_bytes().to_vec();
    let original_token_as_bytes = ">=".as_bytes();
    let replacement = b"<";
    let start_index = 0;
    replace_bytes(
        &mut original_bytes,
        start_index,
        original_token_as_bytes,
        replacement,
    );
    assert_eq!(original_bytes, b"<");
}

#[test]
fn test_replace_bytes_less_than() {
    let mut original_bytes = "<".as_bytes().to_vec();
    let original_token_as_bytes = "<".as_bytes();
    let replacement = b">=";
    let start_index = 0;
    replace_bytes(
        &mut original_bytes,
        start_index,
        original_token_as_bytes,
        replacement,
    );
    assert_eq!(original_bytes, b">=");
}

#[test]
fn test_replace_bytes_less_than_2() {
    let mut original_bytes = "assert(c as u64 < x as u64);".as_bytes().to_vec();
    let original_token_as_bytes = "<".as_bytes();
    let replacement = b">=";
    let start_index = 16;
    replace_bytes(
        &mut original_bytes,
        start_index,
        original_token_as_bytes,
        replacement,
    );
    assert_eq!(original_bytes, b"assert(c as u64 >= x as u64);");
}

#[test]
fn test_replace_bytes_less_than_or_equal_to() {
    let mut original_bytes = "<=".as_bytes().to_vec();
    let original_token_as_bytes = "<=".as_bytes();
    let replacement = b">";
    let start_index = 0;
    replace_bytes(
        &mut original_bytes,
        start_index,
        original_token_as_bytes,
        replacement,
    );
    assert_eq!(original_bytes, b">");
}

#[test]
fn test_replace_bytes_and() {
    let mut original_bytes = "&".as_bytes().to_vec();
    let original_token_as_bytes = "&".as_bytes();
    let replacement = b"|";
    let start_index = 0;
    replace_bytes(
        &mut original_bytes,
        start_index,
        original_token_as_bytes,
        replacement,
    );
    assert_eq!(original_bytes, b"|");
}

#[test]
fn test_replace_bytes_or() {
    let mut original_bytes = "|".as_bytes().to_vec();
    let original_token_as_bytes = "|".as_bytes();
    let replacement = b"&";
    let start_index = 0;
    replace_bytes(
        &mut original_bytes,
        start_index,
        original_token_as_bytes,
        replacement,
    );
    assert_eq!(original_bytes, b"&");
}

#[test]
fn test_replace_bytes_xor() {
    let mut original_bytes = "^".as_bytes().to_vec();
    let original_token_as_bytes = "^".as_bytes();
    let replacement = b"&";
    let start_index = 0;
    replace_bytes(
        &mut original_bytes,
        start_index,
        original_token_as_bytes,
        replacement,
    );
    assert_eq!(original_bytes, b"&");
}

#[test]
fn test_replace_bytes_left_shift() {
    let mut original_bytes = "<<".as_bytes().to_vec();
    let original_token_as_bytes = "<<".as_bytes();
    let replacement = b">>";
    let start_index = 0;
    replace_bytes(
        &mut original_bytes,
        start_index,
        original_token_as_bytes,
        replacement,
    );
    assert_eq!(original_bytes, b">>");
}

#[test]
fn test_replace_bytes_right_shift() {
    let mut original_bytes = ">>".as_bytes().to_vec();
    let original_token_as_bytes = ">>".as_bytes();
    let replacement = b"<<";
    let start_index = 0;
    replace_bytes(
        &mut original_bytes,
        start_index,
        original_token_as_bytes,
        replacement,
    );
    assert_eq!(original_bytes, b"<<");
}

#[test]
fn test_replace_bytes_plus() {
    let mut original_bytes = "+".as_bytes().to_vec();
    let original_token_as_bytes = "+".as_bytes();
    let replacement = b"-";
    let start_index = 0;
    replace_bytes(
        &mut original_bytes,
        start_index,
        original_token_as_bytes,
        replacement,
    );
    assert_eq!(original_bytes, b"-");
}

#[test]
fn test_replace_bytes_minus() {
    let mut original_bytes = "-".as_bytes().to_vec();
    let original_token_as_bytes = "-".as_bytes();
    let replacement = b"+";
    let start_index = 0;
    replace_bytes(
        &mut original_bytes,
        start_index,
        original_token_as_bytes,
        replacement,
    );
    assert_eq!(original_bytes, b"+");
}

#[test]
fn test_replace_bytes_multiply() {
    let mut original_bytes = "*".as_bytes().to_vec();
    let original_token_as_bytes = "*".as_bytes();
    let replacement = b"/";
    let start_index = 0;
    replace_bytes(
        &mut original_bytes,
        start_index,
        original_token_as_bytes,
        replacement,
    );
    assert_eq!(original_bytes, b"/");
}

#[test]
fn test_replace_bytes_divide() {
    let mut original_bytes = "/".as_bytes().to_vec();
    let original_token_as_bytes = "/".as_bytes();
    let replacement = b"*";
    let start_index = 0;
    replace_bytes(
        &mut original_bytes,
        start_index,
        original_token_as_bytes,
        replacement,
    );
    assert_eq!(original_bytes, b"*");
}

#[test]
fn test_replace_bytes_modulo() {
    let mut original_bytes = "%".as_bytes().to_vec();
    let original_token_as_bytes = "%".as_bytes();
    let replacement = b"*";
    let start_index = 0;
    replace_bytes(
        &mut original_bytes,
        start_index,
        original_token_as_bytes,
        replacement,
    );
    assert_eq!(original_bytes, b"*");
}

#[test]
fn test_replace_bytes_increment() {
    let mut original_bytes = "++".as_bytes().to_vec();
    let original_token_as_bytes = "++".as_bytes();
    let replacement = b"--";
    let start_index = 0;
    replace_bytes(
        &mut original_bytes,
        start_index,
        original_token_as_bytes,
        replacement,
    );
    assert_eq!(original_bytes, b"--");
}

#[test]
fn test_replace_bytes_decrement() {
    let mut original_bytes = "--".as_bytes().to_vec();
    let original_token_as_bytes = "--".as_bytes();
    let replacement = b"++";
    let start_index = 0;
    replace_bytes(
        &mut original_bytes,
        start_index,
        original_token_as_bytes,
        replacement,
    );
    assert_eq!(original_bytes, b"++");
}

#[test]
fn test_replace_bytes_plus_equal() {
    let mut original_bytes = "+=".as_bytes().to_vec();
    let original_token_as_bytes = "+=".as_bytes();
    let replacement = b"-=";
    let start_index = 0;
    replace_bytes(
        &mut original_bytes,
        start_index,
        original_token_as_bytes,
        replacement,
    );
    assert_eq!(original_bytes, b"-=");
}

#[test]
fn test_replace_bytes_minus_equal() {
    let mut original_bytes = "-=".as_bytes().to_vec();
    let original_token_as_bytes = "-=".as_bytes();
    let replacement = b"+=";
    let start_index = 0;
    replace_bytes(
        &mut original_bytes,
        start_index,
        original_token_as_bytes,
        replacement,
    );
    assert_eq!(original_bytes, b"+=");
}

#[test]
fn test_replace_bytes_multiply_equal() {
    let mut original_bytes = "*=".as_bytes().to_vec();
    let original_token_as_bytes = "*=".as_bytes();
    let replacement = b"/=";
    let start_index = 0;
    replace_bytes(
        &mut original_bytes,
        start_index,
        original_token_as_bytes,
        replacement,
    );
    assert_eq!(original_bytes, b"/=");
}

#[test]
fn test_replace_bytes_divide_equal() {
    let mut original_bytes = "/=".as_bytes().to_vec();
    let original_token_as_bytes = "/=".as_bytes();
    let replacement = b"*=";
    let start_index = 0;
    replace_bytes(
        &mut original_bytes,
        start_index,
        original_token_as_bytes,
        replacement,
    );
    assert_eq!(original_bytes, b"*=");
}

#[test]
fn test_replace_bytes_modulo_equal() {
    let mut original_bytes = "%=".as_bytes().to_vec();
    let original_token_as_bytes = "%=".as_bytes();
    let replacement = b"*=";
    let start_index = 0;
    replace_bytes(
        &mut original_bytes,
        start_index,
        original_token_as_bytes,
        replacement,
    );
    assert_eq!(original_bytes, b"*=");
}

#[test]
fn test_replace_bytes_and_equal() {
    let mut original_bytes = "&=".as_bytes().to_vec();
    let original_token_as_bytes = "&=".as_bytes();
    let replacement = b"|=";
    let start_index = 0;
    replace_bytes(
        &mut original_bytes,
        start_index,
        original_token_as_bytes,
        replacement,
    );
    assert_eq!(original_bytes, b"|=");
}

#[test]
fn test_replace_bytes_or_equal() {
    let mut original_bytes = "|=".as_bytes().to_vec();
    let original_token_as_bytes = "|=".as_bytes();
    let replacement = b"&=";
    let start_index = 0;
    replace_bytes(
        &mut original_bytes,
        start_index,
        original_token_as_bytes,
        replacement,
    );
    assert_eq!(original_bytes, b"&=");
}

#[test]
fn test_replace_bytes_xor_equal() {
    let mut original_bytes = "^=".as_bytes().to_vec();
    let original_token_as_bytes = "^=".as_bytes();
    let replacement = b"&=";
    let start_index = 0;
    replace_bytes(
        &mut original_bytes,
        start_index,
        original_token_as_bytes,
        replacement,
    );
    assert_eq!(original_bytes, b"&=");
}

#[test]
fn test_replace_bytes_shift_left_equal() {
    let mut original_bytes = "<<=".as_bytes().to_vec();
    let original_token_as_bytes = "<<=".as_bytes();
    let replacement = b">>=";
    let start_index = 0;
    replace_bytes(
        &mut original_bytes,
        start_index,
        original_token_as_bytes,
        replacement,
    );
    assert_eq!(original_bytes, b">>=");
}

#[test]
fn test_replace_bytes_shift_right_equal() {
    let mut original_bytes = ">>=".as_bytes().to_vec();
    let original_token_as_bytes = ">>=".as_bytes();
    let replacement = b"<<=";
    let start_index = 0;
    replace_bytes(
        &mut original_bytes,
        start_index,
        original_token_as_bytes,
        replacement,
    );
    assert_eq!(original_bytes, b"<<=");
}

#[test]
fn test_replace_bytes_bang() {
    let mut original_bytes = "!".as_bytes().to_vec();
    let original_token_as_bytes = "!".as_bytes();
    let replacement = b"";
    let start_index = 0;
    replace_bytes(
        &mut original_bytes,
        start_index,
        original_token_as_bytes,
        replacement,
    );
    assert_eq!(original_bytes, b"");
}

#[test]
fn test_replace_bytes_bang_combined() {
    let mut original_bytes = "!true".as_bytes().to_vec();
    let original_token_as_bytes = "!".as_bytes();
    let replacement = b"";
    let start_index = 0;
    replace_bytes(
        &mut original_bytes,
        start_index,
        original_token_as_bytes,
        replacement,
    );
    println!("{}", std::str::from_utf8(&original_bytes).unwrap());
    assert_eq!(original_bytes, b"true");
}

#[test]
fn test_overlaps() {
    let filter_range = Range { start: 10, end: 20 };

    let token_range = Range { start: 12, end: 18 };
    assert_eq!(overlaps(&filter_range, &token_range), true);

    let token_range = Range { start: 25, end: 35 };
    assert_eq!(overlaps(&filter_range, &token_range), false);
}
