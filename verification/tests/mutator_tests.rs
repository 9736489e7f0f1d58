use hunter::handlers::mutator::{Mutant, MutationStatus};
use hunter::token::{token_as_bytes, token_mutation, Token};
use std::path::PathBuf;
#[test]
fn mutator_test_mutant_methods() {
    let path = PathBuf::from("test.noir");
    let token = Token::Equal;
    let mutation = token_mutation(token.clone()).unwrap();
    let span = (0, 1);
    let mutant = Mutant::new(
        0,
        token.clone(),
        mutation.clone(),
        token_as_bytes(&token.clone()).unwrap().to_vec(),
        span,
        Box::new(path.clone()),
        MutationStatus::Pending,
    );

    // Test token method
    assert_eq!(mutant.token(), token);

    // Test mutation method
    assert_eq!(mutant.mutation(), mutation);

    // Test string method
    let bytes_str =
        String::from_utf8(mutant.bytes().clone()).expect("Failed to convert bytes to string");
    assert_eq!(bytes_str, "==");

    // Test span method
    assert_eq!(mutant.span(), span);

    // Test path method
    assert_eq!(mutant.path(), &path);

    // Test start method
    assert_eq!(mutant.span_start(), 0);

    // Test end method
    assert_eq!(mutant.span_end(), 1);

    // Test status method
    assert_eq!(mutant.status(), MutationStatus::Pending);
}

#[test]
fn mutator_test_mutant_methods_complex() {
    let path = PathBuf::from("complex/path/to/test.noir");
    let token = Token::Plus;
    let mutation = token_mutation(token.clone()).unwrap();
    let span = (10, 20);
    let mutant = Mutant::new(
        42,
        token.clone(),
        mutation.clone(),
        token_as_bytes(&token.clone()).unwrap().to_vec(),
        span,
        Box::new(path.clone()),
        MutationStatus::Pending,
    );

    // Test token method
    assert_eq!(mutant.token(), token);

    // Test mutation method
    assert_eq!(mutant.mutation(), mutation);

    // Test string method
    let bytes_str =
        String::from_utf8(mutant.bytes().clone()).expect("Failed to convert bytes to string");
    assert_eq!(bytes_str, "+");

    // Test span method
    assert_eq!(mutant.span(), span);

    // Test path method
    assert_eq!(mutant.path(), &path);

    // Test start method
    assert_eq!(mutant.span_start(), 10);

    // Test end method
    assert_eq!(mutant.span_end(), 20);

    // Test status method
    assert_eq!(mutant.status(), MutationStatus::Pending);
}

#[test]
fn mutator_test_mutant_methods_extreme() {
    let path = PathBuf::from(
        "extremely/long/and/complex/path/to/the/test/file/for/testing/purposes.noir",
    );
    let token = Token::Star;
    let mutation = token_mutation(token.clone()).unwrap();
    let span = (1000, 2000);
    let mutant = Mutant::new(
        42,
        token.clone(),
        mutation.clone(),
        token_as_bytes(&token.clone()).unwrap().to_vec(),
        span,
        Box::new(path.clone()),
        MutationStatus::Pending,
    );

    // Test token method
    assert_eq!(mutant.token(), token);

    // Test mutation method
    assert_eq!(mutant.mutation(), mutation);

    // Test string method
    let bytes_str =
        String::from_utf8(mutant.bytes().clone()).expect("Failed to convert bytes to string");
    assert_eq!(bytes_str, "*");

    // Test span method
    assert_eq!(mutant.span(), span);

    // Test path method
    assert_eq!(mutant.path(), &path);

    // Test start method
    assert_eq!(mutant.span_start(), 1000);

    // Test end method
    assert_eq!(mutant.span_end(), 2000);

    // Test status method
    assert_eq!(mutant.status(), MutationStatus::Pending);
}
