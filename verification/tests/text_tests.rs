use contract_verify::text::{contains_substring, nth_token, split_qualified, str_eq, u64_decimal};

#[test]
fn qualified_name_splits_at_the_first_colon() {
    assert_eq!(
        split_qualified("contracts/a.sol:Token"),
        Some(("contracts/a.sol".to_string(), "Token".to_string()))
    );
}

#[test]
fn contract_component_ends_at_the_second_colon() {
    assert_eq!(split_qualified("a:b:c"), Some(("a".to_string(), "b".to_string())));
}

#[test]
fn unqualified_name_does_not_split() {
    assert_eq!(split_qualified("Token"), None);
    assert_eq!(split_qualified(""), None);
}

#[test]
fn colon_at_the_edge_yields_empty_components() {
    assert_eq!(split_qualified(":Token"), Some(("".to_string(), "Token".to_string())));
    assert_eq!(split_qualified("a.sol:"), Some(("a.sol".to_string(), "".to_string())));
}

#[test]
fn tokens_are_counted_from_zero() {
    assert_eq!(nth_token("  alpha  bb   ccc  ", 0), Some("alpha".to_string()));
    assert_eq!(nth_token("  alpha  bb   ccc  ", 1), Some("bb".to_string()));
    assert_eq!(nth_token("  alpha  bb   ccc  ", 2), Some("ccc".to_string()));
    assert_eq!(nth_token("  alpha  bb   ccc  ", 3), None);
    assert_eq!(nth_token("", 0), None);
}

#[test]
fn substring_search_finds_inner_text() {
    assert!(contains_substring("pragma solidity ^0.8.0;", "pragma solidity"));
    assert!(!contains_substring("pragma  solidity", "pragma solidity"));
    assert!(contains_substring("abc", ""));
    assert!(!contains_substring("ab", "abc"));
}

#[test]
fn string_equality_is_by_characters() {
    assert!(str_eq("abc", "abc"));
    assert!(!str_eq("abc", "abd"));
    assert!(!str_eq("abc", "ab"));
    assert!(str_eq("", ""));
}

#[test]
fn decimal_rendering_has_no_leading_zeroes() {
    assert_eq!(u64_decimal(0), "0");
    assert_eq!(u64_decimal(7), "7");
    assert_eq!(u64_decimal(10), "10");
    assert_eq!(u64_decimal(305), "305");
    assert_eq!(u64_decimal(18446744073709551615), "18446744073709551615");
}
