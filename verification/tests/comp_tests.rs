//! Tests for the byte matchers: the case-sensitive memory-comparison
//! paths and the case-insensitive adaptive substring search.

use btc_vanity::vanity_addr_generator::comp::{
    contains_case_insensitive, contains_memx, eq_prefix_case_insensitive, eq_prefix_memx,
    eq_suffix_case_insensitive, eq_suffix_memx,
};

#[test]
fn test_case_insensitive_contains() {
    let address = "abcDEF123";
    let pattern = "abc";
    let address_bytes = address.as_bytes();
    let pattern_bytes = pattern.as_bytes();

    let result = contains_case_insensitive(address_bytes, pattern_bytes);
    let contains_result = address.to_lowercase().contains(pattern);

    assert_eq!(result, contains_result);
    assert!(result);
}

#[test]
fn test_case_insensitive_contains_hex() {
    // Hex text shaped like an Ethereum address.
    let address = "a1b2c3d4e5f6789abcdef";
    let pattern = "abc";
    let address_bytes = address.as_bytes();
    let pattern_bytes = pattern.as_bytes();

    let result = contains_case_insensitive(address_bytes, pattern_bytes);
    let contains_result = address.to_lowercase().contains(pattern);

    assert_eq!(result, contains_result);
    assert!(result);
}

#[test]
fn test_case_insensitive_contains_no_match() {
    let address = "2091ab99a2e6bcd34293eb76aafb55dab7ae2de1";
    let pattern = "abc";
    let address_bytes = address.as_bytes();
    let pattern_bytes = pattern.as_bytes();

    let result = contains_case_insensitive(address_bytes, pattern_bytes);
    let contains_result = address.to_lowercase().contains(pattern);

    assert_eq!(result, contains_result);
    assert!(!result);
}

#[test]
fn test_prefix_memx() {
    assert!(eq_prefix_memx(b"1BvBMSEYst", b"1BvB"));
    assert!(!eq_prefix_memx(b"1BvBMSEYst", b"1bvb"));
    assert!(!eq_prefix_memx(b"1B", b"1BvB"));
    assert!(eq_prefix_memx(b"anything", b""));
}

#[test]
fn test_suffix_memx() {
    assert!(eq_suffix_memx(b"1BvBMSEYst", b"EYst"));
    assert!(!eq_suffix_memx(b"1BvBMSEYst", b"eyst"));
    assert!(!eq_suffix_memx(b"st", b"EYst"));
    assert!(eq_suffix_memx(b"anything", b""));
}

#[test]
fn test_contains_memx() {
    assert!(contains_memx(b"1BvBMSEYst", b"MSE"));
    assert!(!contains_memx(b"1BvBMSEYst", b"mse"));
    assert!(!contains_memx(b"short", b"longer than it"));
    assert!(contains_memx(b"anything", b""));
}

// The case-insensitive matchers take a pre-lowered pattern and must
// agree with "lowercase both operands, then compare".
#[test]
fn test_ci_prefix_agrees_with_lowercase_compare() {
    let cases: &[(&str, &str)] = &[
        ("AbCdEf", "abc"),
        ("AbCdEf", "ABC"),
        ("aBcDeF", "abcdef"),
        ("aBcDeF", "abcdefg"),
        ("aBcDeF", ""),
        ("", "a"),
        ("XyZ", "x"),
    ];
    for (data, pat) in cases {
        let lowered_pat = pat.to_lowercase();
        let expected = data.to_lowercase().starts_with(&lowered_pat);
        assert_eq!(
            eq_prefix_case_insensitive(data.as_bytes(), lowered_pat.as_bytes()),
            expected,
            "prefix mismatch for {data:?} / {pat:?}"
        );
    }
}

#[test]
fn test_ci_suffix_agrees_with_lowercase_compare() {
    let cases: &[(&str, &str)] = &[
        ("AbCdEf", "DEF"),
        ("AbCdEf", "def"),
        ("aBcDeF", "abcdef"),
        ("aBcDeF", "zabcdef"),
        ("aBcDeF", ""),
        ("", "a"),
    ];
    for (data, pat) in cases {
        let lowered_pat = pat.to_lowercase();
        let expected = data.to_lowercase().ends_with(&lowered_pat);
        assert_eq!(
            eq_suffix_case_insensitive(data.as_bytes(), lowered_pat.as_bytes()),
            expected,
            "suffix mismatch for {data:?} / {pat:?}"
        );
    }
}

#[test]
fn test_ci_contains_agrees_with_lowercase_compare() {
    let cases: &[(&str, &str)] = &[
        // One-byte fast path.
        ("aBcDeF", "d"),
        ("aBcDeF", "z"),
        // Bad-character-table path (2 to 16 bytes).
        ("xxAbCdExx", "bcd"),
        ("xxAbCdExx", "bce"),
        ("1E2345MNOPqrstuv69xyzT", "69"),
        ("ababababAB", "abab"),
        ("MissISSippi", "issis"),
        ("abcdefghijklmnopqrs", "cdefghijklmnopqr"),
        // Naive path (over 16 bytes).
        ("The Quick Brown Fox Jumps Over", "quick brown fox jumps"),
        ("The Quick Brown Fox Jumps Over", "quick brown dog jumps"),
        // Boundary lengths.
        ("AbC", ""),
        ("AbC", "abc"),
        ("AbC", "abcd"),
        ("", ""),
    ];
    for (data, pat) in cases {
        let lowered_pat = pat.to_lowercase();
        let expected = data.to_lowercase().contains(&lowered_pat);
        assert_eq!(
            contains_case_insensitive(data.as_bytes(), lowered_pat.as_bytes()),
            expected,
            "contains mismatch for {data:?} / {pat:?}"
        );
    }
}

#[test]
fn test_ci_matchers_reject_unlowered_pattern_bytes() {
    // The pattern operand is taken as already lowered; uppercase pattern
    // bytes can never match, because lowered data holds no uppercase.
    assert!(!eq_prefix_case_insensitive(b"ABC", b"ABC"));
    assert!(!eq_suffix_case_insensitive(b"ABC", b"ABC"));
    assert!(!contains_case_insensitive(b"xABCx", b"ABC"));
}

#[test]
fn test_ci_matchers_pass_non_ascii_bytes_through() {
    // Bytes outside the ASCII letters are compared unchanged.
    let data = [0xC3u8, 0xA9, 0x31];
    assert!(eq_prefix_case_insensitive(&data, &[0xC3, 0xA9]));
    assert!(eq_suffix_case_insensitive(&data, &[0xA9, 0x31]));
    assert!(contains_case_insensitive(&data, &[0xA9]));
    assert!(!contains_case_insensitive(&data, &[0x83]));
}
