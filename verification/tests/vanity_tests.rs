//! Tests for the vanity search: literal and regex modes across the
//! three chains, and the validation errors.

use btc_vanity::error::VanityError;
use btc_vanity::{BitcoinKeyPair, EthereumKeyPair, KeyPairGenerator, SolanaKeyPair, VanityAddr, VanityMode};

#[test]
fn btc_test_generate_vanity_anywhere() {
    let vanity_string = "ab";
    let keys_and_address = VanityAddr::generate::<BitcoinKeyPair>(
        vanity_string,
        4,
        true,
        true,
        VanityMode::Anywhere,
    )
    .unwrap();

    assert!(keys_and_address.get_comp_address().contains(vanity_string));
}

#[test]
fn btc_test_generate_vanity_string_too_long_with_fast_mode() {
    let vanity_string = "123456"; // Longer than the five-character fast-mode ceiling.
    let result =
        VanityAddr::generate::<BitcoinKeyPair>(vanity_string, 4, false, true, VanityMode::Prefix);
    assert!(matches!(result, Err(VanityError::FastModeEnabled)));
}

#[test]
fn btc_test_generate_vanity_invalid_base58() {
    let vanity_string = "emiO"; // Holds the invalid base58 character 'O'.
    let result =
        VanityAddr::generate::<BitcoinKeyPair>(vanity_string, 4, false, true, VanityMode::Prefix);
    assert!(matches!(result, Err(VanityError::InputNotBase58)));
}

#[test]
fn btc_test_generate_regex_rewrite() {
    // '^E' is rewritten to '^1E', so the search must yield an address
    // that starts with "1E".
    let pattern = "^E";
    let keys_and_address = VanityAddr::generate_regex::<BitcoinKeyPair>(pattern, 4).unwrap();
    let address = keys_and_address.get_comp_address();
    assert!(address.starts_with("1E"), "Address should start with '1E': {}", address);
}

#[test]
fn btc_test_generate_regex_e_any_t() {
    // '^E.*T$' is rewritten to '^1E.*T$'.
    let pattern = "^E.*T$";
    let keys_and_address = VanityAddr::generate_regex::<BitcoinKeyPair>(pattern, 4)
        .expect("Failed to generate address for '^E.*T$'");
    let address = keys_and_address.get_comp_address();

    assert!(address.starts_with("1E"), "Address should start with '1E': {}", address);
    assert!(address.ends_with('T'), "Address should end with 'T': {}", address);
}

#[test]
fn btc_test_generate_regex_invalid_syntax() {
    let result = VanityAddr::generate_regex::<BitcoinKeyPair>("^(abc", 4);
    assert!(matches!(result, Err(VanityError::InvalidRegex)));
}

#[test]
fn btc_test_generate_regex_forbidden_char_zero() {
    let result = VanityAddr::generate_regex::<BitcoinKeyPair>("^0", 4);
    assert!(matches!(result, Err(VanityError::RegexNotBase58)));
}

#[test]
fn btc_test_generate_regex_forbidden_char_o() {
    let result = VanityAddr::generate_regex::<BitcoinKeyPair>("^O", 4);
    assert!(matches!(result, Err(VanityError::RegexNotBase58)));
}

#[test]
fn btc_test_generate_regex_forbidden_char_i() {
    let result = VanityAddr::generate_regex::<BitcoinKeyPair>("^I", 4);
    assert!(matches!(result, Err(VanityError::RegexNotBase58)));
}

#[test]
fn eth_test_generate_vanity_prefix() {
    let vanity_string = "ab";
    let keys_and_address =
        VanityAddr::generate::<EthereumKeyPair>(vanity_string, 4, false, true, VanityMode::Prefix)
            .unwrap();

    let expected_prefix = "ab";
    assert!(keys_and_address.get_address().to_lowercase().starts_with(expected_prefix));
}

#[test]
fn eth_test_generate_vanity_suffix() {
    let vanity_string = "123";
    let keys_and_address =
        VanityAddr::generate::<EthereumKeyPair>(vanity_string, 4, false, true, VanityMode::Suffix)
            .unwrap();

    assert!(keys_and_address.get_address().ends_with(vanity_string));
}

#[test]
fn eth_test_generate_vanity_anywhere() {
    let vanity_string = "abc";
    let keys_and_address = VanityAddr::generate::<EthereumKeyPair>(
        vanity_string,
        4,
        false,
        true,
        VanityMode::Anywhere,
    )
    .unwrap();

    assert!(keys_and_address.get_address().contains(vanity_string));
}

#[test]
fn eth_test_generate_vanity_string_too_long_with_fast_mode() {
    let vanity_string = "12345678901234567890"; // Longer than the sixteen-character ceiling.
    let result =
        VanityAddr::generate::<EthereumKeyPair>(vanity_string, 4, false, true, VanityMode::Prefix);
    assert!(matches!(result, Err(VanityError::FastModeEnabled)));
}

#[test]
fn test_generate_vanity_invalid_base16() {
    let vanity_string = "g123"; // Holds the invalid base16 character 'g'.
    let result =
        VanityAddr::generate::<EthereumKeyPair>(vanity_string, 4, false, true, VanityMode::Prefix);
    assert!(matches!(result, Err(VanityError::InputNotBase16)));
}

#[test]
fn test_generate_vanity_with_prefix() {
    let vanity_string = "0xdead"; // The 'x' of the prefix is not base16.
    let result =
        VanityAddr::generate::<EthereumKeyPair>(vanity_string, 4, false, true, VanityMode::Prefix);
    assert!(matches!(result, Err(VanityError::InputNotBase16)));
}

#[test]
fn eth_test_generate_regex_prefix() {
    let pattern = "^ab";
    let keys_and_address = VanityAddr::generate_regex::<EthereumKeyPair>(pattern, 4).unwrap();
    let address = keys_and_address.get_address();

    assert!(address.starts_with("ab"), "Address should start with 'ab': {}", address);
}

#[test]
fn eth_test_generate_regex_suffix() {
    let pattern = "cd$";
    let keys_and_address = VanityAddr::generate_regex::<EthereumKeyPair>(pattern, 4).unwrap();
    let address = keys_and_address.get_address();

    assert!(address.ends_with("cd"), "Address should end with 'cd': {}", address);
}

#[test]
fn eth_test_generate_regex_anywhere() {
    let pattern = ".*abc.*";
    let keys_and_address = VanityAddr::generate_regex::<EthereumKeyPair>(pattern, 4).unwrap();
    let address = keys_and_address.get_address();

    assert!(address.contains("abc"), "Address should contain 'abc': {}", address);
}

#[test]
fn eth_test_generate_regex_invalid_syntax() {
    let result = VanityAddr::generate_regex::<EthereumKeyPair>("^(abc", 4);
    assert!(matches!(result, Err(VanityError::InvalidRegex)));
}

#[test]
fn eth_test_generate_regex_invalid_characters() {
    let result = VanityAddr::generate_regex::<EthereumKeyPair>("^gh", 4);
    assert!(matches!(result, Err(VanityError::RegexNotBase16)));
}

#[test]
fn test_generate_regex_with_prefix() {
    let result = VanityAddr::generate_regex::<EthereumKeyPair>("^0xdead", 4);
    assert!(matches!(result, Err(VanityError::RegexNotBase16)));
}

#[test]
fn sol_test_generate_vanity_prefix() {
    let vanity_string = "et";
    let keys_and_address =
        VanityAddr::generate::<SolanaKeyPair>(vanity_string, 4, true, true, VanityMode::Prefix)
            .unwrap();

    let vanity_addr_starts_with = "et";
    assert!(keys_and_address.get_address().starts_with(vanity_addr_starts_with));
}

#[test]
fn sol_test_generate_vanity_suffix() {
    let vanity_string = "12";
    let keys_and_address =
        VanityAddr::generate::<SolanaKeyPair>(vanity_string, 4, false, true, VanityMode::Suffix)
            .unwrap();

    assert!(keys_and_address.get_address().ends_with(vanity_string));
}

#[test]
fn sol_test_generate_vanity_anywhere() {
    let vanity_string = "ab";
    let keys_and_address =
        VanityAddr::generate::<SolanaKeyPair>(vanity_string, 4, true, true, VanityMode::Anywhere)
            .unwrap();

    assert!(keys_and_address.get_address().contains(vanity_string));
}

#[test]
fn sol_test_generate_vanity_string_too_long_with_fast_mode() {
    let vanity_string = "123456"; // Longer than the five-character fast-mode ceiling.
    let result =
        VanityAddr::generate::<SolanaKeyPair>(vanity_string, 4, false, true, VanityMode::Prefix);
    assert!(matches!(result, Err(VanityError::FastModeEnabled)));
}

#[test]
fn sol_test_generate_vanity_invalid_base58() {
    let vanity_string = "emiO"; // Holds the invalid base58 character 'O'.
    let result =
        VanityAddr::generate::<SolanaKeyPair>(vanity_string, 4, false, true, VanityMode::Prefix);
    assert!(matches!(result, Err(VanityError::InputNotBase58)));
}

#[test]
fn sol_test_generate_regex_suffix() {
    let pattern = "cd$";
    let keys_and_address = VanityAddr::generate_regex::<SolanaKeyPair>(pattern, 4).unwrap();
    let address = keys_and_address.get_address();

    assert!(address.ends_with("cd"), "Address should end with 'cd': {}", address);
}

#[test]
fn sol_test_generate_regex_anywhere() {
    let pattern = ".*ab.*";
    let keys_and_address = VanityAddr::generate_regex::<SolanaKeyPair>(pattern, 4).unwrap();
    let address = keys_and_address.get_address();

    assert!(address.contains("ab"), "Address should contain 'ab': {}", address);
}

#[test]
fn sol_test_generate_regex_invalid_syntax() {
    let result = VanityAddr::generate_regex::<SolanaKeyPair>("^(abc", 4);
    assert!(matches!(result, Err(VanityError::InvalidRegex)));
}

#[test]
fn sol_test_generate_regex_invalid_characters() {
    let result = VanityAddr::generate_regex::<SolanaKeyPair>("^ghO", 4);
    assert!(matches!(result, Err(VanityError::RegexNotBase58)));
}

#[test]
fn test_generate_regex_starts_with_e() {
    let pattern = "^e";
    let keys_and_address = VanityAddr::generate_regex::<SolanaKeyPair>(pattern, 4).unwrap();
    let address = keys_and_address.get_address();

    assert!(address.starts_with("e"), "Address should start with 'e': {}", address);
}

#[test]
fn test_generate_regex_contains_11() {
    let pattern = ".*11.*";
    let keys_and_address = VanityAddr::generate_regex::<SolanaKeyPair>(pattern, 4).unwrap();
    let address = keys_and_address.get_address();

    assert!(address.contains("11"), "Address should contain '11': {}", address);
}

#[test]
fn test_generate_regex_contains_22() {
    let pattern = ".*22.*";
    let keys_and_address = VanityAddr::generate_regex::<SolanaKeyPair>(pattern, 4).unwrap();
    let address = keys_and_address.get_address();

    assert!(address.contains("22"), "Address should contain '22': {}", address);
}

#[test]
fn test_generate_regex_ends_with_t() {
    let pattern = "t$";
    let keys_and_address = VanityAddr::generate_regex::<SolanaKeyPair>(pattern, 4).unwrap();
    let address = keys_and_address.get_address();

    assert!(address.ends_with("t"), "Address should end with 't': {}", address);
}

#[test]
fn test_generate_regex_complex_sequence() {
    let pattern = "11.*22";
    let keys_and_address = VanityAddr::generate_regex::<SolanaKeyPair>(pattern, 4).unwrap();
    let address = keys_and_address.get_address();

    assert!(
        address.contains("11") && address.contains("22"),
        "Address should contain '11' followed by '22': {}",
        address
    );
}

#[test]
fn test_invalid_regex_handling() {
    let invalid_regex = "[";

    let result = VanityAddr::generate_regex::<BitcoinKeyPair>(invalid_regex, 8);

    assert!(result.is_err(), "Expected error for invalid regex, but got success");
}
