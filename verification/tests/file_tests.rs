//! Tests for input-file line parsing.

use btc_vanity::file::parse_line;
use btc_vanity::vanity_addr_generator::chain::Chain;
use btc_vanity::VanityMode;

#[test]
fn test_parse_line_with_valid_flags() {
    let line = "test -p -c";
    let item = parse_line(line).expect("Failed to parse valid line");

    assert_eq!(item.pattern, "test");
    assert_eq!(item.flags.vanity_mode, Some(VanityMode::Prefix));
    assert!(item.flags.is_case_sensitive);
}

#[test]
fn test_parse_line_with_invalid_flags() {
    let line = "test -z";
    let item = parse_line(line).expect("Failed to parse line with invalid flags");

    assert_eq!(item.pattern, "test");
    assert!(item.flags.vanity_mode.is_none());
}

#[test]
fn test_parse_line_with_no_flags() {
    let line = "test";
    let item = parse_line(line).expect("Failed to parse line without flags");

    assert_eq!(item.pattern, "test");
    assert!(item.flags.vanity_mode.is_none());
    assert!(!item.flags.is_case_sensitive);
    assert!(!item.flags.disable_fast_mode);
}

#[test]
fn test_parse_line_with_output_file_flag() {
    let line = "test -p -o output.txt";
    let item = parse_line(line).expect("Failed to parse line with output file flag");

    assert_eq!(item.pattern, "test");
    assert_eq!(item.flags.vanity_mode, Some(VanityMode::Prefix));
    assert_eq!(item.flags.output_file_name, Some("output.txt".to_string()));
}

#[test]
fn test_parse_empty_line() {
    let line = "";
    let item = parse_line(line);

    assert!(item.is_none(), "Empty line should not be parsed");
}

#[test]
fn test_parse_comment_line() {
    let line = "# This is a comment";
    let item = parse_line(line);

    assert!(item.is_none(), "Comment line should not be parsed");
}

#[test]
fn test_parse_whitespace_only_line() {
    assert!(parse_line("   \t  ").is_none());
}

#[test]
fn test_parse_line_with_tabs() {
    let item = parse_line("emiv\t-s\t--eth").expect("tab-separated line should parse");
    assert_eq!(item.pattern, "emiv");
    assert_eq!(item.flags.vanity_mode, Some(VanityMode::Suffix));
    assert_eq!(item.flags.chain, Some(Chain::Ethereum));
}

#[test]
fn test_parse_line_last_output_file_wins() {
    let item = parse_line("pat -o first.txt -o second.txt").expect("line should parse");
    assert_eq!(item.flags.output_file_name, Some("second.txt".to_string()));
}

#[test]
fn test_parse_line_output_flag_without_value() {
    let item = parse_line("pat -o").expect("line should parse");
    assert_eq!(item.flags.output_file_name, None);
}

#[test]
fn test_parse_line_threads_defaults() {
    let no_flags = parse_line("pat").unwrap();
    assert_eq!(no_flags.flags.threads, 16);
    let with_flags = parse_line("pat -c").unwrap();
    assert_eq!(with_flags.flags.threads, 0);
}

#[test]
fn test_parse_line_chain_and_mode_flags() {
    let item = parse_line("pat --sol -a -d").unwrap();
    assert_eq!(item.flags.chain, Some(Chain::Solana));
    assert_eq!(item.flags.vanity_mode, Some(VanityMode::Anywhere));
    assert!(item.flags.disable_fast_mode);
    assert!(!item.flags.is_case_sensitive);

    let regex_item = parse_line("pat --btc --regex").unwrap();
    assert_eq!(regex_item.flags.chain, Some(Chain::Bitcoin));
    assert_eq!(regex_item.flags.vanity_mode, Some(VanityMode::Regex));
}
