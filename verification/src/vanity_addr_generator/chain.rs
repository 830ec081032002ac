//! Chain policy: the per-chain alphabet and length rules for literal and
//! regex patterns, and the per-chain pattern adjustments.

use vstd::prelude::*;

use crate::error::VanityError;
use crate::keys_and_address::KeyPairGenerator;
use crate::utils::{spec_lower_char, unicode_alphanumeric};
use vstd::string::StringSliceAdditionalSpecFns;
use crate::vanity_addr_generator::vanity_addr::VanityMode;

verus! {

/// The fast-mode length ceiling for base58 patterns.
pub const BASE58_FAST_MODE_MAX: usize = 5;

/// The absolute length ceiling for base58 patterns.
pub const BASE58_MAX: usize = 25;

/// The fast-mode length ceiling for base16 patterns.
pub const BASE16_FAST_MODE_MAX: usize = 16;

/// The absolute length ceiling for base16 patterns.
pub const BASE16_MAX: usize = 40;

/// The base58 alphabet: digits without '0', uppercase letters without
/// 'I' and 'O', lowercase letters without 'l'.
pub open spec fn spec_is_valid_base58_char(c: char) -> bool {
    ||| ('1' <= c && c <= '9')
    ||| ('A' <= c && c <= 'H')
    ||| ('J' <= c && c <= 'N')
    ||| ('P' <= c && c <= 'Z')
    ||| ('a' <= c && c <= 'k')
    ||| ('m' <= c && c <= 'z')
}

/// The base16 alphabet: hexadecimal digits of either case.
pub open spec fn spec_is_base16_char(c: char) -> bool {
    ||| ('0' <= c && c <= '9')
    ||| ('a' <= c && c <= 'f')
    ||| ('A' <= c && c <= 'F')
}

/// The regex metacharacters that pattern validation accepts.
pub open spec fn spec_is_regex_meta(c: char) -> bool {
    ||| c == '^'
    ||| c == '$'
    ||| c == '.'
    ||| c == '*'
    ||| c == '+'
    ||| c == '?'
    ||| c == '('
    ||| c == ')'
    ||| c == '['
    ||| c == ']'
    ||| c == '{'
    ||| c == '}'
    ||| c == '|'
    ||| c == '-'
}

/// Whether `c` belongs to the base58 alphabet.
pub fn is_valid_base58_char(c: char) -> (r: bool)
    ensures
        r == spec_is_valid_base58_char(c),
{
    ('1' <= c && c <= '9') || ('A' <= c && c <= 'H') || ('J' <= c && c <= 'N') || ('P' <= c
        && c <= 'Z') || ('a' <= c && c <= 'k') || ('m' <= c && c <= 'z')
}

/// Whether `c` belongs to the base16 alphabet.
pub fn is_base16_char(c: char) -> (r: bool)
    ensures
        r == spec_is_base16_char(c),
{
    ('0' <= c && c <= '9') || ('a' <= c && c <= 'f') || ('A' <= c && c <= 'F')
}

/// Whether `c` is one of the accepted regex metacharacters.
pub fn is_regex_meta(c: char) -> (r: bool)
    ensures
        r == spec_is_regex_meta(c),
{
    c == '^' || c == '$' || c == '.' || c == '*' || c == '+' || c == '?' || c == '(' || c == ')'
        || c == '[' || c == ']' || c == '{' || c == '}' || c == '|' || c == '-'
}

/// What validating a base58 literal pattern returns: the length checks go
/// over the byte length of the pattern, the alphabet check over its
/// characters, in this order.
pub open spec fn spec_validate_base58_input(s: &str, fast_mode: bool) -> Result<(), VanityError> {
    if s.spec_bytes().len() > BASE58_FAST_MODE_MAX && fast_mode {
        Err(VanityError::FastModeEnabled)
    } else if s.spec_bytes().len() > BASE58_MAX {
        Err(VanityError::RequestTooLong)
    } else if exists|i: int| 0 <= i < s@.len() && !spec_is_valid_base58_char(#[trigger] s@[i]) {
        Err(VanityError::InputNotBase58)
    } else {
        Ok(())
    }
}

/// Validates a base58 literal pattern for Bitcoin and Solana.
pub fn validate_base58_input(string: &str, fast_mode: bool) -> (r: Result<(), VanityError>)
    ensures
        r == spec_validate_base58_input(string, fast_mode),
{
    let byte_len = string.as_bytes().len();
    if byte_len > BASE58_FAST_MODE_MAX && fast_mode {
        return Err(VanityError::FastModeEnabled);
    }
    if byte_len > BASE58_MAX {
        return Err(VanityError::RequestTooLong);
    }
    let n = string.unicode_len();
    let mut i: usize = 0;
    while i < n
        invariant
            n == string@.len(),
            0 <= i <= n,
            byte_len == string.spec_bytes().len(),
            !(byte_len > BASE58_FAST_MODE_MAX && fast_mode),
            byte_len <= BASE58_MAX,
            forall|j: int| 0 <= j < i ==> spec_is_valid_base58_char(#[trigger] string@[j]),
        decreases n - i,
    {
        if !is_valid_base58_char(string.get_char(i)) {
            return Err(VanityError::InputNotBase58);
        }
        i += 1;
    }
    Ok(())
}

/// What validating a regex pattern returns, walking the characters from
/// the front: metacharacters pass; alphanumeric characters must belong to
/// the chain's alphabet; anything else is an invalid regex.
pub open spec fn spec_validate_regex_chars(s: Seq<char>, base16: bool) -> Result<(), VanityError>
    decreases s.len(),
{
    if s.len() == 0 {
        Ok(())
    } else if spec_is_regex_meta(s[0]) {
        spec_validate_regex_chars(s.drop_first(), base16)
    } else if unicode_alphanumeric(s[0]) {
        if base16 {
            if spec_is_base16_char(s[0]) {
                spec_validate_regex_chars(s.drop_first(), base16)
            } else {
                Err(VanityError::RegexNotBase16)
            }
        } else {
            if spec_is_valid_base58_char(s[0]) {
                spec_validate_regex_chars(s.drop_first(), base16)
            } else {
                Err(VanityError::RegexNotBase58)
            }
        }
    } else {
        Err(VanityError::InvalidRegex)
    }
}

/// Validates a regex pattern against the base58 alphabet, for Bitcoin and
/// Solana.
pub fn validate_base58_regex_pattern(regex_str: &str) -> (r: Result<(), VanityError>)
    ensures
        r == spec_validate_regex_chars(regex_str@, false),
{
    validate_regex_chars(regex_str, false)
}

/// Validates a regex pattern against the base16 alphabet, for Ethereum.
pub fn validate_base16_regex_pattern(regex_str: &str) -> (r: Result<(), VanityError>)
    ensures
        r == spec_validate_regex_chars(regex_str@, true),
{
    validate_regex_chars(regex_str, true)
}

/// Walks a regex pattern and applies the chain's character rule.
fn validate_regex_chars(regex_str: &str, base16: bool) -> (r: Result<(), VanityError>)
    ensures
        r == spec_validate_regex_chars(regex_str@, base16),
{
    let ghost whole: Seq<char> = regex_str@;
    let n = regex_str.unicode_len();
    let mut i: usize = 0;
    proof {
        assert(whole.skip(0) =~= whole);
    }
    while i < n
        invariant
            n == whole.len(),
            whole == regex_str@,
            0 <= i <= n,
            spec_validate_regex_chars(whole, base16) == spec_validate_regex_chars(
                whole.skip(i as int),
                base16,
            ),
        decreases n - i,
    {
        let c = regex_str.get_char(i);
        proof {
            assert(whole.skip(i as int)[0] == whole[i as int]);
            assert(whole.skip(i as int).drop_first() =~= whole.skip(i as int + 1));
        }
        if is_regex_meta(c) {
            i += 1;
        } else if c.is_alphanumeric() {
            if base16 {
                if is_base16_char(c) {
                    i += 1;
                } else {
                    return Err(VanityError::RegexNotBase16);
                }
            } else {
                if is_valid_base58_char(c) {
                    i += 1;
                } else {
                    return Err(VanityError::RegexNotBase58);
                }
            }
        } else {
            return Err(VanityError::InvalidRegex);
        }
    }
    proof {
        assert(whole.skip(n as int) =~= Seq::<char>::empty());
    }
    Ok(())
}

/// Chain-specific pattern policy: validation of literal and regex
/// patterns, and adjustment for the chain's address framing.
pub trait VanityChain: KeyPairGenerator + Send {
    /// What validating a literal pattern returns.
    spec fn validate_spec(s: &str, fast_mode: bool, case_sensitive: bool) -> Result<
        (),
        VanityError,
    >;

    /// What validating a regex pattern returns.
    spec fn validate_regex_spec(s: &str) -> Result<(), VanityError>;

    /// What adjusting a literal pattern produces.
    spec fn adjust_spec(input: Seq<char>, vanity_mode: VanityMode) -> Seq<char>;

    /// What adjusting a regex pattern produces.
    spec fn adjust_regex_spec(input: Seq<char>) -> Seq<char>;

    /// Validates a literal pattern against the chain's alphabet and
    /// length rules.
    fn validate_input(string: &str, fast_mode: bool, case_sensitive: bool) -> (r: Result<
        (),
        VanityError,
    >)
        ensures
            r == Self::validate_spec(string, fast_mode, case_sensitive),
    ;

    /// Validates a regex pattern against the chain's alphabet.
    fn validate_regex_pattern(regex_str: &str) -> (r: Result<(), VanityError>)
        ensures
            r == Self::validate_regex_spec(regex_str),
    ;

    /// Adjusts a literal pattern for the chain's address framing.
    fn adjust_input(input: &str, vanity_mode: VanityMode) -> (r: String)
        ensures
            r@ == Self::adjust_spec(input@, vanity_mode),
    ;

    /// Adjusts a regex pattern for the chain's address framing.
    fn adjust_regex_pattern(regex_str: &str) -> (r: String)
        ensures
            r@ == Self::adjust_regex_spec(regex_str@),
    ;
}

impl VanityChain for crate::keys_and_address::BitcoinKeyPair {
    open spec fn validate_spec(s: &str, fast_mode: bool, case_sensitive: bool) -> Result<
        (),
        VanityError,
    > {
        spec_validate_base58_input(s, fast_mode)
    }

    open spec fn validate_regex_spec(s: &str) -> Result<(), VanityError> {
        spec_validate_regex_chars(s@, false)
    }

    open spec fn adjust_spec(input: Seq<char>, vanity_mode: VanityMode) -> Seq<char> {
        match vanity_mode {
            VanityMode::Prefix => seq!['1'] + input,
            _ => input,
        }
    }

    open spec fn adjust_regex_spec(input: Seq<char>) -> Seq<char> {
        if input.len() > 0 && input[0] == '^' && !(input.len() > 1 && input[1] == '1') {
            seq!['^', '1'] + input.skip(1)
        } else {
            input
        }
    }

    fn validate_input(string: &str, fast_mode: bool, case_sensitive: bool) -> (r: Result<
        (),
        VanityError,
    >) {
        validate_base58_input(string, fast_mode)
    }

    fn validate_regex_pattern(regex_str: &str) -> (r: Result<(), VanityError>) {
        validate_base58_regex_pattern(regex_str)
    }

    fn adjust_input(input: &str, vanity_mode: VanityMode) -> (r: String) {
        match vanity_mode {
            VanityMode::Prefix => {
                let mut out: String = "1".to_owned();
                out.append(input);
                proof {
                    reveal_strlit("1");
                    assert(out@ =~= seq!['1'] + input@);
                }
                out
            },
            _ => input.to_owned(),
        }
    }

    fn adjust_regex_pattern(regex_str: &str) -> (r: String) {
        let n = regex_str.unicode_len();
        if n > 0 && regex_str.get_char(0) == '^' && !(n > 1 && regex_str.get_char(1) == '1') {
            let mut out: String = "^1".to_owned();
            let rest = regex_str.substring_char(1, n);
            out.append(rest);
            proof {
                reveal_strlit("^1");
                assert(rest@ =~= regex_str@.skip(1));
                assert(out@ =~= seq!['^', '1'] + regex_str@.skip(1));
            }
            out
        } else {
            regex_str.to_owned()
        }
    }
}

/// What validating a base16 literal pattern returns: Ethereum refuses
/// case-sensitive matching outright; then the length checks go over the
/// byte length, and the alphabet check over the characters.
pub open spec fn spec_validate_base16_input(
    s: &str,
    fast_mode: bool,
    case_sensitive: bool,
) -> Result<(), VanityError> {
    if case_sensitive {
        Err(VanityError::EthereumCaseSensitiveIsNotSupported)
    } else if s.spec_bytes().len() > BASE16_FAST_MODE_MAX && fast_mode {
        Err(VanityError::FastModeEnabled)
    } else if s.spec_bytes().len() > BASE16_MAX {
        Err(VanityError::RequestTooLong)
    } else if exists|i: int| 0 <= i < s@.len() && !spec_is_base16_char(#[trigger] s@[i]) {
        Err(VanityError::InputNotBase16)
    } else {
        Ok(())
    }
}

/// Validates a base16 literal pattern for Ethereum.
pub fn validate_base16_input(string: &str, fast_mode: bool, case_sensitive: bool) -> (r: Result<
    (),
    VanityError,
>)
    ensures
        r == spec_validate_base16_input(string, fast_mode, case_sensitive),
{
    if case_sensitive {
        return Err(VanityError::EthereumCaseSensitiveIsNotSupported);
    }
    let byte_len = string.as_bytes().len();
    if byte_len > BASE16_FAST_MODE_MAX && fast_mode {
        return Err(VanityError::FastModeEnabled);
    }
    if byte_len > BASE16_MAX {
        return Err(VanityError::RequestTooLong);
    }
    let n = string.unicode_len();
    let mut i: usize = 0;
    while i < n
        invariant
            n == string@.len(),
            0 <= i <= n,
            !case_sensitive,
            byte_len == string.spec_bytes().len(),
            !(byte_len > BASE16_FAST_MODE_MAX && fast_mode),
            byte_len <= BASE16_MAX,
            forall|j: int| 0 <= j < i ==> spec_is_base16_char(#[trigger] string@[j]),
        decreases n - i,
    {
        if !is_base16_char(string.get_char(i)) {
            return Err(VanityError::InputNotBase16);
        }
        i += 1;
    }
    Ok(())
}

impl VanityChain for crate::keys_and_address::EthereumKeyPair {
    open spec fn validate_spec(s: &str, fast_mode: bool, case_sensitive: bool) -> Result<
        (),
        VanityError,
    > {
        spec_validate_base16_input(s, fast_mode, case_sensitive)
    }

    open spec fn validate_regex_spec(s: &str) -> Result<(), VanityError> {
        spec_validate_regex_chars(s@, true)
    }

    open spec fn adjust_spec(input: Seq<char>, vanity_mode: VanityMode) -> Seq<char> {
        input
    }

    open spec fn adjust_regex_spec(input: Seq<char>) -> Seq<char> {
        let lowered = input.map_values(|c: char| spec_lower_char(c));
        if lowered.len() >= 3 && lowered[0] == '^' && lowered[1] == '0' && lowered[2] == 'x' {
            seq!['^'] + lowered.skip(3)
        } else {
            lowered
        }
    }

    fn validate_input(string: &str, fast_mode: bool, case_sensitive: bool) -> (r: Result<
        (),
        VanityError,
    >) {
        validate_base16_input(string, fast_mode, case_sensitive)
    }

    fn validate_regex_pattern(regex_str: &str) -> (r: Result<(), VanityError>) {
        validate_base16_regex_pattern(regex_str)
    }

    fn adjust_input(input: &str, vanity_mode: VanityMode) -> (r: String) {
        input.to_owned()
    }

    fn adjust_regex_pattern(regex_str: &str) -> (r: String) {
        let ghost whole: Seq<char> = regex_str@;
        let n = regex_str.unicode_len();
        let mut lowered = String::new();
        let mut i: usize = 0;
        while i < n
            invariant
                n == whole.len(),
                whole == regex_str@,
                0 <= i <= n,
                lowered@ =~= whole.subrange(0, i as int).map_values(
                    |c: char| spec_lower_char(c),
                ),
            decreases n - i,
        {
            let c = regex_str.get_char(i);
            lowered.push(c.to_ascii_lowercase());
            i += 1;
            proof {
                assert(lowered@ =~= whole.subrange(0, i as int).map_values(
                    |c: char| spec_lower_char(c),
                ));
            }
        }
        proof {
            assert(whole.subrange(0, n as int) =~= whole);
        }
        let ghost lw: Seq<char> = whole.map_values(|c: char| spec_lower_char(c));
        if n >= 3 {
            let lowered_str = lowered.as_str();
            if lowered_str.get_char(0) == '^' && lowered_str.get_char(1) == '0'
                && lowered_str.get_char(2) == 'x' {
                let mut out: String = "^".to_owned();
                let rest = lowered_str.substring_char(3, n);
                out.append(rest);
                proof {
                    reveal_strlit("^");
                    assert(rest@ =~= lw.skip(3));
                    assert(out@ =~= seq!['^'] + lw.skip(3));
                }
                return out;
            }
        }
        lowered
    }
}

impl VanityChain for crate::keys_and_address::SolanaKeyPair {
    open spec fn validate_spec(s: &str, fast_mode: bool, case_sensitive: bool) -> Result<
        (),
        VanityError,
    > {
        spec_validate_base58_input(s, fast_mode)
    }

    open spec fn validate_regex_spec(s: &str) -> Result<(), VanityError> {
        spec_validate_regex_chars(s@, false)
    }

    open spec fn adjust_spec(input: Seq<char>, vanity_mode: VanityMode) -> Seq<char> {
        input
    }

    open spec fn adjust_regex_spec(input: Seq<char>) -> Seq<char> {
        input
    }

    fn validate_input(string: &str, fast_mode: bool, case_sensitive: bool) -> (r: Result<
        (),
        VanityError,
    >) {
        validate_base58_input(string, fast_mode)
    }

    fn validate_regex_pattern(regex_str: &str) -> (r: Result<(), VanityError>) {
        validate_base58_regex_pattern(regex_str)
    }

    fn adjust_input(input: &str, vanity_mode: VanityMode) -> (r: String) {
        input.to_owned()
    }

    fn adjust_regex_pattern(regex_str: &str) -> (r: String) {
        regex_str.to_owned()
    }
}

/// Law: for a pattern made of base58 characters, the fast-mode ceiling
/// is sharp. A pattern exactly at the ceiling passes; one character more
/// is rejected as `FastModeEnabled` when fast mode is on, and passes
/// when it is off.
pub proof fn lemma_base58_fast_mode_boundary(s: &str, fast_mode: bool)
    requires
        forall|i: int| 0 <= i < s@.len() ==> spec_is_valid_base58_char(#[trigger] s@[i]),
    ensures
        s@.len() == BASE58_FAST_MODE_MAX ==> spec_validate_base58_input(s, fast_mode)
            == Ok::<(), VanityError>(()),
        s@.len() == BASE58_FAST_MODE_MAX + 1 && fast_mode ==> spec_validate_base58_input(
            s,
            fast_mode,
        ) == Err::<(), VanityError>(VanityError::FastModeEnabled),
        s@.len() == BASE58_FAST_MODE_MAX + 1 && !fast_mode ==> spec_validate_base58_input(
            s,
            fast_mode,
        ) == Ok::<(), VanityError>(()),
{
    assert(vstd::utf8::is_ascii_chars(s@));
    vstd::utf8::is_ascii_chars_encode_utf8(s@);
}

/// Law: for a pattern made of base16 characters and a case-insensitive
/// request, the Ethereum fast-mode ceiling is sharp, like the base58
/// one.
pub proof fn lemma_base16_fast_mode_boundary(s: &str, fast_mode: bool)
    requires
        forall|i: int| 0 <= i < s@.len() ==> spec_is_base16_char(#[trigger] s@[i]),
    ensures
        s@.len() == BASE16_FAST_MODE_MAX ==> spec_validate_base16_input(s, fast_mode, false)
            == Ok::<(), VanityError>(()),
        s@.len() == BASE16_FAST_MODE_MAX + 1 && fast_mode ==> spec_validate_base16_input(
            s,
            fast_mode,
            false,
        ) == Err::<(), VanityError>(VanityError::FastModeEnabled),
        s@.len() == BASE16_FAST_MODE_MAX + 1 && !fast_mode ==> spec_validate_base16_input(
            s,
            fast_mode,
            false,
        ) == Ok::<(), VanityError>(()),
{
    assert(vstd::utf8::is_ascii_chars(s@));
    vstd::utf8::is_ascii_chars_encode_utf8(s@);
}

/// Law: a pattern that holds one of the characters the base58 alphabet
/// leaves out, '0', 'I', 'O' or 'l', is rejected as `InputNotBase58`,
/// whenever it is short enough for the length checks to pass.
pub proof fn lemma_forbidden_base58_characters(s: &str, fast_mode: bool, i: int)
    requires
        0 <= i < s@.len(),
        s@[i] == '0' || s@[i] == 'I' || s@[i] == 'O' || s@[i] == 'l',
        s.spec_bytes().len() <= BASE58_FAST_MODE_MAX,
    ensures
        spec_validate_base58_input(s, fast_mode) == Err::<(), VanityError>(
            VanityError::InputNotBase58,
        ),
{
    assert(!spec_is_valid_base58_char(s@[i]));
}

/// The supported chains.
#[derive(Debug, Clone, Copy, PartialEq, Eq, Structural, Default)]
pub enum Chain {
    #[default]
    Bitcoin,
    Ethereum,
    Solana,
}

impl std::str::FromStr for Chain {
    type Err = String;

    /// Reads a chain from its name, in any letter case.
    fn from_str(chain: &str) -> Result<Chain, String> {
        let n = chain.unicode_len();
        let mut lowered = String::new();
        let mut i: usize = 0;
        while i < n
            invariant
                n == chain@.len(),
                0 <= i <= n,
            decreases n - i,
        {
            let c = chain.get_char(i);
            lowered.push(c.to_ascii_lowercase());
            i += 1;
        }
        if crate::utils::str_eq(lowered.as_str(), "bitcoin") {
            Ok(Chain::Bitcoin)
        } else if crate::utils::str_eq(lowered.as_str(), "ethereum") {
            Ok(Chain::Ethereum)
        } else if crate::utils::str_eq(lowered.as_str(), "solana") {
            Ok(Chain::Solana)
        } else {
            let mut message: String = "Unsupported chain: ".to_owned();
            message.append(chain);
            Err(message)
        }
    }
}

} // verus!
