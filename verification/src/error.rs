//! The unified error type for pattern validation and the search engines,
//! together with the narrower error structs that older call sites used.

use vstd::prelude::*;

verus! {

/// Every error the library can report.
///
/// All variants describe conditions that are detected before a search
/// starts; once a search runs, the only failure left is an exhausted
/// search budget, reported as `VanityGeneratorError`.
#[derive(Debug)]
pub enum VanityError {
    /// An input file could not be read or written; the payload carries the description.
    FileError(String),
    /// A keypair could not be produced.
    KeysAndAddressError(&'static str),
    /// The search engine stopped without a result.
    VanityGeneratorError(&'static str),
    /// Fast mode is on and the pattern is longer than the fast-mode ceiling.
    FastModeEnabled,
    /// A literal pattern holds a character outside the base58 alphabet.
    InputNotBase58,
    /// A literal pattern holds a character outside the base16 alphabet.
    InputNotBase16,
    /// A regex pattern does not compile, or holds a character that is
    /// neither an allowed metacharacter nor alphanumeric.
    InvalidRegex,
    /// A regex pattern holds an alphanumeric character outside the base58 alphabet.
    RegexNotBase58,
    /// A regex pattern holds an alphanumeric character outside the base16 alphabet.
    RegexNotBase16,
    /// The pattern is longer than the chain's absolute ceiling.
    RequestTooLong,
    /// Case-sensitive matching was requested for Ethereum, which has none.
    EthereumCaseSensitiveIsNotSupported,
}

/// An error from keypair generation alone.
#[derive(Debug)]
pub struct KeysAndAddressError(pub &'static str);

/// An error from the vanity search alone.
#[derive(Debug)]
pub struct VanityGeneratorError(pub &'static str);

impl From<KeysAndAddressError> for VanityError {
    fn from(keys_and_address_err: KeysAndAddressError) -> (r: VanityError)
        ensures
            r == VanityError::KeysAndAddressError(keys_and_address_err.0),
    {
        VanityError::KeysAndAddressError(keys_and_address_err.0)
    }
}

impl vstd::std_specs::convert::FromSpecImpl<KeysAndAddressError> for VanityError {
    open spec fn obeys_from_spec() -> bool {
        true
    }

    open spec fn from_spec(e: KeysAndAddressError) -> VanityError {
        VanityError::KeysAndAddressError(e.0)
    }
}

impl From<VanityGeneratorError> for VanityError {
    fn from(vanity_err: VanityGeneratorError) -> (r: VanityError)
        ensures
            r == VanityError::VanityGeneratorError(vanity_err.0),
    {
        VanityError::VanityGeneratorError(vanity_err.0)
    }
}

impl vstd::std_specs::convert::FromSpecImpl<VanityGeneratorError> for VanityError {
    open spec fn obeys_from_spec() -> bool {
        true
    }

    open spec fn from_spec(e: VanityGeneratorError) -> VanityError {
        VanityError::VanityGeneratorError(e.0)
    }
}

impl From<KeysAndAddressError> for VanityGeneratorError {
    fn from(keys_and_address_err: KeysAndAddressError) -> (r: VanityGeneratorError)
        ensures
            r == VanityGeneratorError(keys_and_address_err.0),
    {
        VanityGeneratorError(keys_and_address_err.0)
    }
}

impl vstd::std_specs::convert::FromSpecImpl<KeysAndAddressError> for VanityGeneratorError {
    open spec fn obeys_from_spec() -> bool {
        true
    }

    open spec fn from_spec(e: KeysAndAddressError) -> VanityGeneratorError {
        VanityGeneratorError(e.0)
    }
}

} // verus!
