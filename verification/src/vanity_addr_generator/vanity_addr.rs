//! The vanity search engines: validation and adjustment of the pattern,
//! then a candidate loop that draws keypair batches until an address
//! satisfies the pattern.

use vstd::prelude::*;

use crate::error::VanityError;
use crate::keys_and_address::KeyPairGenerator;
use crate::vanity_addr_generator::chain::VanityChain;
use crate::vanity_addr_generator::comp::{
    contains_case_insensitive, contains_memx, eq_prefix_case_insensitive, eq_prefix_memx,
    eq_suffix_case_insensitive, eq_suffix_memx, lower_bytes, lower_bytes_vec, spec_ci_contains,
    spec_ci_prefix, spec_ci_suffix, spec_contains, spec_is_prefix, spec_is_suffix,
};
use vstd::utf8::encode_utf8;

verus! {

/// The matching mode of a search.
#[derive(Copy, Clone, Debug, PartialEq, Eq, Structural, Default)]
pub enum VanityMode {
    /// The address starts with the pattern.
    #[default]
    Prefix,
    /// The address ends with the pattern.
    Suffix,
    /// The address holds the pattern somewhere.
    Anywhere,
    /// The address satisfies a regular expression.
    Regex,
}

/// Whether an address, as bytes, satisfies a literal pattern, as bytes,
/// under the given mode and case sensitivity. Case-insensitive matching
/// lowers both operands byte by byte.
pub open spec fn spec_literal_matches(
    addr_bytes: Seq<u8>,
    pat_bytes: Seq<u8>,
    case_sensitive: bool,
    vanity_mode: VanityMode,
) -> bool {
    match vanity_mode {
        VanityMode::Prefix => if case_sensitive {
            spec_is_prefix(pat_bytes, addr_bytes)
        } else {
            spec_ci_prefix(addr_bytes, lower_bytes(pat_bytes))
        },
        VanityMode::Suffix => if case_sensitive {
            spec_is_suffix(pat_bytes, addr_bytes)
        } else {
            spec_ci_suffix(addr_bytes, lower_bytes(pat_bytes))
        },
        VanityMode::Anywhere => if case_sensitive {
            spec_contains(addr_bytes, pat_bytes)
        } else {
            spec_ci_contains(addr_bytes, lower_bytes(pat_bytes))
        },
        VanityMode::Regex => false,
    }
}

/// Whether a pattern is a regular expression that compiles.
/// Names the result of regex::Regex::new, which depends on the pattern
/// alone.
pub uninterp spec fn regex_valid(pattern: Seq<char>) -> bool;

/// Whether a text matches a compiled regular expression.
/// Names the result of regex::Regex::is_match, which depends on the
/// pattern and the text alone.
pub uninterp spec fn regex_match(pattern: Seq<char>, text: Seq<char>) -> bool;

#[verifier::external_type_specification]
#[verifier::external_body]
pub struct ExRegex(regex::Regex);

/// A regular expression compiled once, kept beside the pattern text it
/// was compiled from. The one constructor ties the two together, and
/// both fields stay private, so every value holds the compiled form of
/// its own pattern text.
pub(crate) struct CompiledPattern {
    regex: regex::Regex,
    pattern: String,
}

impl CompiledPattern {
    /// The pattern text this regex was compiled from.
    pub(crate) closed spec fn pat(&self) -> Seq<char> {
        self.pattern@
    }

    /// Relies on regex::Regex::new: whether a pattern compiles depends
    /// on the pattern alone.
    #[verifier::external_body]
    pub(crate) fn compile(pattern: &str) -> (r: Option<CompiledPattern>)
        ensures
            (r is Some) == regex_valid(pattern@),
            r matches Some(c) ==> c.pat() == pattern@,
    {
        match regex::Regex::new(pattern) {
            Ok(re) => Some(CompiledPattern { regex: re, pattern: pattern.to_owned() }),
            Err(_) => None,
        }
    }

    /// Relies on regex::Regex::is_match: the match verdict depends on
    /// the pattern and the text alone; the held regex is the one that
    /// `compile` built from the held pattern text.
    #[verifier::external_body]
    pub(crate) fn is_match(&self, text: &str) -> (r: bool)
        ensures
            r == regex_match(self.pat(), text@),
    {
        self.regex.is_match(text)
    }
}

/// The entry points for vanity address generation.
pub struct VanityAddr;

/// The search loops behind [`VanityAddr`].
pub struct SearchEngines;

impl VanityAddr {
    /// Generates a keypair whose address satisfies a literal pattern.
    ///
    /// The pattern is validated against the chain's rules and adjusted for
    /// the chain's address framing; an empty pattern short-circuits to one
    /// unconstrained random keypair. The `threads` argument names the
    /// worker budget a caller plans with; the verified search itself runs
    /// as one candidate loop.
    pub fn generate<T: VanityChain>(
        string: &str,
        threads: usize,
        case_sensitive: bool,
        fast_mode: bool,
        vanity_mode: VanityMode,
    ) -> (r: Result<T, VanityError>)
        requires
            vanity_mode != VanityMode::Regex || string@.len() == 0,
        ensures
            ({
                let v = T::validate_spec(string, fast_mode, case_sensitive);
                &&& (v matches Err(e) ==> r == Err::<T, VanityError>(e))
                &&& (v is Ok && string@.len() == 0 ==> (r matches Ok(k) && k.wf()))
                &&& (v is Ok ==> match r {
                    Ok(k) => k.wf() && (string@.len() > 0 ==> spec_literal_matches(
                        encode_utf8(k.addr()),
                        encode_utf8(T::adjust_spec(string@, vanity_mode)),
                        case_sensitive,
                        vanity_mode,
                    )),
                    Err(e) => e matches VanityError::VanityGeneratorError(_),
                })
            }),
    {
        let validation = T::validate_input(string, fast_mode, case_sensitive);
        if let Err(e) = validation {
            return Err(e);
        }
        let adjusted_string = T::adjust_input(string, vanity_mode);

        if string.is_empty() {
            return Ok(T::generate_random());
        }

        SearchEngines::find_vanity_address::<T>(
            adjusted_string,
            threads,
            case_sensitive,
            vanity_mode,
        )
    }

    /// Generates a keypair whose address matches a regex pattern.
    ///
    /// The pattern is validated character by character against the chain's
    /// alphabet, adjusted for the chain's address framing, and compiled
    /// once before the search starts; an empty pattern short-circuits to
    /// one unconstrained random keypair.
    pub fn generate_regex<T: VanityChain>(regex_str: &str, threads: usize) -> (r: Result<
        T,
        VanityError,
    >)
        ensures
            ({
                let v = T::validate_regex_spec(regex_str);
                let adjusted = T::adjust_regex_spec(regex_str@);
                &&& (v matches Err(e) ==> r == Err::<T, VanityError>(e))
                &&& (v is Ok && regex_str@.len() == 0 ==> (r matches Ok(k) && k.wf()))
                &&& (v is Ok && regex_str@.len() > 0 ==> {
                    &&& (!regex_valid(adjusted) ==> r == Err::<T, VanityError>(
                        VanityError::InvalidRegex,
                    ))
                    &&& match r {
                        Ok(k) => regex_valid(adjusted) && k.wf() && regex_match(
                            adjusted,
                            k.addr(),
                        ),
                        Err(e) => (!regex_valid(adjusted) && e == VanityError::InvalidRegex) || (
                        regex_valid(adjusted) && e matches VanityError::VanityGeneratorError(_)),
                    }
                })
            }),
    {
        let validation = T::validate_regex_pattern(regex_str);
        if let Err(e) = validation {
            return Err(e);
        }
        let adjusted_regex = T::adjust_regex_pattern(regex_str);

        if regex_str.is_empty() {
            return Ok(T::generate_random());
        }

        SearchEngines::find_vanity_address_regex::<T>(adjusted_regex, threads)
    }
}

impl SearchEngines {
    /// Draws keypair batches and returns the first whose address satisfies
    /// the literal pattern. The candidate budget is bounded but large
    /// enough never to run out in practice; an exhausted budget is
    /// reported as a generator error.
    fn find_vanity_address<T: VanityChain>(
        string: String,
        threads: usize,
        case_sensitive: bool,
        vanity_mode: VanityMode,
    ) -> (r: Result<T, VanityError>)
        requires
            vanity_mode != VanityMode::Regex,
        ensures
            match r {
                Ok(k) => k.wf() && spec_literal_matches(
                    encode_utf8(k.addr()),
                    encode_utf8(string@),
                    case_sensitive,
                    vanity_mode,
                ),
                Err(e) => e matches VanityError::VanityGeneratorError(_),
            },
    {
        let string_bytes: &[u8] = string.as_str().as_bytes();
        let lower_string_bytes: Vec<u8> = if !case_sensitive {
            lower_bytes_vec(string_bytes)
        } else {
            Vec::new()
        };

        let mut fuel: u64 = 0xFFFF_FFFF_FFFF_FFFF;
        while fuel > 0
            invariant
                string_bytes@ == encode_utf8(string@),
                !case_sensitive ==> lower_string_bytes@ == lower_bytes(string_bytes@),
                vanity_mode != VanityMode::Regex,
            decreases fuel,
        {
            let mut batch: Vec<T> = T::generate_batch();

            while batch.len() > 0
                invariant
                    string_bytes@ == encode_utf8(string@),
                    !case_sensitive ==> lower_string_bytes@ == lower_bytes(string_bytes@),
                    vanity_mode != VanityMode::Regex,
                    forall|i: int| 0 <= i < batch@.len() ==> (#[trigger] batch@[i]).wf(),
                decreases batch.len(),
            {
                let keys_and_address = batch.pop().unwrap();
                let address_bytes = keys_and_address.get_address_bytes();

                let matched = match vanity_mode {
                    VanityMode::Prefix => if case_sensitive {
                        eq_prefix_memx(address_bytes, string_bytes)
                    } else {
                        eq_prefix_case_insensitive(address_bytes, lower_string_bytes.as_slice())
                    },
                    VanityMode::Suffix => if case_sensitive {
                        eq_suffix_memx(address_bytes, string_bytes)
                    } else {
                        eq_suffix_case_insensitive(address_bytes, lower_string_bytes.as_slice())
                    },
                    VanityMode::Anywhere => if case_sensitive {
                        contains_memx(address_bytes, string_bytes)
                    } else {
                        contains_case_insensitive(address_bytes, lower_string_bytes.as_slice())
                    },
                    VanityMode::Regex => vstd::pervasive::unreached(),
                };

                if matched {
                    return Ok(keys_and_address);
                }
            }
            fuel -= 1;
        }
        Err(VanityError::VanityGeneratorError("the search budget was exhausted"))
    }

    /// Draws keypair batches and returns the first whose address matches
    /// the regex pattern, which must already be chain-adjusted. The
    /// pattern's syntax is checked once before any candidate is drawn.
    pub fn find_vanity_address_regex<T: VanityChain>(regex_str: String, threads: usize) -> (r:
        Result<T, VanityError>)
        ensures
            !regex_valid(regex_str@) ==> r == Err::<T, VanityError>(VanityError::InvalidRegex),
            match r {
                Ok(k) => regex_valid(regex_str@) && k.wf() && regex_match(regex_str@, k.addr()),
                Err(e) => (!regex_valid(regex_str@) && e == VanityError::InvalidRegex) || (
                regex_valid(regex_str@) && e matches VanityError::VanityGeneratorError(_)),
            },
    {
        let compiled = match CompiledPattern::compile(regex_str.as_str()) {
            Some(compiled) => compiled,
            None => {
                return Err(VanityError::InvalidRegex);
            },
        };

        let mut fuel: u64 = 0xFFFF_FFFF_FFFF_FFFF;
        while fuel > 0
            invariant
                regex_valid(regex_str@),
                compiled.pat() == regex_str@,
            decreases fuel,
        {
            let mut batch: Vec<T> = T::generate_batch();

            while batch.len() > 0
                invariant
                    regex_valid(regex_str@),
                    compiled.pat() == regex_str@,
                    forall|i: int| 0 <= i < batch@.len() ==> (#[trigger] batch@[i]).wf(),
                decreases batch.len(),
            {
                let keys_and_address = batch.pop().unwrap();
                let matched = compiled.is_match(keys_and_address.get_address().as_str());
                if matched {
                    return Ok(keys_and_address);
                }
            }
            fuel -= 1;
        }
        Err(VanityError::VanityGeneratorError("the search budget was exhausted"))
    }
}

} // verus!
