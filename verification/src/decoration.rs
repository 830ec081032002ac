//! Human-readable fragments that describe a search, for callers that
//! build status lines around a pattern.

use vstd::prelude::*;

use crate::vanity_addr_generator::vanity_addr::VanityMode;

verus! {

/// The mode and case-sensitivity fragments for a search description.
pub fn get_decoration_strings<'a>(vanity_mode: VanityMode, is_case_sensitive: bool) -> (r: (
    &'a str,
    &'a str,
))
    ensures
        vanity_mode == VanityMode::Prefix ==> r.0@ == "has the prefix"@,
        vanity_mode == VanityMode::Suffix ==> r.0@ == "has the suffix"@,
        vanity_mode == VanityMode::Anywhere ==> r.0@ == "has the string"@,
        vanity_mode == VanityMode::Regex ==> r.0@ == "satisfies the given regex"@,
        is_case_sensitive ==> r.1@ == "(case sensitive)"@,
        !is_case_sensitive ==> r.1@ == "(case sensitivity disabled)"@,
{
    let vanity_mode_str = match vanity_mode {
        VanityMode::Prefix => "has the prefix",
        VanityMode::Suffix => "has the suffix",
        VanityMode::Anywhere => "has the string",
        VanityMode::Regex => "satisfies the given regex",
    };
    let case_sensitive_str = if is_case_sensitive {
        "(case sensitive)"
    } else {
        "(case sensitivity disabled)"
    };
    (vanity_mode_str, case_sensitive_str)
}

} // verus!
