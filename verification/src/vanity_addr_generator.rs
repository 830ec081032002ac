//! The heart of the library: chain policy, byte matchers, and the vanity
//! search engines.

pub mod chain;
pub mod comp;
pub mod vanity_addr;
