//! Vanity keypair search for Bitcoin, Ethereum and Solana.
//!
//! The library validates a user-chosen pattern against a chain's alphabet
//! and length rules, adjusts it for the chain's address framing, and then
//! draws random keypairs until one's address satisfies the pattern, as a
//! literal prefix, suffix or substring, or as a regular expression.

use vstd::prelude::*;

pub mod decoration;
pub mod error;
pub mod file;
pub mod flags;
pub mod flags_and_args;
pub mod keys_and_address;
pub mod utils;
pub mod vanity_addr_generator;

pub use crate::keys_and_address::{BitcoinKeyPair, EthereumKeyPair, KeyPairGenerator, SolanaKeyPair};
pub use crate::vanity_addr_generator::vanity_addr::{VanityAddr, VanityMode};

verus! {

/// How many candidate keypairs one generation batch holds.
pub const BATCH_SIZE: usize = 64;

} // verus!
