//! Solana keypair generation: an Ed25519 keypair from a random 32-byte
//! seed, with the base58 form of the public key as the address.

use vstd::prelude::*;

use rand::Rng;
use solana_sdk::signature::Keypair;
use solana_sdk::signer::Signer;

use crate::keys_and_address::{KeyPairGenerator, SolanaKeyPair};

verus! {

/// The base58 address that the chain's standard derivation yields for a
/// secret seed given as base58 text. Names the result of re-deriving
/// through solana_sdk's Keypair::new_from_array and Signer::pubkey,
/// which depends on the seed text alone.
pub uninterp spec fn sol_addr_of_seed(seed_base58: Seq<char>) -> Seq<char>;

impl KeyPairGenerator for SolanaKeyPair {
    closed spec fn addr(&self) -> Seq<char> {
        self.address@
    }

    closed spec fn wf(&self) -> bool {
        &&& vstd::utf8::is_ascii_chars(self.address@)
        &&& self.address@.len() >= 1
        &&& forall|i: int|
            0 <= i < self.address@.len() ==> crate::vanity_addr_generator::chain::spec_is_valid_base58_char(
                #[trigger] self.address@[i],
            )
        &&& self.address@ == sol_addr_of_seed(self.private_key_base58@)
    }

    fn generate_random() -> (r: Self) {
        random_solana_keypair()
    }

    fn get_address(&self) -> (r: &String) {
        &self.address
    }

    fn get_address_bytes(&self) -> (r: &[u8]) {
        self.address.as_str().as_bytes()
    }
}

/// Relies on solana_sdk's Keypair::new_from_array and Signer::pubkey,
/// and on rand's thread-local generator for the seed: the address is
/// the base58 text of the 32-byte public key; and the stored base58
/// seed text decodes back to the drawn seed, so the address is the
/// derivation of that text alone.
#[verifier::external_body]
fn random_solana_keypair() -> (r: SolanaKeyPair)
    ensures
        r.wf(),
        r.addr() == sol_addr_of_seed(r.private_key_text()),
{
    let mut seed = [0u8; 32];
    rand::rng().fill_bytes(&mut seed);
    let keypair = Keypair::new_from_array(seed);
    let address = keypair.pubkey().to_string();
    SolanaKeyPair {
        private_key_base58: solana_sdk::bs58::encode(keypair.secret_bytes()).into_string(),
        address,
    }
}

impl SolanaKeyPair {
    /// The 32-byte secret seed in base58 text.
    pub fn get_private_key_as_base58(&self) -> (r: String)
        ensures
            r@ == self.private_key_text(),
    {
        self.private_key_base58.clone()
    }

    /// The public key in base58 text, which is also the address.
    pub fn get_public_key_as_base58(&self) -> (r: &String)
        ensures
            r@ == self.addr(),
    {
        &self.address
    }

    /// The secret seed's base58 text.
    pub closed spec fn private_key_text(&self) -> Seq<char> {
        self.private_key_base58@
    }
}

/// Law: a well-formed Solana keypair is internally consistent. Its
/// address is exactly the derivation of its secret seed, and is base58
/// text.
pub proof fn lemma_solana_keypair_well_formed(k: &SolanaKeyPair)
    requires
        k.wf(),
    ensures
        vstd::utf8::is_ascii_chars(k.addr()),
        k.addr().len() >= 1,
        forall|i: int|
            0 <= i < k.addr().len() ==> crate::vanity_addr_generator::chain::spec_is_valid_base58_char(
                #[trigger] k.addr()[i],
            ),
        k.addr() == sol_addr_of_seed(k.private_key_text()),
{
}

} // verus!
