//! Ethereum keypair generation: a secp256k1 keypair and the Keccak-256
//! account address, kept as 40 hex digits without the `0x` prefix. One
//! curve context and one random source serve a whole generation batch.

use vstd::prelude::*;

use sha3::{Digest, Keccak256};

use crate::keys_and_address::{EthereumKeyPair, KeyPairGenerator};
use crate::vanity_addr_generator::chain::spec_is_base16_char;
use crate::BATCH_SIZE;

verus! {

/// The account address (40 hex digits, no prefix) that the chain's
/// standard derivation yields for a private key given as hex text.
/// Names the result of re-deriving through secp256k1's
/// PublicKey::from_secret_key and the Keccak-256 hash, which depends on
/// the key text alone.
pub uninterp spec fn eth_addr_of_key(private_key_hex: Seq<char>) -> Seq<char>;

/// The uncompressed public key hex text that a private key given as hex
/// text determines. Names the result of secp256k1's
/// PublicKey::from_secret_key, which depends on the key text alone.
pub uninterp spec fn eth_pubkey_of_key(private_key_hex: Seq<char>) -> Seq<char>;

#[verifier::external_type_specification]
#[verifier::external_body]
pub struct ExThreadRng(secp256k1::rand::rngs::ThreadRng);

/// Relies on rand's thread-local generator: one handle to the random
/// source serves a whole batch.
#[verifier::external_body]
fn eth_thread_rng() -> secp256k1::rand::rngs::ThreadRng {
    secp256k1::rand::rng()
}

/// Relies on secp256k1's SecretKey::new and PublicKey::from_secret_key,
/// sha3's Keccak256 and hex::encode: the account address is the hex form
/// of the last 20 bytes of the Keccak-256 hash of the uncompressed
/// public key without its format byte, so it is exactly 40 lowercase hex
/// digits; and the private key hex text decodes back to the drawn key,
/// so the stored public key and address are the derivations of that
/// text alone.
#[verifier::external_body]
fn random_ethereum_keypair_with(rng: &mut secp256k1::rand::rngs::ThreadRng) -> (r: EthereumKeyPair)
    ensures
        r.wf(),
        r.public_key_text() == eth_pubkey_of_key(r.private_key_text()),
        r.addr() == eth_addr_of_key(r.private_key_text()),
{
    let secret_key = secp256k1::SecretKey::new(rng);
    let public_key = secp256k1::PublicKey::from_secret_key(&secret_key);
    let public_key_bytes = public_key.serialize_uncompressed();
    let public_key_hash = Keccak256::digest(&public_key_bytes[1..]);
    let address = hex::encode(&public_key_hash[12..]);
    EthereumKeyPair {
        private_key_hex: hex::encode(secret_key.to_secret_bytes()),
        public_key_hex: hex::encode(public_key_bytes),
        address,
    }
}

impl KeyPairGenerator for EthereumKeyPair {
    closed spec fn addr(&self) -> Seq<char> {
        self.address@
    }

    closed spec fn wf(&self) -> bool {
        &&& vstd::utf8::is_ascii_chars(self.address@)
        &&& self.address@.len() == 40
        &&& forall|i: int|
            0 <= i < self.address@.len() ==> {
                &&& spec_is_base16_char(#[trigger] self.address@[i])
                &&& !('A' <= self.address@[i] && self.address@[i] <= 'F')
            }
        &&& self.public_key_hex@ == eth_pubkey_of_key(self.private_key_hex@)
        &&& self.address@ == eth_addr_of_key(self.private_key_hex@)
    }

    fn generate_random() -> (r: Self) {
        let mut rng = eth_thread_rng();
        random_ethereum_keypair_with(&mut rng)
    }

    fn generate_batch() -> (r: Vec<Self>) {
        let mut rng = eth_thread_rng();
        let mut batch: Vec<EthereumKeyPair> = Vec::new();
        while batch.len() < BATCH_SIZE
            invariant
                batch.len() <= BATCH_SIZE,
                forall|i: int| 0 <= i < batch@.len() ==> (#[trigger] batch@[i]).wf(),
            decreases BATCH_SIZE - batch.len(),
        {
            batch.push(random_ethereum_keypair_with(&mut rng));
        }
        batch
    }

    fn get_address(&self) -> (r: &String) {
        &self.address
    }

    fn get_address_bytes(&self) -> (r: &[u8]) {
        self.address.as_str().as_bytes()
    }
}

impl EthereumKeyPair {
    /// The private key as hex text.
    pub fn get_private_key_as_hex(&self) -> (r: String)
        ensures
            r@ == self.private_key_text(),
    {
        self.private_key_hex.clone()
    }

    /// The private key as hex text with the `0x` prefix.
    pub fn get_private_key_as_hex_with_prefix(&self) -> (r: String)
        ensures
            r@ == "0x"@ + self.private_key_text(),
    {
        let mut out: String = "0x".to_owned();
        out.append(self.private_key_hex.as_str());
        out
    }

    /// The uncompressed public key as hex text.
    pub fn get_public_key_as_hex(&self) -> (r: String)
        ensures
            r@ == self.public_key_text(),
    {
        self.public_key_hex.clone()
    }

    /// The address with the `0x` prefix.
    pub fn get_address_with_prefix(&self) -> (r: String)
        ensures
            r@ == "0x"@ + self.addr(),
    {
        let mut out: String = "0x".to_owned();
        out.append(self.address.as_str());
        out
    }

    /// The private key's hex text.
    pub closed spec fn private_key_text(&self) -> Seq<char> {
        self.private_key_hex@
    }

    /// The uncompressed public key's hex text.
    pub closed spec fn public_key_text(&self) -> Seq<char> {
        self.public_key_hex@
    }
}

/// Law: a well-formed Ethereum keypair is internally consistent. Its
/// public key and address are exactly the derivations of its private
/// key, and the address is 40 lowercase hex digits.
pub proof fn lemma_ethereum_keypair_well_formed(k: &EthereumKeyPair)
    requires
        k.wf(),
    ensures
        vstd::utf8::is_ascii_chars(k.addr()),
        k.addr().len() == 40,
        forall|i: int|
            0 <= i < k.addr().len() ==> spec_is_base16_char(#[trigger] k.addr()[i]) && !('A'
                <= k.addr()[i] && k.addr()[i] <= 'F'),
        k.public_key_text() == eth_pubkey_of_key(k.private_key_text()),
        k.addr() == eth_addr_of_key(k.private_key_text()),
{
}

} // verus!
