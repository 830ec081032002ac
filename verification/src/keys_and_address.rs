//! Keypair generation: one type per supported chain, each holding the
//! textual encodings of its keys next to the derived address.

pub mod btc;
pub mod eth;
pub mod sol;

use vstd::prelude::*;

use crate::BATCH_SIZE;

verus! {

/// Behaviour shared by the per-chain keypair types: random generation and
/// access to the derived address, as a string and as raw bytes.
pub trait KeyPairGenerator: Sized {
    /// The derived address, the part of a keypair that matching reads.
    spec fn addr(&self) -> Seq<char>;

    /// The structural facts that hold of every generated keypair.
    spec fn wf(&self) -> bool;

    /// Draws one random keypair and derives its address.
    fn generate_random() -> (r: Self)
        ensures
            r.wf(),
    ;

    /// The address as a string.
    fn get_address(&self) -> (r: &String)
        ensures
            r@ == self.addr(),
    ;

    /// The address as the bytes of its string form.
    fn get_address_bytes(&self) -> (r: &[u8])
        ensures
            r@ == vstd::utf8::encode_utf8(self.addr()),
    ;

    /// Draws one batch of random keypairs.
    fn generate_batch() -> (r: Vec<Self>)
        ensures
            r.len() == BATCH_SIZE,
            forall|i: int| 0 <= i < r@.len() ==> (#[trigger] r@[i]).wf(),
    {
        let mut batch: Vec<Self> = Vec::new();
        while batch.len() < BATCH_SIZE
            invariant
                batch.len() <= BATCH_SIZE,
                forall|i: int| 0 <= i < batch@.len() ==> (#[trigger] batch@[i]).wf(),
            decreases BATCH_SIZE - batch.len(),
        {
            batch.push(Self::generate_random());
        }
        batch
    }

    /// Replaces the contents of an existing batch with newly drawn keypairs.
    fn fill_batch(batch_array: &mut Vec<Self>)
        ensures
            final(batch_array).len() == BATCH_SIZE,
            forall|i: int|
                0 <= i < final(batch_array)@.len() ==> (#[trigger] final(batch_array)@[i]).wf(),
    {
        *batch_array = Self::generate_batch();
    }
}

/// A Bitcoin keypair: the private key in wallet import format, the
/// compressed public key in hex, and the compressed P2PKH address.
pub struct BitcoinKeyPair {
    /// The private key in wallet import format.
    private_key_wif: String,
    /// The compressed public key, hex-encoded.
    public_key_hex: String,
    /// The compressed base58check P2PKH address.
    comp_address: String,
}

/// An Ethereum keypair: the private and public keys hex-encoded, and the
/// address as the 40 hex digits of the account, without the `0x` prefix.
pub struct EthereumKeyPair {
    /// The 32-byte private key, hex-encoded.
    private_key_hex: String,
    /// The 65-byte uncompressed public key, hex-encoded.
    public_key_hex: String,
    /// The address: 40 lowercase hex digits, without the `0x` prefix.
    address: String,
}

/// A Solana keypair: the 32-byte secret in base58, and the address, which
/// is the base58 form of the public key.
pub struct SolanaKeyPair {
    /// The 32-byte secret seed, base58-encoded.
    private_key_base58: String,
    /// The base58 form of the public key.
    address: String,
}

} // verus!
