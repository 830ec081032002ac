//! Bitcoin keypair generation: a secp256k1 keypair and its compressed
//! base58check P2PKH address. One curve context and one random source
//! serve a whole generation batch.

use vstd::prelude::*;

use crate::keys_and_address::{BitcoinKeyPair, KeyPairGenerator};
use crate::BATCH_SIZE;

verus! {

/// The compressed P2PKH mainnet address that the chain's standard
/// derivation yields for a private key given in wallet import format.
/// Names the result of re-deriving through bitcoin's PrivateKey,
/// PublicKey and Address::p2pkh, which depends on the key text alone.
pub uninterp spec fn btc_addr_of_wif(wif: Seq<char>) -> Seq<char>;

/// The compressed public key hex text that a private key in wallet
/// import format determines. Names the result of bitcoin's
/// PrivateKey::public_key and PublicKey::to_string, which depends on
/// the key text alone.
pub uninterp spec fn btc_pubkey_of_wif(wif: Seq<char>) -> Seq<char>;

/// One batch's generation state: the curve context and the handle to
/// the thread-local random source, built once and reused for a whole
/// batch. The verifier treats the whole struct as opaque, because the
/// context type's generic parameter is bound by an outside trait.
#[verifier::external_body]
struct BtcGenerator {
    secp: bitcoin::secp256k1::Secp256k1<bitcoin::secp256k1::All>,
    rng: bitcoin::secp256k1::rand::rngs::ThreadRng,
}

/// Relies on bitcoin's Secp256k1::new and rand's thread_rng: one curve
/// context and one random handle serve a whole batch.
#[verifier::external_body]
fn btc_generator() -> BtcGenerator {
    BtcGenerator {
        secp: bitcoin::secp256k1::Secp256k1::new(),
        rng: bitcoin::secp256k1::rand::thread_rng(),
    }
}

/// Relies on bitcoin's Secp256k1::generate_keypair, PrivateKey::to_wif
/// and Address::p2pkh: a freshly drawn keypair's compressed mainnet
/// P2PKH address is base58check text and begins with '1'; and the WIF
/// text decodes back to the drawn key, network and compressed flag, so
/// the stored public key and address are the derivations of the WIF
/// text alone.
#[verifier::external_body]
fn random_bitcoin_keypair_with(generator: &mut BtcGenerator) -> (r: BitcoinKeyPair)
    ensures
        r.wf(),
        r.comp_public_key() == btc_pubkey_of_wif(r.wif()),
        r.addr() == btc_addr_of_wif(r.wif()),
{
    let (sk, pk) = generator.secp.generate_keypair(&mut generator.rng);
    let private_key = bitcoin::PrivateKey::new(sk, bitcoin::Network::Bitcoin);
    let public_key = bitcoin::PublicKey::new(pk);
    let comp_address = bitcoin::Address::p2pkh(public_key, bitcoin::Network::Bitcoin).to_string();
    BitcoinKeyPair {
        private_key_wif: private_key.to_wif(),
        public_key_hex: public_key.to_string(),
        comp_address,
    }
}

impl KeyPairGenerator for BitcoinKeyPair {
    closed spec fn addr(&self) -> Seq<char> {
        self.comp_address@
    }

    closed spec fn wf(&self) -> bool {
        &&& vstd::utf8::is_ascii_chars(self.comp_address@)
        &&& self.comp_address@.len() >= 1
        &&& self.comp_address@[0] == '1'
        &&& forall|i: int|
            0 <= i < self.comp_address@.len() ==> crate::vanity_addr_generator::chain::spec_is_valid_base58_char(
                #[trigger] self.comp_address@[i],
            )
        &&& self.public_key_hex@ == btc_pubkey_of_wif(self.private_key_wif@)
        &&& self.comp_address@ == btc_addr_of_wif(self.private_key_wif@)
    }

    fn generate_random() -> (r: Self) {
        let mut generator = btc_generator();
        random_bitcoin_keypair_with(&mut generator)
    }

    fn generate_batch() -> (r: Vec<Self>) {
        let mut generator = btc_generator();
        let mut batch: Vec<BitcoinKeyPair> = Vec::new();
        while batch.len() < BATCH_SIZE
            invariant
                batch.len() <= BATCH_SIZE,
                forall|i: int| 0 <= i < batch@.len() ==> (#[trigger] batch@[i]).wf(),
            decreases BATCH_SIZE - batch.len(),
        {
            batch.push(random_bitcoin_keypair_with(&mut generator));
        }
        batch
    }

    fn get_address(&self) -> (r: &String) {
        &self.comp_address
    }

    fn get_address_bytes(&self) -> (r: &[u8]) {
        self.comp_address.as_str().as_bytes()
    }
}

impl BitcoinKeyPair {
    /// The compressed P2PKH address.
    pub fn get_comp_address(&self) -> (r: &String)
        ensures
            r@ == self.addr(),
    {
        &self.comp_address
    }

    /// The private key in wallet import format.
    pub fn get_wif_private_key(&self) -> (r: String)
        ensures
            r@ == self.wif(),
    {
        self.private_key_wif.clone()
    }

    /// The compressed public key, hex-encoded.
    pub fn get_comp_public_key(&self) -> (r: String)
        ensures
            r@ == self.comp_public_key(),
    {
        self.public_key_hex.clone()
    }

    /// The private key's wallet-import-format text.
    pub closed spec fn wif(&self) -> Seq<char> {
        self.private_key_wif@
    }

    /// The compressed public key's hex text.
    pub closed spec fn comp_public_key(&self) -> Seq<char> {
        self.public_key_hex@
    }
}

/// Law: a well-formed Bitcoin keypair is internally consistent. Its
/// public key and address are exactly the derivations of its private
/// key, and the address is base58 text that begins with '1'.
pub proof fn lemma_bitcoin_keypair_well_formed(k: &BitcoinKeyPair)
    requires
        k.wf(),
    ensures
        vstd::utf8::is_ascii_chars(k.addr()),
        k.addr().len() >= 1,
        k.addr()[0] == '1',
        forall|i: int|
            0 <= i < k.addr().len() ==> crate::vanity_addr_generator::chain::spec_is_valid_base58_char(
                #[trigger] k.addr()[i],
            ),
        k.comp_public_key() == btc_pubkey_of_wif(k.wif()),
        k.addr() == btc_addr_of_wif(k.wif()),
{
}

} // verus!
