//! Tests for keypair generation: every returned keypair's address must
//! re-derive from its private key through the chain's standard
//! derivation.

use btc_vanity::{BitcoinKeyPair, EthereumKeyPair, KeyPairGenerator, SolanaKeyPair};

use sha3::Digest;
use solana_sdk::signer::Signer;

#[test]
fn btc_test_generate_random() {
    let keys_and_address = BitcoinKeyPair::generate_random();

    // Re-derive the public key from the private key.
    let secp = bitcoin::secp256k1::Secp256k1::new();
    let private_key = bitcoin::PrivateKey::from_wif(&keys_and_address.get_wif_private_key())
        .expect("the WIF text must parse");
    let derived_public_key = private_key.public_key(&secp);
    assert_eq!(keys_and_address.get_comp_public_key(), derived_public_key.to_string());

    // Re-derive the address from the public key.
    let derived_address =
        bitcoin::Address::p2pkh(derived_public_key, bitcoin::Network::Bitcoin).to_string();
    assert_eq!(*keys_and_address.get_comp_address(), derived_address);
}

#[test]
fn eth_test_generate_random() {
    let key_pair = EthereumKeyPair::generate_random();

    // Re-derive the public key from the private key.
    let secret_bytes: [u8; 32] = hex::decode(key_pair.get_private_key_as_hex())
        .expect("the private key must be hex")
        .try_into()
        .expect("the private key must hold 32 bytes");
    let secret_key = secp256k1::SecretKey::from_secret_bytes(secret_bytes)
        .expect("32 bytes, within curve order");
    let derived_public_key = secp256k1::PublicKey::from_secret_key(&secret_key);
    let public_key_bytes = derived_public_key.serialize_uncompressed();
    assert_eq!(key_pair.get_public_key_as_hex(), hex::encode(public_key_bytes));

    // Re-derive the address: Keccak-256 of the public key without its
    // format byte, last 20 bytes, hex-encoded.
    let public_key_hash = sha3::Keccak256::digest(&public_key_bytes[1..]);
    let derived_address = hex::encode(&public_key_hash[12..]);
    assert_eq!(*key_pair.get_address(), derived_address);
}

#[test]
fn sol_test_generate_random() {
    let key_pair = SolanaKeyPair::generate_random();

    // Re-derive the keypair from the encoded secret seed.
    let seed: [u8; 32] = bs58::decode(key_pair.get_private_key_as_base58())
        .into_vec()
        .expect("the secret must be base58")
        .try_into()
        .expect("the secret must hold 32 bytes");
    let derived = solana_sdk::signature::Keypair::new_from_array(seed);
    assert_eq!(*key_pair.get_address(), derived.pubkey().to_string());
}

#[test]
fn test_get_public_key_as_hex() {
    let key_pair = EthereumKeyPair::generate_random();
    let public_key_hex = key_pair.get_public_key_as_hex();

    // The hex form must parse back to a valid uncompressed public key.
    let bytes = hex::decode(&public_key_hex).expect("the public key must be hex");
    assert_eq!(bytes.len(), 65);
    let array: [u8; 65] = bytes.try_into().unwrap();
    assert!(secp256k1::PublicKey::from_byte_array_uncompressed(array).is_ok());

    // And the prefixed accessors add exactly the prefix.
    assert_eq!(
        key_pair.get_private_key_as_hex_with_prefix(),
        format!("0x{}", key_pair.get_private_key_as_hex())
    );
    assert_eq!(key_pair.get_address_with_prefix(), format!("0x{}", key_pair.get_address()));
}

#[test]
fn test_get_private_key_as_base58() {
    let key_pair = SolanaKeyPair::generate_random();
    let decoded = bs58::decode(key_pair.get_private_key_as_base58())
        .into_vec()
        .expect("the secret must be base58");
    assert_eq!(decoded.len(), 32);
}

#[test]
fn test_get_public_key_as_base58() {
    let key_pair = SolanaKeyPair::generate_random();
    assert_eq!(key_pair.get_public_key_as_base58(), key_pair.get_address());
}

#[test]
fn test_unique_keypairs() {
    let key_pair_1 = SolanaKeyPair::generate_random();
    let key_pair_2 = SolanaKeyPair::generate_random();

    assert_ne!(key_pair_1.get_address(), key_pair_2.get_address());
    assert_ne!(key_pair_1.get_private_key_as_base58(), key_pair_2.get_private_key_as_base58());
}

#[test]
fn test_bitcoin_address_shape() {
    let key_pair = BitcoinKeyPair::generate_random();
    let address = key_pair.get_comp_address();
    assert!(address.starts_with('1'));
    assert!(address.chars().all(|c| c.is_ascii_alphanumeric()
        && c != '0'
        && c != 'I'
        && c != 'O'
        && c != 'l'));
    assert_eq!(key_pair.get_address(), key_pair.get_comp_address());
    assert_eq!(key_pair.get_address_bytes(), key_pair.get_address().as_bytes());
}

#[test]
fn test_ethereum_address_shape() {
    let key_pair = EthereumKeyPair::generate_random();
    let address = key_pair.get_address();
    assert_eq!(address.len(), 40);
    assert!(address.chars().all(|c| c.is_ascii_hexdigit() && !c.is_ascii_uppercase()));
}

#[test]
fn test_generate_batch_size() {
    let batch = BitcoinKeyPair::generate_batch();
    assert_eq!(batch.len(), btc_vanity::BATCH_SIZE);

    let mut refill = Vec::new();
    SolanaKeyPair::fill_batch(&mut refill);
    assert_eq!(refill.len(), btc_vanity::BATCH_SIZE);
}
