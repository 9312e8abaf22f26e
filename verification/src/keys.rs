//! Public keys as plain bytes, and the curve and hash operations that events rest on.

use core::str::FromStr;
use secp256k1::hashes::sha256;
use vstd::prelude::*;

use crate::base16::{encode_hex, hex_text};

verus! {

/// Which of the two points with one x coordinate a full public key names.
#[derive(Clone, Copy, Debug, PartialEq, Eq, Structural)]
pub enum Parity {
    Even,
    Odd,
}

/// An author's key: the 32-byte x coordinate that events carry, and the parity of the
/// full key it was taken from.
#[derive(Clone, Copy, Debug, PartialEq, Eq)]
pub struct PubKeyWrapper {
    pub key: [u8; 32],
    pub parity: Parity,
}

/// The x coordinate and the parity (`true` for odd) of the public key that `text`
/// encodes; `None` where `text` encodes no public key.
pub uninterp spec fn public_key_parsed(text: Seq<char>) -> Option<(Seq<u8>, bool)>;

/// The x coordinate of the public key that belongs to the secret key that `text`
/// encodes; `None` where `text` encodes no secret key.
pub uninterp spec fn secret_key_public(text: Seq<char>) -> Option<Seq<u8>>;

/// The SHA-256 digest of `data`.
pub uninterp spec fn sha256_digest(data: Seq<u8>) -> Seq<u8>;

/// Whether `signature` is a valid Schnorr signature of `digest` under the key with x
/// coordinate `key`.
pub uninterp spec fn schnorr_valid(signature: Seq<u8>, digest: Seq<u8>, key: Seq<u8>) -> bool;

/// `secp256k1::PublicKey::from_str`, then `PublicKey::x_only_public_key` and
/// `XOnlyPublicKey::serialize` on what it gives: the x coordinate and parity of the key
/// that `text` encodes in hexadecimal, and nothing where the outside crate rejects `text`.
#[verifier::external_body]
fn parse_public_key(text: &str) -> (key: Option<PubKeyWrapper>)
    ensures
        key.is_some() == public_key_parsed(text@).is_some(),
        key matches Some(k) ==> public_key_parsed(text@) == Some((k.key@, k.parity == Parity::Odd)),
{
    match secp256k1::PublicKey::from_str(text) {
        Ok(full) => {
            let (x_only, parity) = full.x_only_public_key();
            Some(PubKeyWrapper {
                key: x_only.serialize(),
                parity: match parity {
                    secp256k1::Parity::Even => Parity::Even,
                    secp256k1::Parity::Odd => Parity::Odd,
                },
            })
        },
        Err(_) => None,
    }
}

/// `secp256k1::Keypair`, carried from the reading of a secret key to the signing.
#[verifier::external_type_specification]
#[verifier::external_body]
pub struct ExKeypair(secp256k1::Keypair);

/// `secp256k1::SecretKey::from_str`, then `SecretKey::keypair`, and
/// `Keypair::x_only_public_key` with `XOnlyPublicKey::serialize` on what it gives: the
/// key pair of the secret key that `text` encodes in hexadecimal, beside the x
/// coordinate of its public key, and nothing where the outside crate rejects `text`.
#[verifier::external_body]
pub(crate) fn read_secret_key(text: &str) -> (pair: Option<(secp256k1::Keypair, [u8; 32])>)
    ensures
        pair.is_some() == secret_key_public(text@).is_some(),
        pair matches Some(p) ==> secret_key_public(text@) == Some(p.1@),
{
    match secp256k1::SecretKey::from_str(text) {
        Ok(secret) => {
            let keypair = secret.keypair(&secp256k1::Secp256k1::new());
            Some((keypair, keypair.x_only_public_key().0.serialize()))
        },
        Err(_) => None,
    }
}

/// `secp256k1::Message::from_hashed_data` with SHA-256: the 32-byte digest of `data`.
#[verifier::external_body]
pub(crate) fn digest_of(data: &[u8]) -> (digest: [u8; 32])
    ensures
        digest@ == sha256_digest(data@),
{
    *secp256k1::Message::from_hashed_data::<sha256::Hash>(data).as_ref()
}

/// `secp256k1::Secp256k1::sign_schnorr`: a 64-byte signature of `digest` made with
/// `pair`. The signature depends on fresh randomness, so nothing is said of it.
#[verifier::external_body]
pub(crate) fn sign_digest(digest: &[u8; 32], pair: &secp256k1::Keypair) -> (signature: [u8; 64]) {
    let message = secp256k1::Message::from_digest(*digest);
    secp256k1::Secp256k1::new().sign_schnorr(&message, pair).serialize()
}

/// `secp256k1::Secp256k1::verify_schnorr` on a signature, a digest and an x-only key
/// made from the given bytes: whether the outside crate accepts the signature. Where
/// `XOnlyPublicKey::from_slice` rejects `key` the answer is `false`.
#[verifier::external_body]
pub(crate) fn check_signature(signature: &[u8; 64], digest: &[u8; 32], key: &[u8; 32]) -> (valid:
    bool)
    ensures
        valid == schnorr_valid(signature@, digest@, key@),
{
    match (
        secp256k1::schnorr::Signature::from_slice(signature),
        secp256k1::XOnlyPublicKey::from_slice(key),
    ) {
        (Ok(sig), Ok(x_only)) => secp256k1::Secp256k1::verification_only().verify_schnorr(
            &sig,
            &secp256k1::Message::from_digest(*digest),
            &x_only,
        ).is_ok(),
        _ => false,
    }
}

impl PubKeyWrapper {
    /// Reads a public key from its hexadecimal encoding, compressed or uncompressed.
    pub fn from_str(text: &str) -> (key: Option<PubKeyWrapper>)
        ensures
            key.is_some() == public_key_parsed(text@).is_some(),
            key matches Some(k) ==> public_key_parsed(text@) == Some(
                (k.key@, k.parity == Parity::Odd),
            ),
    {
        parse_public_key(text)
    }

    /// The x coordinate in lower-case hexadecimal, as events carry it.
    pub fn serialize(&self) -> (text: String)
        ensures
            text@ == hex_text(self.key@),
    {
        encode_hex(self.key.as_slice())
    }
}

} // verus!
