//! The cryptographic capabilities the ledger consumes: a one-way hash
//! for deriving asset identifiers and transaction hashes, and ed25519
//! signatures for authenticating transactions.
//!
//! Each capability is an outside call behind a trusted wrapper.  The
//! result of each call is a pure function of its arguments, so it is
//! given an uninterpreted name that the callers' contracts build on.

use vstd::prelude::*;

use crate::keys::{PublicKey, SecretKey};
use ed25519_dalek::Signer;
use sha2::Digest;

verus! {

/// The SHA-256 digest of a byte sequence.
pub uninterp spec fn sha256_of(data: Seq<u8>) -> Seq<u8>;

/// Relies on sha2::Sha256::digest: the 32-byte SHA-256 digest of the
/// input, a function of the input bytes alone.
#[verifier::external_body]
pub fn sha256(data: &Vec<u8>) -> (r: Vec<u8>)
    ensures
        r@ == sha256_of(data@),
        r@.len() == 32,
{
    sha2::Sha256::digest(data.as_slice()).to_vec()
}

/// Whether `sig` is a valid ed25519 signature by the key `key` over `msg`.
pub uninterp spec fn ed25519_valid(key: Seq<u8>, msg: Seq<u8>, sig: Seq<u8>) -> bool;

/// Relies on ed25519_dalek::VerifyingKey::{from_bytes, verify_strict}:
/// deterministic signature verification over the exact message bytes.
/// A byte string that is not a valid public key verifies nothing.
#[verifier::external_body]
pub fn verify_signature(key: &PublicKey, msg: &Vec<u8>, sig: &[u8; 64]) -> (r: bool)
    ensures
        r == ed25519_valid(key@, msg@, sig@),
{
    match ed25519_dalek::VerifyingKey::from_bytes(key.as_bytes()) {
        Ok(vk) => {
            let signature = ed25519_dalek::Signature::from_bytes(sig);
            vk.verify_strict(msg.as_slice(), &signature).is_ok()
        }
        Err(_) => false,
    }
}

/// The 64-byte ed25519 signature the key `sk` produces over `msg`.
pub uninterp spec fn ed25519_sig_of(sk: Seq<u8>, msg: Seq<u8>) -> Seq<u8>;

/// Relies on ed25519_dalek::SigningKey::{from_bytes, sign}: ed25519
/// signing is deterministic, a function of key and message alone.
#[verifier::external_body]
pub fn sign(sk: &SecretKey, msg: &Vec<u8>) -> (r: [u8; 64])
    ensures
        r@ == ed25519_sig_of(sk@, msg@),
{
    let signing = ed25519_dalek::SigningKey::from_bytes(sk.as_bytes());
    signing.sign(msg.as_slice()).to_bytes()
}

/// The 32-byte ed25519 public key derived from a signing key.
pub uninterp spec fn ed25519_pub_of(sk: Seq<u8>) -> Seq<u8>;

/// Relies on ed25519_dalek::SigningKey::verifying_key: the public key
/// is derived from the signing key alone.
#[verifier::external_body]
pub fn public_key_of(sk: &SecretKey) -> (r: PublicKey)
    ensures
        r@ == ed25519_pub_of(sk@),
{
    let signing = ed25519_dalek::SigningKey::from_bytes(sk.as_bytes());
    PublicKey::new(signing.verifying_key().to_bytes())
}

} // verus!
