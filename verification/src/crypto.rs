//! Keys, signatures, and the cryptographic primitives the ledger relies on.
//!
//! Keys and signatures are held as plain byte arrays with value equality. The
//! digests and the signature scheme come from outside crates; each is reached
//! through one trusted function whose contract names its result, and all
//! verified reasoning rests on those names.

use vstd::prelude::*;
use ed25519_dalek::Signer;
use ed25519_dalek::Verifier;
use sha3::Digest;

verus! {

/// A public key: the 32-byte compressed form of an Ed25519 verifying key.
#[derive(Debug, Clone, Copy, PartialEq, Eq)]
pub struct PublicKey {
    pub bytes: [u8; 32],
}

/// A private key: the 32-byte secret seed of an Ed25519 signing key. The sole
/// owner of signing authority for its wallet.
#[derive(Debug, Clone, Copy, PartialEq, Eq)]
pub struct PrivateKey {
    pub bytes: [u8; 32],
}

/// A detached signature: the 64-byte form of an Ed25519 signature.
#[derive(Debug, Clone, Copy, PartialEq, Eq)]
pub struct Signature {
    pub bytes: [u8; 64],
}

/// The lowercase hexadecimal form of the SHA3-256 digest of a message.
pub uninterp spec fn sha3_256_hex_of(message: Seq<char>) -> Seq<char>;

/// The lowercase hexadecimal form of the MD5 digest of a message.
pub uninterp spec fn md5_hex_of(message: Seq<char>) -> Seq<char>;

/// The 32 bytes of the Ed25519 verifying key derived from a 32-byte secret.
pub uninterp spec fn ed25519_public_of(private_bytes: Seq<u8>) -> Seq<u8>;

/// Whether the 64 signature bytes verify over a message under the 32 public
/// key bytes; false whenever the public key bytes decode to no valid key.
pub uninterp spec fn ed25519_verifies(
    public_bytes: Seq<u8>,
    message: Seq<char>,
    signature_bytes: Seq<u8>,
) -> bool;

/// Relies on sha3::Sha3_256: a 32-byte digest that is a function of the input
/// alone, rendered here as 64 lowercase hexadecimal characters.
#[verifier::external_body]
pub fn sha3_256_hex(message: &str) -> (r: String)
    ensures
        r@ == sha3_256_hex_of(message@),
        r@.len() == 64,
{
    let mut hasher = sha3::Sha3_256::new();
    hasher.update(message.as_bytes());
    format!("{:x}", hasher.finalize())
}

/// Relies on md5::compute: a 16-byte digest that is a function of the input
/// alone, rendered here as 32 lowercase hexadecimal characters.
#[verifier::external_body]
pub fn md5_hex(message: &str) -> (r: String)
    ensures
        r@ == md5_hex_of(message@),
        r@.len() == 32,
{
    format!("{:x}", md5::compute(message.as_bytes()))
}

/// Relies on ed25519_dalek::SigningKey::generate (over rand_core::OsRng) for a
/// fresh keypair, and on SigningKey::verifying_key: the returned public key is
/// the one derived from the returned secret. Nothing is assumed of which
/// secret is drawn.
#[verifier::external_body]
pub fn generate_keypair() -> (r: (PrivateKey, PublicKey))
    ensures
        r.1.bytes@ == ed25519_public_of(r.0.bytes@),
{
    let signing_key = ed25519_dalek::SigningKey::generate(&mut rand_core::OsRng);
    let public = PublicKey { bytes: signing_key.verifying_key().to_bytes() };
    (PrivateKey { bytes: signing_key.to_bytes() }, public)
}

/// Relies on ed25519_dalek::SigningKey::sign: Ed25519 signing is a
/// deterministic function of the secret key and the message (RFC 8032), and
/// the produced signature verifies under the verifying key derived from that
/// secret.
#[verifier::external_body]
pub fn sign(private_key: &PrivateKey, message: &str) -> (sig: Signature)
    ensures
        ed25519_verifies(ed25519_public_of(private_key.bytes@), message@, sig.bytes@),
{
    let signing_key = ed25519_dalek::SigningKey::from_bytes(&private_key.bytes);
    Signature { bytes: signing_key.sign(message.as_bytes()).to_bytes() }
}

/// Relies on ed25519_dalek::VerifyingKey::verify, a deterministic function of
/// the key, the message, and the signature; public key bytes that decode to no
/// valid key verify nothing.
#[verifier::external_body]
pub fn verify(public_key: &PublicKey, message: &str, signature: &Signature) -> (r: bool)
    ensures
        r == ed25519_verifies(public_key.bytes@, message@, signature.bytes@),
{
    match ed25519_dalek::VerifyingKey::from_bytes(&public_key.bytes) {
        Ok(key) => {
            let sig = ed25519_dalek::Signature::from_bytes(&signature.bytes);
            key.verify(message.as_bytes(), &sig).is_ok()
        },
        Err(_) => false,
    }
}

} // verus!
