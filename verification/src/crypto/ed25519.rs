//! Ed25519 keys, signatures and strict verification.

use ed25519_dalek::Signer;
use vstd::prelude::*;

verus! {

/// The 32-byte Ed25519 public key that `ed25519-dalek` derives from a 32-byte secret seed.
pub uninterp spec fn ed25519_public_key(seed: Seq<u8>) -> Seq<u8>;

/// The 64-byte Ed25519 signature that `ed25519-dalek` makes over `message`
/// with the key of the 32-byte secret `seed` (Ed25519 signing is deterministic).
pub uninterp spec fn ed25519_signature(seed: Seq<u8>, message: Seq<u8>) -> Seq<u8>;

/// Whether `ed25519-dalek` decompresses the 32 bytes into a curve point,
/// that is, accepts them as a public key.
pub uninterp spec fn ed25519_point_decodes(public_key: Seq<u8>) -> bool;

/// Whether `ed25519-dalek`'s strict verification accepts `signature` over
/// `message` for the public key `public_key`.
pub uninterp spec fn ed25519_strictly_verifies(
    public_key: Seq<u8>,
    message: Seq<u8>,
    signature: Seq<u8>,
) -> bool;

/// Trusted: calls `ed25519_dalek::SigningKey::verifying_key` on the key
/// made from `seed` and claims the result is `ed25519_public_key(seed)`.
#[verifier::external_body]
pub(crate) fn ed25519_verifying_key(seed: &[u8; 32]) -> (public_key: [u8; 32])
    ensures
        public_key@ == ed25519_public_key(seed@),
{
    ed25519_dalek::SigningKey::from_bytes(seed).verifying_key().to_bytes()
}

/// Trusted: calls `Signer::sign` of `ed25519_dalek::SigningKey` on the key
/// made from `seed` and claims the result is `ed25519_signature(seed, message)`.
#[verifier::external_body]
pub(crate) fn ed25519_sign(seed: &[u8; 32], message: &[u8]) -> (signature: [u8; 64])
    ensures
        signature@ == ed25519_signature(seed@, message@),
{
    ed25519_dalek::SigningKey::from_bytes(seed).sign(message).to_bytes()
}

/// Trusted: calls `ed25519_dalek::VerifyingKey::from_bytes` and claims it
/// succeeds exactly when `ed25519_point_decodes(public_key)`.
#[verifier::external_body]
pub(crate) fn ed25519_decodes(public_key: &[u8; 32]) -> (decodes: bool)
    ensures
        decodes == ed25519_point_decodes(public_key@),
{
    ed25519_dalek::VerifyingKey::from_bytes(public_key).is_ok()
}

/// Trusted: calls `ed25519_dalek::VerifyingKey::verify_strict` on the key
/// decoded from `public_key` and claims it succeeds exactly when
/// `ed25519_strictly_verifies(public_key, message, signature)`.
#[verifier::external_body]
pub(crate) fn ed25519_verify_strict(
    public_key: &[u8; 32],
    message: &[u8],
    signature: &[u8; 64],
) -> (valid: bool)
    requires
        ed25519_point_decodes(public_key@),
    ensures
        valid == ed25519_strictly_verifies(public_key@, message@, signature@),
{
    match ed25519_dalek::VerifyingKey::from_bytes(public_key) {
        Ok(key) => key.verify_strict(message, &ed25519_dalek::Signature::from_bytes(signature)).is_ok(),
        Err(_) => false,
    }
}

/// Trusted: calls `rand::random` for 32 fresh random bytes (the seeds of
/// one-time keys, and the source of every random number of the library).
/// Nothing is claimed of them.
#[verifier::external_body]
pub(crate) fn random_seed() -> (seed: [u8; 32]) {
    rand::random()
}

/// An Ed25519 signing key, held as its 32-byte secret seed.
pub struct SigningKey {
    seed: [u8; 32],
}

impl View for SigningKey {
    type V = Seq<u8>;

    closed spec fn view(&self) -> Seq<u8> {
        self.seed@
    }
}

impl SigningKey {
    /// The key whose secret seed is `bytes`.
    pub fn from_bytes(bytes: &[u8; 32]) -> (key: SigningKey)
        ensures
            key@ == bytes@,
    {
        SigningKey { seed: *bytes }
    }

    /// The secret seed of this key.
    pub fn to_bytes(&self) -> (bytes: [u8; 32])
        ensures
            bytes@ == self@,
    {
        self.seed
    }

    /// The public (verifying) key of this key.
    pub fn verifying_key(&self) -> (public_key: [u8; 32])
        ensures
            public_key@ == ed25519_public_key(self@),
    {
        ed25519_verifying_key(&self.seed)
    }

    /// A fresh key from 32 random bytes.
    pub fn generate() -> (key: SigningKey)
        ensures
            key@.len() == 32,
    {
        SigningKey { seed: random_seed() }
    }

    /// Signs `message` with this key.
    pub fn sign(&self, message: &[u8]) -> (signature: [u8; 64])
        ensures
            signature@ == ed25519_signature(self@, message@),
    {
        ed25519_sign(&self.seed, message)
    }

    /// Borrows the secret seed.
    pub(crate) fn seed(&self) -> (seed: &[u8; 32])
        ensures
            seed@ == self@,
    {
        &self.seed
    }
}

impl Clone for SigningKey {
    fn clone(&self) -> (copy: SigningKey)
        ensures
            copy@ == self@,
    {
        SigningKey { seed: self.seed }
    }
}

} // verus!
