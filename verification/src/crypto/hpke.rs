//! HPKE encryption to Ed25519 keys (via their X25519 forms).

use ed25519_dalek_hpke::{Ed25519hpkeDecryption, Ed25519hpkeEncryption};
use vstd::prelude::*;

verus! {

/// How many bytes an encryption adds to its plaintext: an eight-byte length
/// prefix, the 32-byte encapsulated X25519 key and the 16-byte
/// ChaCha20-Poly1305 tag.
pub const HPKE_OVERHEAD: usize = 56;

/// What `ed25519-dalek-hpke` decryption with the key of the 32-byte secret
/// `seed` makes of `ciphertext`: the plaintext, or `None` where it fails.
pub uninterp spec fn hpke_decryption(seed: Seq<u8>, ciphertext: Seq<u8>) -> Option<Seq<u8>>;

/// Trusted: calls `Ed25519hpkeDecryption::decrypt` on the signing key made
/// from `seed` and claims the outcome is `hpke_decryption(seed, ciphertext)`.
#[verifier::external_body]
pub(crate) fn hpke_decrypt(seed: &[u8; 32], ciphertext: &[u8]) -> (plaintext: Option<Vec<u8>>)
    ensures
        match plaintext {
            Some(p) => hpke_decryption(seed@, ciphertext@) == Some(p@),
            None => hpke_decryption(seed@, ciphertext@) is None,
        },
{
    ed25519_dalek::SigningKey::from_bytes(seed).decrypt(ciphertext).ok()
}

/// Trusted: calls `Ed25519hpkeEncryption::encrypt` on the verifying key of
/// the signing key made from `recipient_seed`. Encryption draws a fresh
/// ephemeral key, so the ciphertext itself is left unsaid; what is claimed is
/// the crate's documented round trip: a ciphertext that comes back decrypts,
/// with the recipient's signing key, to `data`; and, as the crate writes it
/// (the length prefix, the encapsulated key, then the sealed data with its
/// tag), it is `HPKE_OVERHEAD` bytes longer than `data`. `None` stands for
/// the crate's error.
#[verifier::external_body]
pub(crate) fn hpke_encrypt(recipient_seed: &[u8; 32], data: &[u8]) -> (ciphertext: Option<Vec<u8>>)
    ensures
        ciphertext matches Some(c) ==> hpke_decryption(recipient_seed@, c@) == Some(data@),
        ciphertext matches Some(c) ==> c@.len() == data@.len() + HPKE_OVERHEAD,
{
    ed25519_dalek::SigningKey::from_bytes(recipient_seed).verifying_key().encrypt(data).ok()
}

} // verus!
