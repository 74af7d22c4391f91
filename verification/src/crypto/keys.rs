//! Key derivation: per-minute signing keys and salts, and rotating
//! encryption keys.

use std::sync::Arc;
use vstd::bytes::{spec_u64_to_le_bytes, u64_to_le_bytes};
use vstd::prelude::*;

use crate::bytes::{append_bytes, u64_be_bytes, u64_to_be_bytes};
use crate::crypto::digest::{sha512_32, sha512_prefix32};
use crate::crypto::ed25519::SigningKey;
use crate::topic::{topic_hash, TopicId};

verus! {

/// Derives time-rotated encryption keys.
///
/// Implementations control how encryption keys rotate with time, giving key
/// isolation across time slots. A derivation is a function of its inputs:
/// `derivation` names it.
pub trait SecretRotation: Send + Sync {
    /// The key that `derive` gives for these inputs.
    spec fn derivation(&self, topic_hash: Seq<u8>, unix_minute: u64, initial_secret_hash: Seq<u8>) -> Seq<u8>;

    /// Derives the 32-byte key for the topic `topic_hash` in the minute slot
    /// `unix_minute`, from the hashed initial secret.
    fn derive(&self, topic_hash: [u8; 32], unix_minute: u64, initial_secret_hash: [u8; 32]) -> (key: [u8; 32])
        ensures
            key@ == self.derivation(topic_hash@, unix_minute, initial_secret_hash@),
    ;
}

/// The bytes that the default rotation hashes: topic hash, minute (big
/// endian), initial secret hash.
pub open spec fn default_rotation_input(topic_hash: Seq<u8>, unix_minute: u64, initial_secret_hash: Seq<u8>) -> Seq<u8> {
    topic_hash + u64_be_bytes(unix_minute) + initial_secret_hash
}

/// The default rotation: the first 32 bytes of SHA-512 over the topic hash,
/// the big-endian minute and the initial secret hash.
#[derive(Debug, Clone)]
pub struct DefaultSecretRotation;

impl SecretRotation for DefaultSecretRotation {
    open spec fn derivation(&self, topic_hash: Seq<u8>, unix_minute: u64, initial_secret_hash: Seq<u8>) -> Seq<u8> {
        sha512_prefix32(default_rotation_input(topic_hash, unix_minute, initial_secret_hash))
    }

    fn derive(&self, topic_hash: [u8; 32], unix_minute: u64, initial_secret_hash: [u8; 32]) -> (key: [u8; 32]) {
        let mut input: Vec<u8> = Vec::new();
        append_bytes(&mut input, topic_hash.as_slice());
        let minute = u64_to_be_bytes(unix_minute);
        append_bytes(&mut input, minute.as_slice());
        append_bytes(&mut input, initial_secret_hash.as_slice());
        sha512_32(input.as_slice())
    }
}

/// A shared handle on a rotation strategy.
#[derive(Debug)]
pub struct RotationHandle<R: SecretRotation = DefaultSecretRotation> {
    rotation: Arc<R>,
}

impl<R: SecretRotation> RotationHandle<R> {
    /// The strategy behind the handle.
    pub closed spec fn strategy(&self) -> R {
        *self.rotation
    }

    /// A handle on `rotation`.
    pub fn new(rotation: R) -> (handle: Self)
        ensures
            handle.strategy() == rotation,
    {
        RotationHandle { rotation: Arc::new(rotation) }
    }

    /// Derives a key with the strategy behind the handle.
    pub fn derive(&self, topic_hash: [u8; 32], unix_minute: u64, initial_secret_hash: [u8; 32]) -> (key: [u8; 32])
        ensures
            key@ == self.strategy().derivation(topic_hash@, unix_minute, initial_secret_hash@),
    {
        self.rotation.derive(topic_hash, unix_minute, initial_secret_hash)
    }
}

impl Default for RotationHandle<DefaultSecretRotation> {
    /// A handle on the default rotation.
    fn default() -> (handle: Self)
        ensures
            handle.strategy() == DefaultSecretRotation,
    {
        RotationHandle { rotation: Arc::new(DefaultSecretRotation) }
    }
}

impl<R: SecretRotation> Clone for RotationHandle<R> {
    fn clone(&self) -> (copy: Self)
        ensures
            copy.strategy() == self.strategy(),
    {
        RotationHandle { rotation: Arc::clone(&self.rotation) }
    }
}

/// The 32 bytes of a topic's minute slot: the first 32 bytes of SHA-512 over
/// the topic hash and the little-endian minute. They seed the slot's signing
/// key and are the slot's DHT salt.
pub open spec fn slot_seed(topic_hash: Seq<u8>, unix_minute: u64) -> Seq<u8> {
    sha512_prefix32(topic_hash + spec_u64_to_le_bytes(unix_minute))
}

fn slot_bytes(topic: &TopicId, unix_minute: u64) -> (seed: [u8; 32])
    ensures
        seed@ == slot_seed(topic_hash(topic@), unix_minute),
{
    let mut input: Vec<u8> = Vec::new();
    let hash = topic.hash();
    append_bytes(&mut input, hash.as_slice());
    let minute = u64_to_le_bytes(unix_minute);
    append_bytes(&mut input, minute.as_slice());
    sha512_32(input.as_slice())
}

/// The Ed25519 key of a topic's minute slot, whose verifying key is the DHT
/// routing key of the slot's bootstrap records. Every node derives the same
/// key for the same topic and minute.
pub fn signing_keypair(topic: &TopicId, unix_minute: u64) -> (key: SigningKey)
    ensures
        key@ == slot_seed(topic_hash(topic@), unix_minute),
{
    let seed = slot_bytes(topic, unix_minute);
    SigningKey::from_bytes(&seed)
}

/// The DHT salt of a topic's minute slot; records of different minutes land
/// in different DHT slots.
pub fn salt(topic: &TopicId, unix_minute: u64) -> (salt: [u8; 32])
    ensures
        salt@ == slot_seed(topic_hash(topic@), unix_minute),
{
    slot_bytes(topic, unix_minute)
}

/// The Ed25519 key that encrypts a topic's records in a minute slot, seeded
/// by the rotation strategy.
pub fn encryption_keypair<R: SecretRotation>(
    topic: &TopicId,
    secret_rotation: &RotationHandle<R>,
    initial_secret_hash: [u8; 32],
    unix_minute: u64,
) -> (key: SigningKey)
    ensures
        key@ == secret_rotation.strategy().derivation(topic_hash(topic@), unix_minute, initial_secret_hash@),
{
    let seed = secret_rotation.derive(topic.hash(), unix_minute, initial_secret_hash);
    SigningKey::from_bytes(&seed)
}

} // verus!
