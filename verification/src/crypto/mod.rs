//! Cryptographic primitives for DHT record signing and encryption.

pub mod digest;
pub mod ed25519;
pub mod hpke;
pub mod keys;
pub mod record;
