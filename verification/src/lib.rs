//! Decentralized auto-bootstrapping for gossip topics over a DHT: the verified core.
//!
//! Configuration, record encoding, key derivation, record signing and
//! encryption, and the decisions of the bootstrap, publish and merge loops.

pub mod bootstrap;
pub mod bootstrapper;
pub mod bytes;
pub mod clock;
pub mod config;
pub mod crypto;
pub mod dht;
pub mod gossip;
pub mod peers;
pub mod schedule;
pub mod slot;
pub mod time;
pub mod topic;

pub use bootstrap::{BootstrapState, RoundLookup, TopicError, WorkerPlan};
pub use bootstrapper::{Action, Bootstrapper, Event, Publication, Step, WaitReason};
pub use clock::unix_minute;
pub use config::{
    BootstrapConfig, BootstrapConfigBuilder, BubbleMergeConfig, BubbleMergeConfigBuilder,
    BubbleMergeConfigInner, Config, ConfigBuilder, DhtConfig, DhtConfigBuilder, MergeConfig,
    MergeConfigBuilder, MessageOverlapMergeConfig, MessageOverlapMergeConfigBuilder,
    MessageOverlapMergeConfigInner, PublisherConfig, PublisherConfigBuilder, PublisherConfigInner,
    TimeoutConfig, TimeoutConfigBuilder,
};
pub use crypto::ed25519::SigningKey;
pub use crypto::keys::{
    encryption_keypair, salt, signing_keypair, DefaultSecretRotation, RotationHandle, SecretRotation,
};
pub use crypto::record::{EncryptedRecord, Record, RecordError};
pub use gossip::{GossipRecordContent, MessageHashWindow, MAX_MESSAGE_HASHES, MAX_RECORD_PEERS};
pub use time::Duration;
pub use topic::TopicId;
