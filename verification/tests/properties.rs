use distributed_topic_tracker::bootstrap::{bootstrap_outcome, plan_workers};
use distributed_topic_tracker::bootstrapper::wait_duration;
use distributed_topic_tracker::clock::minute_slot;
use distributed_topic_tracker::dht::{after_put_attempt, topic_hash_20, PutStep};
use distributed_topic_tracker::gossip::{message_hash, select_join_peers};
use distributed_topic_tracker::peers::{bootstrap_peers, bubble_merge_peers, message_overlap_peers};
use distributed_topic_tracker::slot::{slot_has_room, slot_records};
use distributed_topic_tracker::schedule::{
    draw_delay_millis, draw_delay_nanos, effective_interval, jittered_delay_millis, jittered_delay_nanos,
};
use distributed_topic_tracker::{
    salt, signing_keypair, Action, BootstrapConfig, Bootstrapper, Event, Publication, WaitReason, BootstrapState, BubbleMergeConfig, Config, DefaultSecretRotation,
    DhtConfig, Duration, EncryptedRecord, GossipRecordContent, MergeConfig, MessageHashWindow,
    MessageOverlapMergeConfig, PublisherConfig, Record, RecordError, RotationHandle, SecretRotation,
    SigningKey, TimeoutConfig, TopicError, TopicId,
};
use ed25519_dalek::Signer;
use sha2::Digest;

fn sha512_32(data: &[u8]) -> [u8; 32] {
    let digest = sha2::Sha512::digest(data);
    digest[..32].try_into().unwrap()
}

fn sample_record(key: &SigningKey, peers: [[u8; 32]; 5], hashes: [[u8; 32]; 5]) -> Record {
    Record::sign([1u8; 32], 12345, key.verifying_key(), peers, hashes, key)
}

/// A 32-byte string that is not an Ed25519 public key.
fn invalid_point() -> [u8; 32] {
    (0u8..=255)
        .map(|b| [b; 32])
        .find(|candidate| ed25519_dalek::VerifyingKey::from_bytes(candidate).is_err())
        .expect("some byte pattern does not decode")
}

#[test]
fn config_defaults() {
    let config = Config::default();
    assert_eq!(config.max_join_peer_count(), 4);
    assert_eq!(config.dht_config().retries(), 3);
    assert_eq!(config.dht_config().base_retry_interval().as_millis(), 5000);
    assert_eq!(config.dht_config().max_retry_jitter().as_millis(), 10_000);
    assert_eq!(config.timeouts().join_peer_timeout().as_millis(), 5000);
    assert_eq!(config.bootstrap_config().max_bootstrap_records(), 5);
    assert_eq!(config.bootstrap_config().no_peers_retry_interval().as_millis(), 1500);
    assert!(config.bootstrap_config().publish_record_on_startup());
    assert!(!config.bootstrap_config().check_older_records_first_on_startup());
    match config.publisher_config() {
        PublisherConfig::Enabled(inner) => {
            assert_eq!(inner.initial_delay().as_millis(), 10_000);
            assert_eq!(inner.max_jitter().as_millis(), 50_000);
            assert!(inner.fail_topic_creation_on_publishing_startup_failure());
        }
        PublisherConfig::Disabled => panic!("publisher enabled by default"),
    }
    match config.merge_config().bubble_merge() {
        BubbleMergeConfig::Enabled(inner) => assert_eq!(inner.min_neighbors(), 4),
        BubbleMergeConfig::Disabled => panic!("bubble merge enabled by default"),
    }
}

#[test]
fn zero_interval_is_ignored() {
    let config = DhtConfig::builder().base_retry_interval(Duration::zero()).build();
    assert_eq!(config.base_retry_interval().as_millis(), 5000);
    let config = DhtConfig::builder()
        .base_retry_interval(Duration::from_secs(2))
        .base_retry_interval(Duration::zero())
        .build();
    assert_eq!(config.base_retry_interval().as_millis(), 2000);
    match PublisherConfig::builder().base_interval(Duration::zero()).build() {
        PublisherConfig::Enabled(inner) => assert_eq!(inner.base_interval().as_millis(), 10_000),
        PublisherConfig::Disabled => panic!("builder builds an enabled publisher"),
    }
}

#[test]
fn zero_bootstrap_records_disable_publisher() {
    let config = Config::builder()
        .bootstrap_config(BootstrapConfig::builder().max_bootstrap_records(0).build())
        .build();
    assert!(matches!(config.publisher_config(), PublisherConfig::Disabled));
    let config = Config::builder()
        .bootstrap_config(BootstrapConfig::builder().max_bootstrap_records(1).build())
        .max_join_peer_count(7)
        .build();
    assert!(matches!(config.publisher_config(), PublisherConfig::Enabled(_)));
    assert_eq!(config.max_join_peer_count(), 7);
}

#[test]
fn builders_set_values() {
    let timeouts = TimeoutConfig::builder().broadcast_timeout(Duration::from_millis(250)).build();
    assert_eq!(timeouts.broadcast_timeout().as_millis(), 250);
    assert_eq!(timeouts.broadcast_neighbors_timeout().as_millis(), 5000);
    let merge = MergeConfig::builder()
        .bubble_merge(BubbleMergeConfig::Disabled)
        .message_overlap_merge(MessageOverlapMergeConfig::builder().max_jitter(Duration::from_secs(3)).build())
        .build();
    assert!(matches!(merge.bubble_merge(), BubbleMergeConfig::Disabled));
    match merge.message_overlap_merge() {
        MessageOverlapMergeConfig::Enabled(inner) => {
            assert_eq!(inner.max_jitter().as_millis(), 3000);
            assert_eq!(inner.base_interval().as_millis(), 60_000);
        }
        MessageOverlapMergeConfig::Disabled => panic!("builder builds an enabled strategy"),
    }
}

#[test]
fn durations() {
    assert_eq!(Duration::from_secs(5).as_millis(), 5000);
    assert_eq!(Duration::from_millis(1500).as_secs(), 1);
    assert_eq!(Duration::from_millis(1500).subsec_nanos(), 500_000_000);
    assert_eq!(Duration::new(2, 7).as_nanos(), 2_000_000_007);
    assert!(Duration::from_secs(u64::MAX).checked_add(Duration::from_secs(1)).is_none());
    assert_eq!(Duration::from_secs(1).checked_add(Duration::from_nanos(5)).unwrap().as_nanos(), 1_000_000_005);
    assert_eq!(Duration::from_secs(1).max(Duration::from_secs(3)).as_secs(), 3);
}

#[test]
fn minute_slots() {
    assert_eq!(minute_slot(120, 0), Some(2));
    assert_eq!(minute_slot(179, 1), Some(3));
    assert_eq!(minute_slot(120, -3), None);
    assert_eq!(minute_slot(-61, 0), None);
    assert_eq!(minute_slot(-61, 1), Some(0));
    assert_eq!(minute_slot(0, i64::MAX), Some(i64::MAX as u64));
    assert_eq!(minute_slot(600, i64::MAX), Some(i64::MAX as u64));
}

#[test]
fn record_wire_format() {
    let key = SigningKey::generate();
    let record = sample_record(&key, [[3u8; 32]; 5], [[4u8; 32]; 5]);
    let bytes = record.to_bytes();
    assert_eq!(bytes.len(), 456);
    assert_eq!(&bytes[..32], &[1u8; 32]);
    assert_eq!(&bytes[32..40], &12345u64.to_le_bytes());
    assert_eq!(&bytes[40..72], &key.verifying_key());
    assert_eq!(&bytes[72..104], &[3u8; 32]);
    assert_eq!(&bytes[232..264], &[4u8; 32]);
    assert_eq!(&bytes[392..], &record.signature());
    let mut longer = bytes.clone();
    longer.push(0);
    assert_eq!(Record::from_bytes(longer), Err(RecordError::TrailingBytes));
    assert_eq!(Record::from_bytes(bytes).unwrap(), record);
}

#[test]
fn record_signature_is_ed25519() {
    let seed = [7u8; 32];
    let key = SigningKey::from_bytes(&seed);
    let dalek = ed25519_dalek::SigningKey::from_bytes(&seed);
    assert_eq!(key.verifying_key(), dalek.verifying_key().to_bytes());
    let record = sample_record(&key, [[0u8; 32]; 5], [[0u8; 32]; 5]);
    let bytes = record.to_bytes();
    assert_eq!(record.signature(), dalek.sign(&bytes[..392]).to_bytes());
}

#[test]
fn record_verification_errors() {
    let key = SigningKey::generate();
    let record = sample_record(&key, [[0u8; 32]; 5], [[0u8; 32]; 5]);
    assert_eq!(record.verify(&[1u8; 32], 12345), Ok(()));
    assert_eq!(record.verify(&[2u8; 32], 12345), Err(RecordError::TopicMismatch));
    assert_eq!(record.verify(&[1u8; 32], 12346), Err(RecordError::UnixMinuteMismatch));
    let other = SigningKey::generate();
    let forged = Record::sign([1u8; 32], 12345, key.verifying_key(), [[0u8; 32]; 5], [[0u8; 32]; 5], &other);
    assert_eq!(forged.verify(&[1u8; 32], 12345), Err(RecordError::InvalidSignature));
    let bad_id = Record::sign([1u8; 32], 12345, invalid_point(), [[0u8; 32]; 5], [[0u8; 32]; 5], &key);
    assert_eq!(bad_id.verify(&[1u8; 32], 12345), Err(RecordError::InvalidNodeId));
}

#[test]
fn encrypted_record_framing_and_keys() {
    let key = SigningKey::generate();
    let encryption_key = SigningKey::generate();
    let record = sample_record(&key, [[5u8; 32]; 5], [[6u8; 32]; 5]);
    let encrypted = record.encrypt(&encryption_key).expect("encryption failed");
    let bytes = encrypted.to_bytes();
    let record_len = u32::from_le_bytes(bytes[..4].try_into().unwrap()) as usize;
    assert_eq!(record_len, 456 + 56);
    assert_eq!(bytes.len(), 4 + 456 + 56 + 32 + 56);
    let split = EncryptedRecord::from_bytes(bytes.clone()).unwrap();
    assert_eq!(split.to_bytes(), bytes);
    assert_eq!(split.decrypt(&encryption_key).unwrap(), record);
    let wrong = SigningKey::generate();
    assert_eq!(split.decrypt(&wrong), Err(RecordError::DecryptionFailed));
    assert_eq!(split.try_decrypt(&encryption_key), Some(Ok(record)));
}

#[test]
fn key_derivations_follow_sha512() {
    let topic = TopicId::new("test-topic".to_string());
    assert_eq!(topic.hash(), sha512_32(b"test-topic"));
    let mut input = topic.hash().to_vec();
    input.extend_from_slice(&12345u64.to_le_bytes());
    assert_eq!(salt(&topic, 12345), sha512_32(&input));
    assert_eq!(signing_keypair(&topic, 12345).to_bytes(), salt(&topic, 12345));
    let mut input = [1u8; 32].to_vec();
    input.extend_from_slice(&12345u64.to_be_bytes());
    input.extend_from_slice(&[2u8; 32]);
    assert_eq!(DefaultSecretRotation.derive([1u8; 32], 12345, [2u8; 32]), sha512_32(&input));
    let handle = RotationHandle::default();
    assert_eq!(handle.derive([1u8; 32], 12345, [2u8; 32]), sha512_32(&input));
    assert_eq!(handle.clone().derive([1u8; 32], 12345, [2u8; 32]), sha512_32(&input));
}

#[test]
fn bootstrap_peer_extraction() {
    let a = SigningKey::from_bytes(&[11u8; 32]);
    let b = SigningKey::from_bytes(&[12u8; 32]);
    let c = SigningKey::from_bytes(&[13u8; 32]).verifying_key();
    let bad = invalid_point();
    let first = sample_record(&a, [c, [0u8; 32], bad, c, b.verifying_key()], [[0u8; 32]; 5]);
    let second = sample_record(&b, [a.verifying_key(), [0u8; 32], [0u8; 32], [0u8; 32], [0u8; 32]], [[0u8; 32]; 5]);
    let mut peers = bootstrap_peers(&vec![first, second]);
    peers.sort();
    let mut expected = vec![a.verifying_key(), b.verifying_key(), c];
    expected.sort();
    assert_eq!(peers, expected);
    assert!(bootstrap_peers(&vec![]).is_empty());
}

#[test]
fn bubble_merge_picks() {
    let own = SigningKey::from_bytes(&[21u8; 32]);
    let neighbor = SigningKey::from_bytes(&[22u8; 32]).verifying_key();
    let far = SigningKey::from_bytes(&[23u8; 32]);
    let record = sample_record(&far, [own.verifying_key(), neighbor, [0u8; 32], [0u8; 32], [0u8; 32]], [[0u8; 32]; 5]);
    let records = vec![record];
    let picks = bubble_merge_peers(&records, &vec![neighbor], &own.verifying_key(), 4).unwrap();
    assert_eq!(picks, vec![far.verifying_key()]);
    assert_eq!(bubble_merge_peers(&records, &vec![neighbor], &own.verifying_key(), 1), None);
    assert_eq!(bubble_merge_peers(&vec![], &vec![], &own.verifying_key(), 4), None);
    let only_known = sample_record(&own, [neighbor, [0u8; 32], [0u8; 32], [0u8; 32], [0u8; 32]], [[0u8; 32]; 5]);
    assert_eq!(bubble_merge_peers(&vec![only_known], &vec![neighbor], &own.verifying_key(), 4), None);
}

#[test]
fn message_overlap_picks() {
    let own = SigningKey::from_bytes(&[31u8; 32]);
    let other = SigningKey::from_bytes(&[32u8; 32]);
    let third = SigningKey::from_bytes(&[34u8; 32]);
    let peer = SigningKey::from_bytes(&[33u8; 32]).verifying_key();
    let seen = [9u8; 32];
    let unseen = [8u8; 32];
    let split = sample_record(&other, [peer, [0u8; 32], [0u8; 32], [0u8; 32], [0u8; 32]], [unseen, [7u8; 32], [0u8; 32], [0u8; 32], [0u8; 32]]);
    let overlapping = sample_record(&third, [[0u8; 32]; 5], [seen, unseen, [0u8; 32], [0u8; 32], [0u8; 32]]);
    let silent = sample_record(&third, [[0u8; 32]; 5], [[0u8; 32]; 5]);
    let agreeing = sample_record(&own, [peer, [0u8; 32], [0u8; 32], [0u8; 32], [0u8; 32]], [seen, [0u8; 32], [0u8; 32], [0u8; 32], [0u8; 32]]);
    let local = vec![seen];
    assert_eq!(message_overlap_peers(&vec![agreeing.clone()], &local, &vec![], &own.verifying_key()), None);
    assert_eq!(message_overlap_peers(&vec![overlapping.clone()], &local, &vec![], &own.verifying_key()), None);
    assert_eq!(message_overlap_peers(&vec![silent.clone()], &local, &vec![], &own.verifying_key()), None);
    assert_eq!(message_overlap_peers(&vec![split.clone()], &vec![], &vec![], &own.verifying_key()), None);
    let mut picks = message_overlap_peers(&vec![split.clone(), agreeing, overlapping, silent], &local, &vec![], &own.verifying_key()).unwrap();
    picks.sort();
    let mut expected = vec![other.verifying_key(), peer];
    expected.sort();
    assert_eq!(picks, expected);
    let all_known = message_overlap_peers(&vec![split], &local, &vec![peer, other.verifying_key()], &own.verifying_key());
    assert_eq!(all_known, Some(vec![]));
}

#[test]
fn join_peer_selection() {
    let peers: Vec<[u8; 32]> = (1u8..=5).map(|b| [b; 32]).collect();
    assert_eq!(select_join_peers(peers.clone(), None), peers);
    let chosen = select_join_peers(peers.clone(), Some(2));
    assert_eq!(chosen.len(), 2);
    assert!(chosen.iter().all(|p| peers.contains(p)));
    assert_ne!(chosen[0], chosen[1]);
    let mut all = select_join_peers(peers.clone(), Some(10));
    all.sort();
    assert_eq!(all, peers);
}

#[test]
fn record_content_slots() {
    let neighbors: Vec<[u8; 32]> = (1u8..=7).map(|b| [b; 32]).collect();
    let hashes = vec![[9u8; 32]];
    let content = GossipRecordContent::from_state(&neighbors, &hashes);
    assert_eq!(content.active_peers, [[1u8; 32], [2u8; 32], [3u8; 32], [4u8; 32], [5u8; 32]]);
    assert_eq!(content.last_message_hashes, [[9u8; 32], [0u8; 32], [0u8; 32], [0u8; 32], [0u8; 32]]);
    let empty = GossipRecordContent::empty();
    assert_eq!(empty.active_peers, [[0u8; 32]; 5]);
}

#[test]
fn message_hash_window_keeps_latest() {
    let mut window = MessageHashWindow::new();
    for i in 0u8..7 {
        window.record_message(&[i]);
    }
    let expected: Vec<[u8; 32]> = (2u8..7).map(|i| sha512_32(&[i])).collect();
    assert_eq!(window.hashes(), expected);
    assert_eq!(message_hash(b"hello"), sha512_32(b"hello"));
}

#[test]
fn loop_delays() {
    assert_eq!(effective_interval(Duration::from_millis(500)).as_millis(), 1000);
    assert_eq!(effective_interval(Duration::from_secs(10)).as_millis(), 10_000);
    assert_eq!(jittered_delay_millis(Duration::from_secs(10), Duration::from_secs(50), 50_007).as_millis(), 10_007);
    assert_eq!(jittered_delay_millis(Duration::from_secs(10), Duration::zero(), 12345).as_millis(), 10_000);
    assert_eq!(jittered_delay_nanos(Duration::from_secs(1), Duration::from_nanos(10), 25).as_nanos(), 1_000_000_005);
    assert_eq!(jittered_delay_nanos(Duration::from_secs(1), Duration::zero(), 25).as_nanos(), 1_000_000_000);
    let drawn = draw_delay_millis(Duration::from_secs(10), Duration::from_secs(50)).as_millis();
    assert!((10_000..60_000).contains(&drawn));
    let drawn = draw_delay_nanos(Duration::from_secs(5), Duration::from_secs(10)).as_nanos();
    assert!((5_000_000_000..15_000_000_000).contains(&drawn));
}

#[test]
fn dht_put_policy() {
    assert_eq!(after_put_attempt(0, 3, true), PutStep::Done);
    assert_eq!(after_put_attempt(0, 3, false), PutStep::Retry);
    assert_eq!(after_put_attempt(2, 3, false), PutStep::Retry);
    assert_eq!(after_put_attempt(3, 3, false), PutStep::GiveUp);
    assert_eq!(after_put_attempt(0, 0, false), PutStep::GiveUp);
    let mut input = b"/iroh/distributed-topic-tracker".to_vec();
    input.extend_from_slice(b"topic");
    let digest = sha2::Sha512::digest(&input);
    assert_eq!(topic_hash_20(&b"topic".to_vec()).to_vec(), digest[..20].to_vec());
}

#[test]
fn bootstrap_rounds() {
    let config = BootstrapConfig::default();
    let (mut state, publish) = BootstrapState::start(&config, 100);
    assert!(publish);
    assert_eq!(state.last_published_unix_minute(), 100);
    let lookup = state.lookup();
    assert_eq!(lookup.minute_offset, 0);
    assert!(lookup.use_cached_records);
    assert!(!state.publish_for(100));
    assert!(state.publish_for(101));
    assert!(!state.publish_for(101));

    let older_first = BootstrapConfig::builder().check_older_records_first_on_startup(true).build();
    let (state, publish) = BootstrapState::start(&older_first, 100);
    assert!(publish);
    assert_eq!(state.last_published_unix_minute(), 0);
    let lookup = state.lookup();
    assert_eq!(lookup.minute_offset, -1);
    assert!(!lookup.use_cached_records);

    let quiet = BootstrapConfig::builder().publish_record_on_startup(false).build();
    let (state, publish) = BootstrapState::start(&quiet, 100);
    assert!(!publish);
    assert_eq!(state.last_published_unix_minute(), 0);
}

#[test]
fn topic_startup_decisions() {
    assert_eq!(bootstrap_outcome(true), Ok(()));
    assert_eq!(bootstrap_outcome(false), Err(TopicError::BootstrapFailed));
    let plan = plan_workers(&Config::default(), false).unwrap();
    assert!(plan.publisher && plan.bubble_merge && plan.message_overlap_merge);
    assert_eq!(plan_workers(&Config::default(), true), Err(TopicError::Cancelled));
    let quiet = Config::builder()
        .publisher_config(PublisherConfig::Disabled)
        .merge_config(MergeConfig::builder().bubble_merge(BubbleMergeConfig::Disabled).build())
        .build();
    let plan = plan_workers(&quiet, false).unwrap();
    assert!(!plan.publisher && !plan.bubble_merge && plan.message_overlap_merge);
}

#[test]
fn bootstrap_loop_without_records_publishes_once_per_minute() {
    let config = BootstrapConfig::default();
    let (mut machine, first) = Bootstrapper::start(&config, 100);
    assert_eq!(first.publish, Some(Publication { unix_minute: 100, use_cached_records: false }));
    assert_eq!(first.action, Action::BeginRound);
    assert_eq!(machine.step(Event::RoundBegun { cancelled: false }).action, Action::CheckJoined);
    assert_eq!(machine.step(Event::JoinStatus(Some(false))).action, Action::FetchRecords { minute_offset: 0 });
    let step = machine.step(Event::Records { unix_minute: 100, records: vec![] });
    assert_eq!(step.publish, None);
    assert_eq!(step.action, Action::Wait(WaitReason::NoRecords));
    assert_eq!(machine.step(Event::WaitOver { cancelled: false }).action, Action::BeginRound);
    machine.step(Event::RoundBegun { cancelled: false });
    machine.step(Event::JoinStatus(Some(false)));
    let step = machine.step(Event::Records { unix_minute: 101, records: vec![] });
    assert_eq!(step.publish, Some(Publication { unix_minute: 101, use_cached_records: true }));
    let step = machine.step(Event::WaitOver { cancelled: true });
    assert_eq!(step.action, Action::Finish { joined: false });
    assert!(machine.is_finished());
    assert_eq!(machine.step(Event::JoinStatus(Some(true))).action, Action::Finish { joined: false });
}

#[test]
fn bootstrap_loop_checks_older_records_first() {
    let config = BootstrapConfig::builder().check_older_records_first_on_startup(true).build();
    let (mut machine, first) = Bootstrapper::start(&config, 100);
    assert_eq!(first.publish, Some(Publication { unix_minute: 100, use_cached_records: false }));
    machine.step(Event::RoundBegun { cancelled: false });
    assert_eq!(machine.step(Event::JoinStatus(Some(false))).action, Action::FetchRecords { minute_offset: -1 });
    let step = machine.step(Event::Records { unix_minute: 99, records: vec![] });
    assert_eq!(step.publish, Some(Publication { unix_minute: 99, use_cached_records: false }));
    machine.step(Event::WaitOver { cancelled: false });
    machine.step(Event::RoundBegun { cancelled: false });
    assert_eq!(machine.step(Event::JoinStatus(Some(false))).action, Action::FetchRecords { minute_offset: 0 });
}

#[test]
fn bootstrap_loop_joins_offered_peers_in_turn() {
    let publisher = SigningKey::from_bytes(&[7u8; 32]);
    let peer = SigningKey::from_bytes(&[8u8; 32]).verifying_key();
    let mut peers = [[0u8; 32]; 5];
    peers[0] = peer;
    let record = sample_record(&publisher, peers, [[0u8; 32]; 5]);
    let config = BootstrapConfig::builder().publish_record_on_startup(false).build();
    let (mut machine, first) = Bootstrapper::start(&config, 100);
    assert_eq!(first.publish, None);
    machine.step(Event::RoundBegun { cancelled: false });
    machine.step(Event::JoinStatus(Some(false)));
    assert_eq!(machine.step(Event::Records { unix_minute: 100, records: vec![record] }).action, Action::CheckJoined);
    let first_peer = match machine.step(Event::JoinStatus(Some(false))).action {
        Action::JoinPeer(key) => key,
        other => panic!("expected a join, got {other:?}"),
    };
    let second_peer = match machine.step(Event::JoinAttempted { ok: false }).action {
        Action::JoinPeer(key) => key,
        other => panic!("expected a join, got {other:?}"),
    };
    let mut tried = vec![first_peer, second_peer];
    tried.sort();
    let mut offered = vec![publisher.verifying_key(), peer];
    offered.sort();
    assert_eq!(tried, offered);
    assert_eq!(machine.step(Event::JoinAttempted { ok: true }).action, Action::Wait(WaitReason::PeerSettle));
    assert_eq!(machine.step(Event::WaitOver { cancelled: false }).action, Action::CheckJoined);
    assert_eq!(machine.step(Event::JoinStatus(Some(true))).action, Action::CheckJoined);
    assert_eq!(machine.step(Event::JoinStatus(None)).action, Action::Finish { joined: true });
}

#[test]
fn bootstrap_loop_retries_after_an_unjoined_round() {
    let publisher = SigningKey::from_bytes(&[7u8; 32]);
    let record = sample_record(&publisher, [[0u8; 32]; 5], [[0u8; 32]; 5]);
    let config = BootstrapConfig::builder().publish_record_on_startup(false).build();
    let (mut machine, _) = Bootstrapper::start(&config, 100);
    machine.step(Event::RoundBegun { cancelled: false });
    machine.step(Event::JoinStatus(Some(false)));
    machine.step(Event::Records { unix_minute: 100, records: vec![record] });
    assert_eq!(machine.step(Event::JoinStatus(Some(false))).action, Action::JoinPeer(publisher.verifying_key()));
    assert_eq!(machine.step(Event::JoinAttempted { ok: false }).action, Action::CheckJoined);
    assert_eq!(machine.step(Event::JoinStatus(Some(false))).action, Action::Wait(WaitReason::JoinConfirmation));
    assert_eq!(machine.step(Event::WaitOver { cancelled: false }).action, Action::CheckJoined);
    let step = machine.step(Event::JoinStatus(Some(false)));
    assert_eq!(step.publish, Some(Publication { unix_minute: 100, use_cached_records: true }));
    assert_eq!(step.action, Action::Wait(WaitReason::DiscoveryPoll));
    assert_eq!(machine.step(Event::WaitOver { cancelled: false }).action, Action::BeginRound);
    assert_eq!(machine.step(Event::JoinAttempted { ok: true }).action, Action::BeginRound);
    assert_eq!(machine.step(Event::RoundBegun { cancelled: true }).action, Action::Finish { joined: false });
}

#[test]
fn bootstrap_loop_stops_when_a_join_check_fails_or_succeeds() {
    let (mut machine, _) = Bootstrapper::start(&BootstrapConfig::default(), 5);
    machine.step(Event::RoundBegun { cancelled: false });
    assert_eq!(machine.step(Event::JoinStatus(None)).action, Action::Finish { joined: false });
    let (mut machine, _) = Bootstrapper::start(&BootstrapConfig::default(), 5);
    machine.step(Event::RoundBegun { cancelled: false });
    assert_eq!(machine.step(Event::JoinStatus(Some(true))).action, Action::Finish { joined: true });
}

#[test]
fn bootstrap_wait_durations() {
    let config = BootstrapConfig::default();
    assert_eq!(wait_duration(&config, WaitReason::NoRecords).as_millis(), 1500);
    assert_eq!(wait_duration(&config, WaitReason::PeerSettle).as_millis(), 100);
    assert_eq!(wait_duration(&config, WaitReason::JoinConfirmation).as_millis(), 500);
    assert_eq!(wait_duration(&config, WaitReason::DiscoveryPoll).as_millis(), 2000);
}

#[test]
fn encrypted_record_parsing() {
    assert!(EncryptedRecord::parse(&[1, 0, 0]).is_none());
    assert!(EncryptedRecord::parse(&[5, 0, 0, 0, 1, 2, 3, 4]).is_none());
    let parsed = EncryptedRecord::parse(&[2, 0, 0, 0, 7, 8, 9]).expect("framed");
    assert_eq!(parsed.to_bytes(), vec![2, 0, 0, 0, 7, 8, 9]);
    let empty = EncryptedRecord::parse(&[0, 0, 0, 0]).expect("framed");
    assert_eq!(empty.to_bytes(), vec![0, 0, 0, 0]);
}

#[test]
fn slot_records_keep_verified_records_of_others() {
    let slot_key = SigningKey::from_bytes(&[21u8; 32]);
    let own = SigningKey::from_bytes(&[22u8; 32]);
    let other = SigningKey::from_bytes(&[23u8; 32]);
    let third = SigningKey::from_bytes(&[24u8; 32]);
    let mine = sample_record(&own, [[0u8; 32]; 5], [[0u8; 32]; 5]);
    let theirs = sample_record(&other, [[0u8; 32]; 5], [[0u8; 32]; 5]);
    let stale = Record::sign([1u8; 32], 12344, third.verifying_key(), [[0u8; 32]; 5], [[0u8; 32]; 5], &third);
    let forged = Record::sign([1u8; 32], 12345, third.verifying_key(), [[0u8; 32]; 5], [[0u8; 32]; 5], &other);
    let later = sample_record(&third, [[9u8; 32]; 5], [[0u8; 32]; 5]);
    let seal = |record: &Record| record.encrypt(&slot_key).expect("encryption failed").to_bytes();
    let wrong_key = theirs.encrypt(&SigningKey::from_bytes(&[25u8; 32])).unwrap().to_bytes();
    let items = vec![
        vec![1, 2],
        seal(&mine),
        seal(&theirs),
        wrong_key,
        seal(&stale),
        seal(&forged),
        seal(&theirs),
        seal(&later),
    ];
    let records = slot_records(&items, &slot_key, &[1u8; 32], 12345, &own.verifying_key());
    assert_eq!(records, vec![theirs, later]);
    assert!(slot_records(&vec![], &slot_key, &[1u8; 32], 12345, &own.verifying_key()).is_empty());
}

#[test]
fn slot_room_follows_record_cap() {
    let config = BootstrapConfig::default();
    assert!(slot_has_room(&config, 0));
    assert!(slot_has_room(&config, 4));
    assert!(!slot_has_room(&config, 5));
    let closed = BootstrapConfig::builder().max_bootstrap_records(0).build();
    assert!(!slot_has_room(&closed, 0));
}

#[test]
fn topic_id_conversions() {
    let named = TopicId::new("my-topic".to_string());
    let from_str: TopicId = "my-topic".into();
    let from_string: TopicId = String::from("my-topic").into();
    let parsed: TopicId = "my-topic".parse().unwrap();
    for topic in [&from_str, &from_string, &parsed] {
        assert_eq!(topic.hash(), named.hash());
        assert_eq!(topic.raw(), "my-topic");
    }
    assert_eq!(TopicId::from("my-topic").hash(), sha512_32(b"my-topic"));
}

#[test]
fn duration_new_carries_nanoseconds() {
    assert_eq!(Duration::new(1, 2_500_000_000).as_nanos(), 3_500_000_000);
    assert_eq!(Duration::new(1, 2_500_000_000).as_secs(), 3);
    assert_eq!(Duration::new(1, 2_500_000_000).subsec_nanos(), 500_000_000);
    assert_eq!(Duration::new(u64::MAX, 999_999_999).as_nanos(), 18_446_744_073_709_551_615_999_999_999);
}

#[test]
fn config_joins_at_least_one_peer() {
    assert_eq!(Config::default().max_join_peer_count(), 4);
    assert_eq!(Config::builder().max_join_peer_count(1).build().max_join_peer_count(), 1);
}
