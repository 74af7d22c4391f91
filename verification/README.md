# distributed-topic-tracker (verified core)

Decentralized auto-bootstrapping for gossip topics over the mainline DHT.
Nodes of a topic publish small signed, encrypted records in per-minute DHT
slots; newcomers read them to find peers, and running nodes use them to
detect and heal split clusters.

## Layout

- `src/` — the library, verified with Verus:
  - `config.rs` — every setting, its defaults and builders;
  - `time.rs` — durations; `clock.rs` — Unix minute slots;
  - `topic.rs` — topic identifiers;
  - `crypto/` — SHA-512, Ed25519 keys and signatures, HPKE, key
    derivation (`keys.rs`), and the record wire format, signing and
    two-layer encryption (`record.rs`);
  - `peers.rs` — which peers bootstrap and the merge strategies join;
  - `gossip.rs` — record content, the window of recent message hashes, the
    random subset of a join request;
  - `schedule.rs` — loop intervals and jitter; `dht.rs` — the put retry
    policy and the DHT key of a topic;
  - `slot.rs` — which stored items of a minute slot are accepted as
    bootstrap records, and whether a slot has room for one more;
  - `bootstrap.rs` — the state the bootstrap loop keeps between rounds and
    the decisions of topic startup;
  - `bootstrapper.rs` — the bootstrap loop as a state machine: from its
    state and the outcome of the last action to the next action.
- `app/` — the asynchronous layer (DHT client, gossip sender and receiver,
  record publisher, topic actors) that performs the I/O around those
  decisions and feeds the outcomes back.
- `tests/` — the tests of the library.
