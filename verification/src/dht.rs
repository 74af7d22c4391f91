//! Decisions of the DHT client: the retry policy of record publication and
//! the 20-byte DHT key of a topic.

use vstd::prelude::*;

use crate::bytes::append_bytes;
use crate::crypto::digest::{copy_array, sha512, sha512_digest};

verus! {

/// What the publishing loop does after an attempt to put a record.
#[derive(Debug, Clone, Copy, PartialEq, Eq, Structural)]
pub enum PutStep {
    /// The record was stored.
    Done,
    /// Reset the DHT connection, wait the retry delay, try again.
    Retry,
    /// Every attempt failed: publishing fails.
    GiveUp,
}

/// The step after attempt number `attempt` (counting from zero) of a put
/// with `retries` retries.
pub open spec fn put_step(attempt: nat, retries: nat, succeeded: bool) -> PutStep {
    if succeeded {
        PutStep::Done
    } else if attempt >= retries {
        PutStep::GiveUp
    } else {
        PutStep::Retry
    }
}

/// Decides the step after attempt number `attempt` of a put with `retries`
/// retries: a put makes the first attempt and up to `retries` more.
pub fn after_put_attempt(attempt: usize, retries: usize, succeeded: bool) -> (step: PutStep)
    ensures
        step == put_step(attempt as nat, retries as nat, succeeded),
{
    if succeeded {
        PutStep::Done
    } else if attempt >= retries {
        PutStep::GiveUp
    } else {
        PutStep::Retry
    }
}

/// The outcome of a put whose attempts succeed as `outcomes` says, the
/// attempts numbered from `attempt`: `Some(n)` where attempt `n` stores the
/// record, `None` where the put gives up.
pub open spec fn put_run(outcomes: Seq<bool>, attempt: nat, retries: nat) -> Option<nat>
    decreases retries + 1 - attempt,
{
    if attempt >= outcomes.len() || attempt > retries {
        None
    } else {
        match put_step(attempt, retries, outcomes[attempt as int]) {
            PutStep::Done => Some(attempt),
            PutStep::GiveUp => None,
            PutStep::Retry => put_run(outcomes, attempt + 1, retries),
        }
    }
}

/// A put makes `1 + retries` attempts at most: it succeeds at the first
/// successful attempt among them, and gives up when they all fail.
pub proof fn law_put_attempts(outcomes: Seq<bool>, attempt: nat, retries: nat)
    requires
        attempt <= retries,
        outcomes.len() == retries + 1,
    ensures
        put_run(outcomes, attempt, retries) matches Some(n) ==> attempt <= n <= retries && outcomes[n as int]
            && forall|k: int| attempt <= k < n ==> !outcomes[k],
        put_run(outcomes, attempt, retries) is None ==> forall|k: int| attempt <= k <= retries ==> !outcomes[k],
    decreases retries + 1 - attempt,
{
    if !outcomes[attempt as int] && attempt < retries {
        law_put_attempts(outcomes, attempt + 1, retries);
    }
}

/// The prefix that the experimental DHT hashes before a topic's bytes.
pub open spec fn topic_key_prefix() -> Seq<u8> {
    "/iroh/distributed-topic-tracker"@.map_values(|c: char| c as u8)
}

/// The 20-byte DHT key under which peers of a topic announce themselves: the
/// first 20 bytes of SHA-512 over a fixed prefix and the topic's bytes.
pub fn topic_hash_20(topic_bytes: &Vec<u8>) -> (key: [u8; 20])
    ensures
        key@ == sha512(topic_key_prefix() + topic_bytes@).subrange(0, 20),
{
    let prefix: [u8; 31] = [
        47, 105, 114, 111, 104, 47, 100, 105, 115, 116, 114, 105, 98, 117, 116, 101,
        100, 45, 116, 111, 112, 105, 99, 45, 116, 114, 97, 99, 107, 101, 114,
    ];
    proof {
        reveal_strlit("/iroh/distributed-topic-tracker");
        assert(prefix@ =~= topic_key_prefix());
    }
    let mut input: Vec<u8> = Vec::new();
    append_bytes(&mut input, prefix.as_slice());
    append_bytes(&mut input, topic_bytes.as_slice());
    let digest = sha512_digest(input.as_slice());
    copy_array::<20>(digest.as_slice(), 0)
}

} // verus!
