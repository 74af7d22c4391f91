//! Timing of the background loops: the intervals of the publisher and the
//! merge strategies, with random jitter, and the DHT retry delay.

use vstd::prelude::*;

use vstd::bytes::{u128_from_le_bytes, u64_from_le_bytes};

use crate::crypto::digest::copy_array;
use crate::crypto::ed25519::random_seed;
use crate::time::{Duration, MAX_NANOS};

verus! {

/// A random `u128`, read little-endian from fresh random bytes.
fn random_u128() -> (value: u128) {
    let bytes = random_seed();
    let low = copy_array::<16>(bytes.as_slice(), 0);
    u128_from_le_bytes(low.as_slice())
}

/// A random `u64`, read little-endian from fresh random bytes.
fn random_u64() -> (value: u64) {
    let bytes = random_seed();
    let low = copy_array::<8>(bytes.as_slice(), 0);
    u64_from_le_bytes(low.as_slice())
}

/// The shortest interval a background loop runs at: one second.
pub open spec fn min_interval_nanos() -> nat {
    1_000_000_000
}

/// The interval a background loop runs at: the configured one, but at least
/// one second.
pub fn effective_interval(base_interval: Duration) -> (interval: Duration)
    ensures
        interval@ == if base_interval@ >= min_interval_nanos() { base_interval@ } else { min_interval_nanos() },
{
    base_interval.max(Duration::from_secs(1))
}

/// The millisecond jitter that `random` picks below `max_jitter_millis`
/// (none where that is zero).
pub open spec fn jitter_millis(max_jitter_millis: nat, random: u128) -> nat {
    if max_jitter_millis > 0 {
        random as nat % max_jitter_millis
    } else {
        0
    }
}

/// The delay in nanoseconds until the next run of a loop that counts in
/// milliseconds: base plus jitter, in whole milliseconds, cut to 64 bits
/// of milliseconds.
pub open spec fn millis_delay(base_interval: nat, max_jitter: nat, random: u128) -> nat {
    ((base_interval / 1_000_000 + jitter_millis(max_jitter / 1_000_000, random)) % 0x1_0000_0000_0000_0000)
        * 1_000_000
}

/// The delay until the next run of the publisher or the message overlap
/// merge, for the random value `random`: the base interval plus a jitter
/// below `max_jitter`, in whole milliseconds.
pub fn jittered_delay_millis(base_interval: Duration, max_jitter: Duration, random: u128) -> (delay: Duration)
    ensures
        delay@ == millis_delay(base_interval@, max_jitter@, random),
{
    let max_millis = max_jitter.as_millis();
    let jitter: u128 = if max_millis > 0 {
        random % max_millis
    } else {
        0
    };
    let base_millis = base_interval.as_millis();
    assert(base_millis <= MAX_NANOS / 1_000_000);
    assert(jitter <= MAX_NANOS / 1_000_000);
    let total: u128 = base_millis + jitter;
    let truncated: u64 = (total % 0x1_0000_0000_0000_0000) as u64;
    Duration::from_millis(truncated)
}

/// Draws the delay until the next run of the publisher or the message
/// overlap merge: for some jitter below `max_jitter`, the base interval plus
/// that jitter, in whole milliseconds.
pub fn draw_delay_millis(base_interval: Duration, max_jitter: Duration) -> (delay: Duration)
    ensures
        exists|random: u128| delay@ == #[trigger] millis_delay(base_interval@, max_jitter@, random),
{
    let random = random_u128();
    jittered_delay_millis(base_interval, max_jitter, random)
}

/// The nanosecond jitter that `random` picks: below `max_jitter` taken
/// modulo 2^64, none where `max_jitter` is zero.
pub open spec fn jitter_nanos(max_jitter: nat, random: u64) -> nat {
    if max_jitter > 0 {
        random as nat % (max_jitter % 0x1_0000_0000_0000_0000)
    } else {
        0
    }
}

/// `max_jitter` is zero or leaves a non-zero bound modulo 2^64.
pub open spec fn jitter_bound_usable(max_jitter: nat) -> bool {
    max_jitter > 0 ==> max_jitter % 0x1_0000_0000_0000_0000 != 0
}

/// The delay until the next run of the bubble merge, or the next DHT put
/// retry, for the random value `random`: the base interval plus a jitter
/// below `max_jitter`, in nanoseconds.
pub fn jittered_delay_nanos(base_interval: Duration, max_jitter: Duration, random: u64) -> (delay: Duration)
    requires
        jitter_bound_usable(max_jitter@),
        base_interval@ + jitter_nanos(max_jitter@, random) <= MAX_NANOS,
    ensures
        delay@ == base_interval@ + jitter_nanos(max_jitter@, random),
{
    let jitter = if !max_jitter.is_zero() {
        let bound = (max_jitter.as_nanos() % 0x1_0000_0000_0000_0000) as u64;
        Duration::from_nanos(random % bound)
    } else {
        Duration::zero()
    };
    match base_interval.checked_add(jitter) {
        Some(delay) => delay,
        None => base_interval,
    }
}

/// Draws the delay until the next run of the bubble merge, or the next DHT
/// put retry: for some jitter below `max_jitter`, the base interval plus that
/// jitter. The bound leaves room for any jitter.
pub fn draw_delay_nanos(base_interval: Duration, max_jitter: Duration) -> (delay: Duration)
    requires
        jitter_bound_usable(max_jitter@),
        base_interval@ + max_jitter@ % 0x1_0000_0000_0000_0000 <= MAX_NANOS,
    ensures
        exists|random: u64| delay@ == base_interval@ + #[trigger] jitter_nanos(max_jitter@, random),
{
    let random = random_u64();
    jittered_delay_nanos(base_interval, max_jitter, random)
}

/// A delay stays within the base interval plus the jitter bound, where no
/// cut to 64 bits of milliseconds happens.
pub proof fn law_millis_delay_bounds(base_interval: nat, max_jitter: nat, random: u128)
    requires
        base_interval / 1_000_000 + max_jitter / 1_000_000 < 0x1_0000_0000_0000_0000,
    ensures
        (base_interval / 1_000_000) * 1_000_000 <= millis_delay(base_interval, max_jitter, random),
        max_jitter / 1_000_000 > 0 ==> millis_delay(base_interval, max_jitter, random) < (base_interval
            / 1_000_000 + max_jitter / 1_000_000) * 1_000_000,
        max_jitter / 1_000_000 == 0 ==> millis_delay(base_interval, max_jitter, random) == (base_interval
            / 1_000_000) * 1_000_000,
{
    let j = jitter_millis(max_jitter / 1_000_000, random);
    assert(j < max_jitter / 1_000_000 || max_jitter / 1_000_000 == 0);
    assert(base_interval / 1_000_000 + j < 0x1_0000_0000_0000_0000);
    assert((base_interval / 1_000_000 + j) % 0x1_0000_0000_0000_0000 == base_interval / 1_000_000 + j);
}

/// A nanosecond jitter stays below its bound.
pub proof fn law_nanos_jitter_bounds(max_jitter: nat, random: u64)
    requires
        jitter_bound_usable(max_jitter),
    ensures
        max_jitter == 0 ==> jitter_nanos(max_jitter, random) == 0,
        max_jitter > 0 ==> jitter_nanos(max_jitter, random) < max_jitter % 0x1_0000_0000_0000_0000,
        jitter_nanos(max_jitter, random) <= max_jitter,
{
}

/// How long the announce-based bootstrap waits before its next lookup: one
/// second while it has added fewer than two peers, twenty seconds after.
pub fn discovery_delay(added_peers: usize) -> (delay: Duration)
    ensures
        delay@ == if added_peers < 2 { 1_000_000_000nat } else { 20_000_000_000nat },
{
    if added_peers < 2 {
        Duration::from_secs(1)
    } else {
        Duration::from_secs(20)
    }
}

} // verus!
