//! Unix minutes: the time slots that records, keys and salts belong to.

use vstd::prelude::*;

verus! {

/// Trusted: calls `chrono::Utc::now` and `DateTime::timestamp` for the
/// current Unix time in seconds. It reads the clock, so its value is left
/// unsaid, but for one thing: `Utc::now` measures the time since the Unix
/// epoch and stops (panics) on a clock set before it, so what it returns is
/// never negative.
#[verifier::external_body]
fn utc_now_secs() -> (secs: i64)
    ensures
        secs >= 0,
{
    chrono::Utc::now().timestamp()
}

/// `secs / 60`, rounded toward zero, as Rust's integer division does.
pub open spec fn minutes_of(secs: int) -> int {
    if secs >= 0 {
        secs / 60
    } else {
        -((-secs) / 60)
    }
}

/// `x` clamped to the range of `i64`, as a saturating addition leaves it.
pub open spec fn clamp_i64(x: int) -> int {
    if x > i64::MAX {
        i64::MAX as int
    } else if x < i64::MIN {
        i64::MIN as int
    } else {
        x
    }
}

/// The minute slot `minute_offset` minutes from the Unix time `secs`
/// (saturating), or `None` where it lies before the epoch.
pub open spec fn minute_slot_spec(secs: i64, minute_offset: i64) -> Option<u64> {
    let minute = clamp_i64(minutes_of(secs as int) + minute_offset);
    if minute >= 0 {
        Some(minute as u64)
    } else {
        None
    }
}

/// The minute slot `minute_offset` minutes from the Unix time `secs`:
/// `(secs / 60).saturating_add(minute_offset)`, or `None` where that is
/// negative.
pub fn minute_slot(secs: i64, minute_offset: i64) -> (minute: Option<u64>)
    ensures
        minute == minute_slot_spec(secs, minute_offset),
{
    let minutes: i64 = if secs >= 0 {
        secs / 60
    } else if secs == i64::MIN {
        -153722867280912930
    } else {
        -((-secs) / 60)
    };
    assert(minutes == minutes_of(secs as int));
    let shifted: i64 = match minutes.checked_add(minute_offset) {
        Some(m) => m,
        None => if minute_offset > 0 {
            i64::MAX
        } else {
            i64::MIN
        },
    };
    if shifted >= 0 {
        Some(shifted as u64)
    } else {
        None
    }
}

/// The current Unix minute, shifted by `minute_offset` minutes: the minute
/// slot of the clock's current reading, or `None` where the shifted minute
/// lies before the epoch (which never happens for an offset of zero or
/// more).
pub fn unix_minute(minute_offset: i64) -> (minute: Option<u64>)
    ensures
        exists|secs: i64| secs >= 0 && #[trigger] minute_slot_spec(secs, minute_offset) == minute,
        minute_offset >= 0 ==> minute is Some,
{
    let secs = utc_now_secs();
    minute_slot(secs, minute_offset)
}

/// One minute more of offset is one minute later, where neither slot
/// saturates or lies before the epoch.
pub proof fn law_minute_slot_step(secs: i64, minute_offset: i64)
    requires
        minute_offset < i64::MAX,
        minute_slot_spec(secs, minute_offset) is Some,
        minutes_of(secs as int) + minute_offset + 1 <= i64::MAX,
    ensures
        minute_slot_spec(secs, (minute_offset + 1) as i64) == Some(
            (minute_slot_spec(secs, minute_offset)->0 + 1) as u64,
        ),
{
}

} // verus!
