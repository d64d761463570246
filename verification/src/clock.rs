//! The time of day: a count of milliseconds since local midnight, read from
//! the system clock through one trusted call.

use vstd::prelude::*;

verus! {

/// Milliseconds in a day.
pub const MS_PER_DAY: u64 = 86_400_000;

/// Relies on chrono's `Local::now`, `DateTime::time`,
/// `Timelike::num_seconds_from_midnight` and `Timelike::nanosecond`: the
/// seconds since local midnight are documented to lie in `0..=86_399`, and
/// the nanoseconds within the second in `0..=1_999_999_999` (the top half
/// marking a leap second).
#[verifier::external_body]
fn clock_now_parts() -> (r: (u32, u32))
    ensures
        r.0 < 86_400,
        r.1 < 2_000_000_000,
{
    let time = chrono::Local::now().time();
    (chrono::Timelike::num_seconds_from_midnight(&time), chrono::Timelike::nanosecond(&time))
}

/// Milliseconds since midnight for a clock reading of whole seconds since
/// midnight and nanoseconds within the second: exactly
/// `(secs * 1000 + nanos / 1_000_000) mod MS_PER_DAY`, so a leap second's
/// spill past the day's end wraps onto the next day.
pub fn ms_of_parts(secs: u32, nanos: u32) -> (ms: u64)
    requires
        secs < 86_400,
        nanos < 2_000_000_000,
    ensures
        ms as int == ((secs as int) * 1000 + (nanos as int) / 1_000_000) % (MS_PER_DAY as int),
        ms < MS_PER_DAY,
{
    ((secs as u64) * 1000 + (nanos as u64) / 1_000_000) % MS_PER_DAY
}

/// Milliseconds since local midnight, read from the system clock: the trusted
/// reading scaled by `ms_of_parts`, so only the reading itself is unverified.
/// The result is always a valid time of day.
pub fn now_ms_since_midnight() -> (ms: u64)
    ensures
        ms < MS_PER_DAY,
{
    let (secs, nanos) = clock_now_parts();
    ms_of_parts(secs, nanos)
}

/// The clock-face reading of a time of day: hours, minutes, seconds and
/// milliseconds — or nothing for a value at or past a full day, which is no
/// time of day.
pub fn describe_time(ms: u64) -> (r: Option<(u64, u64, u64, u64)>)
    ensures
        ms < MS_PER_DAY ==> r == Some(
            ((ms as int / 3_600_000) as u64, ((ms as int / 60_000) % 60) as u64, ((ms as int
                / 1000) % 60) as u64, (ms as int % 1000) as u64),
        ),
        ms >= MS_PER_DAY ==> r is None,
{
    if ms >= MS_PER_DAY {
        return None;
    }
    Some((ms / 3_600_000, (ms / 60_000) % 60, (ms / 1000) % 60, ms % 1000))
}

} // verus!
