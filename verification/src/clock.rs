//! Points in time as signed distances from the Unix epoch, in nanoseconds.

use vstd::prelude::*;
use std::time::{SystemTime, UNIX_EPOCH};

verus! {

#[verifier::external_type_specification]
#[verifier::external_body]
pub struct ExSystemTime(SystemTime);

/// The largest number of nanoseconds that a `Duration` can hold.
pub open spec fn max_duration_nanos() -> int {
    18_446_744_073_709_551_615int * 1_000_000_000 + 999_999_999
}

/// A point in time: `nanos` nanoseconds after the Unix epoch, or before it when
/// `before_epoch` is set.
#[derive(Debug, Clone, Copy, PartialEq, Eq, Structural)]
pub struct Timestamp {
    pub before_epoch: bool,
    pub nanos: u128,
}

impl Timestamp {
    /// The signed distance from the epoch, in nanoseconds.
    pub open spec fn offset(self) -> int {
        if self.before_epoch {
            -(self.nanos as int)
        } else {
            self.nanos as int
        }
    }

    /// The distance fits a `Duration`.
    pub open spec fn bounded(self) -> bool {
        self.nanos <= max_duration_nanos()
    }

    /// The point in time that `time` stands for (`SystemTime::duration_since` the
    /// epoch, and its error's duration for a time before it).
    #[verifier::external_body]
    pub fn from_system_time(time: SystemTime) -> (r: Timestamp)
        ensures
            r == epoch_offset(time),
            r.bounded(),
    {
        match time.duration_since(UNIX_EPOCH) {
            Ok(after) => Timestamp { before_epoch: false, nanos: after.as_nanos() },
            Err(before) => Timestamp { before_epoch: true, nanos: before.duration().as_nanos() },
        }
    }

    /// The current point in time.
    pub fn now() -> (r: Timestamp)
        ensures
            r.bounded(),
    {
        Timestamp::from_system_time(system_time_now())
    }

    /// The whole seconds since the epoch; zero for a time before it.
    pub open spec fn unix_secs(self) -> int {
        if self.before_epoch {
            0
        } else {
            self.nanos as int / 1_000_000_000
        }
    }
}

/// The distance of a system time from the Unix epoch, as `SystemTime::duration_since`
/// gives it (its error's duration, before the epoch), in nanoseconds.
pub uninterp spec fn epoch_offset(time: SystemTime) -> Timestamp;

/// `SystemTime::now`: the system clock's current time.
#[verifier::external_body]
fn system_time_now() -> SystemTime {
    SystemTime::now()
}

/// Whether a task created at `created` is older than `max_age_nanos` at `now`: the
/// clock has not gone back past `created` and more than `max_age_nanos` have passed.
pub open spec fn older_than(created: Timestamp, now: Timestamp, max_age_nanos: int) -> bool {
    now.offset() >= created.offset() && now.offset() - created.offset() > max_age_nanos
}

/// Whether the span from `created` to `now` is longer than `max_age_nanos`.
pub fn is_older_than(created: Timestamp, now: Timestamp, max_age_nanos: u128) -> (r: bool)
    requires
        created.bounded(),
        now.bounded(),
    ensures
        r == older_than(created, now, max_age_nanos as int),
{
    if !now.before_epoch && !created.before_epoch {
        now.nanos >= created.nanos && now.nanos - created.nanos > max_age_nanos
    } else if !now.before_epoch && created.before_epoch {
        now.nanos + created.nanos > max_age_nanos
    } else if now.before_epoch && !created.before_epoch {
        now.nanos == 0 && created.nanos == 0 && 0 > max_age_nanos
    } else {
        now.nanos <= created.nanos && created.nanos - now.nanos > max_age_nanos
    }
}

/// `SystemTime`'s whole seconds since the epoch, zero for a time before it.
pub fn system_time_to_unix_secs(value: Timestamp) -> (r: u64)
    requires
        value.bounded(),
    ensures
        r == value.unix_secs(),
{
    if value.before_epoch {
        0
    } else {
        let secs = value.nanos / 1_000_000_000;
        assert(secs <= 18_446_744_073_709_551_615) by (nonlinear_arith)
            requires
                secs == value.nanos / 1_000_000_000,
                value.nanos <= max_duration_nanos(),
        ;
        secs as u64
    }
}

} // verus!
