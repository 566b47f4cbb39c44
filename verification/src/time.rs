use vstd::prelude::*;

verus! {

/// A point in time as the service stores it: whole seconds since the Unix
/// epoch (UTC), the sub-second nanoseconds (values of one billion and more
/// mark a leap second), and the UTC offset, in seconds east, that the time
/// was observed in.
#[derive(Clone, Copy, Debug, PartialEq, Eq, Structural)]
pub struct Timestamp {
    pub secs: i64,
    pub nanos: u32,
    pub offset: i32,
}

impl Timestamp {
    /// `self` is not later than `other`. The offset plays no part: two
    /// timestamps are ordered by the instant they denote.
    pub open spec fn not_after(self, other: Timestamp) -> bool {
        self.secs < other.secs || (self.secs == other.secs && self.nanos <= other.nanos)
    }

    /// Compares the instants of two timestamps.
    pub fn le(&self, other: &Timestamp) -> (res: bool)
        ensures
            res == self.not_after(*other),
    {
        self.secs < other.secs || (self.secs == other.secs && self.nanos <= other.nanos)
    }
}

/// What chrono's `DateTime::<FixedOffset>::checked_add_days` gives for the
/// date-time with these seconds, nanoseconds and offset, as the same three
/// values, or `None` where chrono returns `None` or cannot represent the input.
pub uninterp spec fn chrono_checked_add_days(secs: i64, nanos: u32, offset: i32, days: u64) -> Option<(i64, u32, i32)>;

/// The timestamp that `chrono_checked_add_days` names, in the library's type.
pub open spec fn spec_checked_add_days(ts: Timestamp, days: u64) -> Option<Timestamp> {
    match chrono_checked_add_days(ts.secs, ts.nanos, ts.offset, days) {
        Some((s, n, o)) => Some(Timestamp { secs: s, nanos: n, offset: o }),
        None => None,
    }
}

/// Inputs on which chrono's day addition certainly succeeds: the offset lies
/// within a day, the time is not a leap second, and both the start and the
/// result lie within eight trillion seconds of the epoch (about 253,000
/// years, well inside chrono's dates from year -262143 to 262142).
pub open spec fn day_addition_in_range(ts: Timestamp, days: u64) -> bool {
    &&& -86400 < ts.offset < 86400
    &&& ts.nanos < 1_000_000_000
    &&& -8_000_000_000_000 <= ts.secs
    &&& ts.secs + 86400 * days <= 8_000_000_000_000
}

/// Calls chrono's `DateTime::<FixedOffset>::checked_add_days` on `ts`.
/// Claimed: the result is the named one, and a date-time that comes back is
/// `days` whole days (of 86400 seconds, the offset being fixed) after `ts`,
/// with the same sub-second part and the same offset; and the addition
/// succeeds on the inputs of `day_addition_in_range`. Outside those inputs,
/// just where chrono's range ends is left to the name.
#[verifier::external_body]
pub(crate) fn checked_add_days(ts: Timestamp, days: u64) -> (res: Option<Timestamp>)
    ensures
        res == (match chrono_checked_add_days(ts.secs, ts.nanos, ts.offset, days) {
            Some((s, n, o)) => Some(Timestamp { secs: s, nanos: n, offset: o }),
            None => None,
        }),
        res matches Some(t) ==> t.secs == ts.secs + 86400 * days && t.nanos == ts.nanos
            && t.offset == ts.offset,
        day_addition_in_range(ts, days) ==> res is Some,
{
    let offset = chrono::FixedOffset::east_opt(ts.offset)?;
    let start = chrono::DateTime::from_timestamp(ts.secs, ts.nanos)?.with_timezone(&offset);
    let end = start.checked_add_days(chrono::Days::new(days))?;
    Some(Timestamp { secs: end.timestamp(), nanos: end.timestamp_subsec_nanos(), offset: end.offset().local_minus_utc() })
}

} // verus!
