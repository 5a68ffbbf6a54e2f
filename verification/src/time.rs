//! Instants as the date-time crate holds them: the range of a UTC
//! date-time, and instants as nanoseconds or milliseconds since the epoch.

use vstd::prelude::*;

verus! {

/// The first instant that a UTC date-time can hold (January 1 of the year
/// -262143, midnight), in milliseconds since the epoch.
pub const MIN_DATETIME_MS: i64 = -8_334_601_228_800_000;

/// The last whole millisecond that a UTC date-time can hold (December 31 of
/// the year 262142, 23:59:59.999), in milliseconds since the epoch.
pub const MAX_DATETIME_MS: i64 = 8_210_266_876_799_999;

/// Nanoseconds in a millisecond.
pub const NANOS_PER_MS: i128 = 1_000_000;

/// Can a UTC date-time stand for `ms` milliseconds since the epoch?
pub open spec fn datetime_ms(ms: int) -> bool {
    MIN_DATETIME_MS <= ms && ms <= MAX_DATETIME_MS
}

/// Can a UTC date-time stand for `ns` nanoseconds since the epoch?
pub open spec fn datetime_ns(ns: int) -> bool {
    MIN_DATETIME_MS * NANOS_PER_MS <= ns && ns < (MAX_DATETIME_MS + 1) * NANOS_PER_MS
}

/// The whole milliseconds of the instant `ns` (nanoseconds), rounded down,
/// as a date-time's `timestamp_millis` gives them.
pub open spec fn millis_of(ns: int) -> int {
    ns / (NANOS_PER_MS as int)
}

/// `DateTime::<Utc>::from_timestamp_millis(ms).is_some()`: a date-time
/// exists for `ms` exactly when `ms` lies in the range of the date-time
/// crate, from `MIN_DATETIME_MS` to `MAX_DATETIME_MS`.
#[verifier::external_body]
pub(crate) fn is_representable_millis(ms: i64) -> (b: bool)
    ensures
        b == datetime_ms(ms as int),
{
    chrono::DateTime::from_timestamp_millis(ms).is_some()
}

/// The whole milliseconds of an instant given in nanoseconds (rounded down).
pub fn millis_of_nanos(ns: i128) -> (ms: i64)
    requires
        datetime_ns(ns as int),
    ensures
        ms as int == millis_of(ns as int),
        datetime_ms(ms as int),
{
    let low: i128 = (MIN_DATETIME_MS as i128) * NANOS_PER_MS;
    let shifted: i128 = ns - low;
    let q: i128 = shifted / NANOS_PER_MS;
    proof {
        let d = NANOS_PER_MS as int;
        assert(low == MIN_DATETIME_MS * d);
        assert((shifted as int) / d + MIN_DATETIME_MS == (ns as int) / d) by (nonlinear_arith)
            requires
                shifted as int == ns as int - MIN_DATETIME_MS * d,
                d > 0,
                shifted >= 0,
        {
            let s = shifted as int;
            let m = MIN_DATETIME_MS as int;
            assert(s == (s / d) * d + s % d);
            assert(0 <= s % d < d);
            assert(ns as int == (s / d + m) * d + s % d);
        }
        assert((ns as int) / d <= MAX_DATETIME_MS) by (nonlinear_arith)
            requires
                (ns as int) < (MAX_DATETIME_MS + 1) * d,
                d > 0,
        ;
    }
    (q + (MIN_DATETIME_MS as i128)) as i64
}

} // verus!
