use vstd::prelude::*;

verus! {

/// Number of seconds in one day.
pub const SECONDS_PER_DAY: i64 = 86_400;

/// Relies on `time::OffsetDateTime::now_utc` and `unix_timestamp`: the
/// current time as a Unix timestamp in seconds. Nothing is known of the value.
#[verifier::external_body]
pub(crate) fn now_unix_seconds() -> (r: i64) {
    time::OffsetDateTime::now_utc().unix_timestamp()
}

/// Relies on `time::Duration::days` and `whole_seconds`: a span of `days`
/// days holds `days * 86_400` seconds (`days` panics when that product
/// overflows an `i64`, which `requires` rules out).
#[verifier::external_body]
pub(crate) fn seconds_in_days(days: i64) -> (r: i64)
    requires
        i64::MIN <= days * SECONDS_PER_DAY <= i64::MAX,
    ensures
        r == days * SECONDS_PER_DAY,
{
    time::Duration::days(days).whole_seconds()
}

} // verus!
