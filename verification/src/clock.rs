//! The wall clock, read through `std::time::SystemTime`, and calendar
//! dates, rendered by `chrono`.

use vstd::prelude::*;

verus! {

/// A reading of the system clock.
#[verifier::external_type_specification]
#[verifier::external_body]
pub struct ExSystemTime(std::time::SystemTime);

/// The system clock's current time, from `std::time::SystemTime::now`.
/// Nothing is claimed of it: it depends on when the call is made.
#[verifier::external_body]
fn system_now() -> (t: std::time::SystemTime) {
    std::time::SystemTime::now()
}

/// How far `t` lies from the Unix epoch in whole seconds, from
/// `SystemTime::duration_since(UNIX_EPOCH)`: `Ok` with the seconds after the
/// epoch, or `Err` with the seconds before it where the clock reads earlier.
/// Nothing is claimed of the numbers: they depend on the clock.
#[verifier::external_body]
fn seconds_from_epoch(t: &std::time::SystemTime) -> (res: Result<u64, u64>) {
    match t.duration_since(std::time::UNIX_EPOCH) {
        Ok(d) => Ok(d.as_secs()),
        Err(e) => Err(e.duration().as_secs()),
    }
}

/// The Unix timestamp of a clock reading `Ok(s)` seconds after the epoch or
/// `Err(s)` seconds before it, held to the range of `i64`.
pub open spec fn timestamp_of(r: Result<u64, u64>) -> int {
    match r {
        Ok(s) => if s <= i64::MAX { s as int } else { i64::MAX as int },
        Err(s) => if s <= i64::MAX { -(s as int) } else { i64::MIN as int },
    }
}

/// The Unix timestamp of a clock reading taken as seconds from the epoch.
pub fn timestamp_from_seconds(r: Result<u64, u64>) -> (t: i64)
    ensures
        t as int == timestamp_of(r),
{
    match r {
        Ok(s) => if s <= 9223372036854775807u64 { s as i64 } else { i64::MAX },
        Err(s) => if s <= 9223372036854775807u64 { -(s as i64) } else { i64::MIN },
    }
}

/// The current time as Unix seconds, negative where the system clock reads
/// earlier than 1970. Nothing more is claimed of the value: it depends on
/// when the call is made.
pub(crate) fn now_timestamp() -> (t: i64) {
    let now = system_now();
    let r = seconds_from_epoch(&now);
    timestamp_from_seconds(r)
}

/// What `chrono` renders as the UTC calendar date (`%Y-%m-%d`) of a Unix
/// timestamp: `None` where `DateTime::from_timestamp` refuses the timestamp
/// as out of range. It depends on the timestamp alone.
pub uninterp spec fn utc_date_of(timestamp: i64) -> Option<Seq<char>>;

/// The UTC calendar date of a Unix timestamp as `YYYY-MM-DD`, from
/// `chrono::DateTime::from_timestamp(timestamp, 0)` formatted with
/// `%Y-%m-%d`; `None` where chrono refuses the timestamp.
#[verifier::external_body]
pub(crate) fn utc_date(timestamp: i64) -> (res: Option<String>)
    ensures
        match res {
            Some(s) => utc_date_of(timestamp) == Some(s@),
            None => utc_date_of(timestamp) is None,
        },
{
    chrono::DateTime::from_timestamp(timestamp, 0).map(|d| d.format("%Y-%m-%d").to_string())
}

} // verus!
