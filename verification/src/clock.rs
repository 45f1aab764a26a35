//! The journal's notion of time: whole seconds since the Unix epoch, read
//! from and shown through `chrono`.

use vstd::prelude::*;

verus! {

/// The first second `chrono` can hold in a `DateTime<Utc>`: midnight of
/// 1 January of the year -262143.
pub const MIN_TIMESTAMP: i64 = -8_334_601_228_800;

/// The last second `chrono` can hold in a `DateTime<Utc>`: the end of
/// 31 December of the year 262142.
pub const MAX_TIMESTAMP: i64 = 8_210_266_876_799;

/// Whether `seconds` since the Unix epoch name an instant that `chrono` can
/// hold, that is, whether `DateTime::from_timestamp(seconds, 0)` is `Some`.
pub open spec fn is_timestamp(seconds: int) -> bool {
    MIN_TIMESTAMP <= seconds <= MAX_TIMESTAMP
}

/// Whether `offset` seconds east of UTC is an offset that `chrono` takes
/// for a time zone: less than a day either way.
pub open spec fn is_offset(offset: int) -> bool {
    -86_400 < offset < 86_400
}

/// The instant `seconds` as a wall clock `offset` seconds east of UTC
/// shows it, written to the minute in the form `YYYY-MM-DD HH:MM`, as
/// `chrono` formats it.
pub uninterp spec fn minute_stamp(seconds: int, offset: int) -> Seq<char>;

/// Tests `is_timestamp`.
pub fn timestamp_in_range(seconds: i64) -> (in_range: bool)
    ensures
        in_range == is_timestamp(seconds as int),
{
    MIN_TIMESTAMP <= seconds && seconds <= MAX_TIMESTAMP
}

/// The current time, from `chrono::Utc::now().timestamp()`.
///
/// Trusted: `Utc::now` builds its value with `DateTime::from_timestamp`, so
/// the seconds it reports are a timestamp that `chrono` can hold. Nothing
/// else is claimed; two calls may differ. `chrono` panics when the system
/// clock stands before 1970.
#[verifier::external_body]
pub(crate) fn current_timestamp() -> (seconds: i64)
    ensures
        is_timestamp(seconds as int),
{
    chrono::Utc::now().timestamp()
}

/// The offset of the machine's local time zone from UTC at the instant
/// `seconds`, in seconds east, as `chrono` finds it (`DateTime::from_timestamp`,
/// then `with_timezone(&Local)`, `offset` and `local_minus_utc`).
///
/// Trusted: the offset depends on the time zone the machine is set to, so
/// only its range is claimed, which every `FixedOffset` keeps. The
/// precondition keeps `from_timestamp` from returning `None`. `chrono`
/// panics when the machine's time-zone data cannot be used.
#[verifier::external_body]
pub(crate) fn local_offset(seconds: i64) -> (offset: i32)
    requires
        is_timestamp(seconds as int),
    ensures
        is_offset(offset as int),
{
    chrono::DateTime::from_timestamp(seconds, 0)
        .unwrap()
        .with_timezone(&chrono::Local)
        .offset()
        .local_minus_utc()
}

/// The instant `seconds` at `offset` seconds east of UTC, written by
/// `chrono` with the format `%F %H:%M` (`DateTime::from_timestamp`, then
/// `with_timezone` to `FixedOffset::east_opt(offset)`, and `format`).
///
/// Trusted: the text is a function of the instant and the offset alone,
/// named `minute_stamp`. The preconditions keep `from_timestamp` and
/// `east_opt` from returning `None`.
#[verifier::external_body]
pub(crate) fn format_minute(seconds: i64, offset: i32) -> (stamp: String)
    requires
        is_timestamp(seconds as int),
        is_offset(offset as int),
    ensures
        stamp@ == minute_stamp(seconds as int, offset as int),
{
    chrono::DateTime::from_timestamp(seconds, 0)
        .unwrap()
        .with_timezone(&chrono::FixedOffset::east_opt(offset).unwrap())
        .format("%F %H:%M")
        .to_string()
}

/// The instant `seconds` as a wall clock `offset` seconds east of UTC
/// shows it, to the minute; `None` when `seconds` is no instant that
/// `chrono` holds or `offset` is a day or more.
pub fn stamp_at(seconds: i64, offset: i32) -> (stamp: Option<String>)
    ensures
        stamp is Some <==> is_timestamp(seconds as int) && is_offset(offset as int),
        stamp matches Some(text) ==> text@ == minute_stamp(seconds as int, offset as int),
{
    if timestamp_in_range(seconds) && -86_400 < offset && offset < 86_400 {
        Some(format_minute(seconds, offset))
    } else {
        None
    }
}

} // verus!
