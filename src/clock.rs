use time::{format_description, OffsetDateTime, UtcOffset};
use vstd::prelude::*;

use crate::digits::two_digits;

verus! {

/// The earliest instant, in seconds since the Unix epoch, that a date of
/// years -9999 to 9999 can hold (-9999-01-01 00:00:00).
pub const MIN_TIMESTAMP: i64 = -377705116800;

/// The latest such instant (9999-12-31 23:59:59).
pub const MAX_TIMESTAMP: i64 = 253402300799;

/// The largest offset from UTC, in seconds, that can be represented (25:59:59).
pub const MAX_OFFSET: i32 = 93599;

/// The calendar date `YYYY-MM-DD` of the day that lies `day` days after
/// 1970-01-01 (before it, for a negative `day`).
pub uninterp spec fn date_text_of(day: int) -> Seq<char>;

/// Whether an instant, seen at an offset from UTC, falls within the dates that
/// can be shown.
pub open spec fn stamp_in_range(secs: int, offset: int) -> bool {
    &&& MIN_TIMESTAMP <= secs <= MAX_TIMESTAMP
    &&& -MAX_OFFSET <= offset <= MAX_OFFSET
    &&& MIN_TIMESTAMP <= secs + offset <= MAX_TIMESTAMP
}

/// `YYYY-MM-DD HH:MM` for the local time `local`, in seconds since the epoch
/// with the offset from UTC already added.
pub open spec fn stamp_text(local: int) -> Seq<char> {
    date_text_of(local / 86400) + time_of_day_text(local)
}

/// ` HH:MM` for the local time `local`.
pub open spec fn time_of_day_text(local: int) -> Seq<char> {
    seq![' '] + two_digits((local % 86400) / 3600) + seq![':'] + two_digits((local % 3600) / 60)
}

/// Relies on time's `UtcOffset::current_local_offset`: the machine's present
/// offset from UTC, when it can be determined, which is always within
/// 25:59:59 either way.
#[verifier::external_body]
pub(crate) fn local_offset_seconds() -> (r: Option<i32>)
    ensures
        r matches Some(o) ==> -MAX_OFFSET <= o <= MAX_OFFSET,
{
    UtcOffset::current_local_offset().ok().map(|o| o.whole_seconds())
}

/// Relies on time's `OffsetDateTime::from_unix_timestamp`,
/// `UtcOffset::from_whole_seconds`, `OffsetDateTime::checked_to_offset` and
/// formatting with `[year]-[month]-[day] [hour]:[minute]`: each fails only
/// outside the ranges of `stamp_in_range`, and the text shows the date and the
/// zero-padded hour and minute of the instant at that offset.
#[verifier::external_body]
pub(crate) fn local_stamp(secs: i64, offset: i32) -> (r: Option<String>)
    ensures
        r.is_some() <==> stamp_in_range(secs as int, offset as int),
        r matches Some(s) ==> s@ == date_text_of((secs + offset) / 86400) + time_of_day_text(
            secs + offset,
        ),
{
    let at = OffsetDateTime::from_unix_timestamp(secs).ok()?;
    let offset = UtcOffset::from_whole_seconds(offset).ok()?;
    let format = format_description::parse("[year]-[month]-[day] [hour]:[minute]").ok()?;
    at.checked_to_offset(offset)?.format(&format).ok()
}

} // verus!
