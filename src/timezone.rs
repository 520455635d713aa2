//! Wall-clock views of an instant in the installation's zone (Europe/Kyiv),
//! and the rendering of durations. Instants are Unix timestamps in seconds.

use time_tz::OffsetDateTimeExt;
use vstd::prelude::*;
use crate::text::{int_text, push_int};

verus! {

/// The earliest instant handled here: one day after 1 January of year -9999, UTC.
pub const MIN_INSTANT: i64 = -377705116800;

/// The latest instant handled here: one day before the end of year 9999, UTC.
pub const MAX_INSTANT: i64 = 253402214399;

/// An instant whose Kyiv wall-clock date lies in years -9999..=9999.
pub open spec fn is_valid_instant(t: int) -> bool {
    MIN_INSTANT <= t <= MAX_INSTANT
}

/// The hour (0..=23) of the Kyiv wall clock at instant `t`.
pub uninterp spec fn kyiv_hour_of(t: int) -> int;

/// The Kyiv wall-clock time at instant `t` rendered with the `time` format
/// description `pattern`, or nothing where the description is not accepted.
pub uninterp spec fn kyiv_text_of(t: int, pattern: Seq<char>) -> Option<Seq<char>>;

/// Relies on time's `OffsetDateTime::from_unix_timestamp` (accepts every instant
/// of years -9999..=9999), time_tz's `to_timezone` with the Kyiv zone (an offset
/// of a few hours, so the local date stays in range) and `hour` (0..=23).
#[verifier::external_body]
pub(crate) fn kyiv_hour(t: i64) -> (r: u8)
    requires
        is_valid_instant(t as int),
    ensures
        r as int == kyiv_hour_of(t as int),
        r < 24,
{
    let utc = time::OffsetDateTime::from_unix_timestamp(t).unwrap();
    utc.to_timezone(time_tz::timezones::db::europe::KYIV).hour()
}

/// Relies on time's `format_description::parse_borrowed::<1>` (the syntax of
/// `format_description::parse`), `from_unix_timestamp`, time_tz's `to_timezone`
/// with the Kyiv zone, and `OffsetDateTime::format`.
#[verifier::external_body]
fn kyiv_text(t: i64, pattern: &str) -> (r: Option<String>)
    requires
        is_valid_instant(t as int),
    ensures
        match r {
            Some(s) => kyiv_text_of(t as int, pattern@) == Some(s@),
            None => kyiv_text_of(t as int, pattern@) is None,
        },
{
    let items = time::format_description::parse_borrowed::<1>(pattern).ok()?;
    let utc = time::OffsetDateTime::from_unix_timestamp(t).ok()?;
    utc.to_timezone(time_tz::timezones::db::europe::KYIV).format(&items).ok()
}

/// "day.month hour:minute" of the Kyiv wall clock, or "??" where the instant
/// is out of range or cannot be rendered.
pub open spec fn kyiv_stamp(t: int) -> Seq<char> {
    if is_valid_instant(t) && kyiv_text_of(t, "[day].[month] [hour]:[minute]"@) is Some {
        kyiv_text_of(t, "[day].[month] [hour]:[minute]"@).unwrap()
    } else {
        "??"@
    }
}

/// Renders instant `t` as "day.month hour:minute" in Kyiv time.
pub fn format_kyiv(t: i64) -> (r: String)
    ensures
        r@ == kyiv_stamp(t as int),
{
    if MIN_INSTANT <= t && t <= MAX_INSTANT {
        match kyiv_text(t, "[day].[month] [hour]:[minute]") {
            Some(s) => s,
            None => String::from_str("??"),
        }
    } else {
        String::from_str("??")
    }
}

/// "N min" under an hour, else "H h" or "H h M min".
pub open spec fn duration_text(minutes: int) -> Seq<char> {
    if minutes < 60 {
        int_text(minutes) + " min"@
    } else if minutes % 60 == 0 {
        int_text(minutes / 60) + " h"@
    } else {
        int_text(minutes / 60) + " h "@ + int_text(minutes % 60) + " min"@
    }
}

/// Renders a duration given in whole minutes.
pub fn format_duration_minutes(minutes: i32) -> (r: String)
    ensures
        r@ == duration_text(minutes as int),
{
    format_duration(minutes as i64)
}

/// Renders a duration given in whole minutes, over the full `i64` range.
pub fn format_duration(minutes: i64) -> (r: String)
    ensures
        r@ == duration_text(minutes as int),
{
    let mut s = String::new();
    if minutes < 60 {
        push_int(&mut s, minutes);
        s.append(" min");
    } else {
        let hours = minutes / 60;
        let mins = minutes % 60;
        push_int(&mut s, hours);
        if mins == 0 {
            s.append(" h");
        } else {
            s.append(" h ");
            push_int(&mut s, mins);
            s.append(" min");
        }
    }
    s
}

} // verus!
