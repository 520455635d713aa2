//! Power-outage detection from missing readings: a poll opens an outage, the
//! next reading closes it.

use vstd::prelude::*;
use crate::config::OUTAGE_THRESHOLD_SECS;
use crate::models::PowerOutage;
use crate::timezone::{duration_text, format_duration, format_kyiv, kyiv_stamp};

verus! {

/// The start of the outage that a poll at `now` opens, anchored at the last
/// reading: only with a reading on record, no outage open, and strictly more
/// than the threshold elapsed since that reading.
pub open spec fn outage_start(last_reading: Option<i64>, outage_open: bool, now: int) -> Option<i64> {
    match last_reading {
        Some(last) => if !outage_open && now - last > OUTAGE_THRESHOLD_SECS {
            Some(last)
        } else {
            None
        },
        None => None,
    }
}

/// The notification sent when an outage opens.
pub open spec fn outage_message_text(last_reading: int) -> Seq<char> {
    "⚡ Power outage detected!\nLast data: "@ + kyiv_stamp(last_reading)
}

/// The notification sent when an outage that began at `last_reading` opens.
pub fn outage_message(last_reading: i64) -> (r: String)
    ensures
        r@ == outage_message_text(last_reading as int),
{
    let mut s = String::from_str("⚡ Power outage detected!\nLast data: ");
    let stamp = format_kyiv(last_reading);
    s.append(stamp.as_str());
    s
}

/// The poll: given the time of the latest reading (absent when there has been
/// none), whether an outage is open, and the time now, returns the start of
/// an outage to open, if one opens, with the alert to send for it.
pub fn check_power_status(last_reading: Option<i64>, outage_open: bool, now: i64) -> (r: Option<(i64, String)>)
    ensures
        match r {
            Some((start, message)) => outage_start(last_reading, outage_open, now as int) == Some(start)
                && message@ == outage_message_text(start as int),
            None => outage_start(last_reading, outage_open, now as int) is None,
        },
{
    match last_reading {
        Some(last) => {
            let elapsed: i128 = now as i128 - last as i128;
            if !outage_open && elapsed > OUTAGE_THRESHOLD_SECS as i128 {
                Some((last, outage_message(last)))
            } else {
                None
            }
        },
        None => None,
    }
}

/// Whole minutes in `secs` seconds, rounded down.
pub open spec fn floor_minutes(secs: int) -> int {
    secs / 60
}

/// `outage` closed at `now`.
pub open spec fn closed_outage(outage: PowerOutage, now: i64) -> PowerOutage {
    PowerOutage {
        ended_at: Some(now),
        duration_minutes: Some(floor_minutes(now - outage.started_at) as i64),
        ..outage
    }
}

/// What a fresh reading at `now` does to the outage on record: an open one is
/// closed; otherwise nothing changes.
pub open spec fn restored_outage(active: Option<PowerOutage>, now: i64) -> Option<PowerOutage> {
    match active {
        Some(o) => if o.ended_at is None {
            Some(closed_outage(o, now))
        } else {
            None
        },
        None => None,
    }
}

/// Called when a reading arrives at `now`: returns the open outage `active`,
/// closed at `now`, with the alert to send for it (its duration in whole
/// minutes, rounded down), or nothing where no outage is open.
pub fn check_power_restored(active: Option<PowerOutage>, now: i64) -> (r: Option<(PowerOutage, String)>)
    ensures
        match r {
            Some((closed, message)) => restored_outage(active, now) == Some(closed)
                && message@ == restored_message_text(
                now as int,
                floor_minutes(now - closed.started_at),
            ),
            None => restored_outage(active, now) is None,
        },
{
    match active {
        Some(o) => {
            if o.ended_at.is_none() {
                let secs: i128 = now as i128 - o.started_at as i128;
                let minutes: i128 = if secs >= 0 {
                    secs / 60
                } else {
                    0 - (59 - secs) / 60
                };
                proof {
                    if secs < 0 {
                        let q = (59 - secs) / 60;
                        assert(q * 60 <= 59 - secs < q * 60 + 60) by (nonlinear_arith)
                            requires q == (59 - secs) / 60, 59 - secs >= 0;
                        assert(secs / 60 == -q) by (nonlinear_arith)
                            requires q * 60 <= 59 - secs < q * 60 + 60, secs < 0;
                    }
                }
                let closed = PowerOutage {
                    ended_at: Some(now),
                    duration_minutes: Some(minutes as i64),
                    ..o
                };
                Some((closed, restored_message(now, minutes as i64)))
            } else {
                None
            }
        },
        None => None,
    }
}

/// The notification sent when power returns at `now` after `minutes` down.
pub open spec fn restored_message_text(now: int, minutes: int) -> Seq<char> {
    "✅ Power restored at "@ + kyiv_stamp(now) + "\nOutage duration: "@ + duration_text(minutes)
}

/// The notification sent when power returns at `now` after `minutes` down.
pub fn restored_message(now: i64, minutes: i64) -> (r: String)
    ensures
        r@ == restored_message_text(now as int, minutes as int),
{
    let mut s = String::from_str("✅ Power restored at ");
    let stamp = format_kyiv(now);
    s.append(stamp.as_str());
    s.append("\nOutage duration: ");
    let d = format_duration(minutes);
    s.append(d.as_str());
    s
}

/// An outage opens exactly when strictly more than the threshold has passed
/// since the last reading: at the threshold itself it does not.
pub proof fn lemma_outage_threshold_strict(last: i64, now: int)
    ensures
        outage_start(Some(last), false, now) is Some <==> now - last > OUTAGE_THRESHOLD_SECS,
        now - last == OUTAGE_THRESHOLD_SECS ==> outage_start(Some(last), false, now) is None,
{
}

/// The poll never closes an outage: while one is open it does nothing, at any
/// time. Only a reading closes it, and the outage opened by a poll then lasts
/// the whole minutes, rounded down, from the last reading before it to the
/// reading that ends it.
pub proof fn lemma_outage_closed_by_reading(
    last: i64,
    opened_at: int,
    polled_at: int,
    id: i32,
    closed_at: i64,
)
    requires
        outage_start(Some(last), false, opened_at) is Some,
    ensures
        outage_start(Some(last), false, opened_at) == Some(last),
        outage_start(Some(last), true, polled_at) is None,
        restored_outage(
            Some(
                PowerOutage {
                    id,
                    started_at: outage_start(Some(last), false, opened_at).unwrap(),
                    ended_at: None,
                    duration_minutes: None,
                },
            ),
            closed_at,
        ) == Some(
            PowerOutage {
                id,
                started_at: last,
                ended_at: Some(closed_at),
                duration_minutes: Some(((closed_at - last) / 60) as i64),
            },
        ),
{
}

/// How many outages in `outages` are open.
pub open spec fn open_outages(outages: Seq<PowerOutage>) -> nat
    decreases outages.len(),
{
    if outages.len() == 0 {
        0
    } else {
        open_outages(outages.drop_last()) + if outages.last().ended_at is None {
            1nat
        } else {
            0nat
        }
    }
}

/// The outage records after a poll at `now`: a new open record `id`, anchored
/// at the last reading, where the poll opens an outage.
pub open spec fn records_after_poll(
    outages: Seq<PowerOutage>,
    last_reading: Option<i64>,
    now: int,
    id: i32,
) -> Seq<PowerOutage> {
    match outage_start(last_reading, open_outages(outages) > 0, now) {
        Some(start) => outages.push(
            PowerOutage { id, started_at: start, ended_at: None, duration_minutes: None },
        ),
        None => outages,
    }
}

proof fn lemma_close_one(outages: Seq<PowerOutage>, i: int, now: i64)
    requires
        0 <= i < outages.len(),
        outages[i].ended_at is None,
    ensures
        open_outages(outages.update(i, closed_outage(outages[i], now))) + 1 == open_outages(
            outages,
        ),
    decreases outages.len(),
{
    let after = outages.update(i, closed_outage(outages[i], now));
    if i < outages.len() - 1 {
        assert(after.drop_last() =~= outages.drop_last().update(i, closed_outage(outages[i], now)));
        lemma_close_one(outages.drop_last(), i, now);
    } else {
        assert(after.drop_last() =~= outages.drop_last());
    }
}

proof fn lemma_open_at(outages: Seq<PowerOutage>, i: int)
    requires
        0 <= i < outages.len(),
        outages[i].ended_at is None,
    ensures
        open_outages(outages) >= 1,
    decreases outages.len(),
{
    if i < outages.len() - 1 {
        lemma_open_at(outages.drop_last(), i);
    }
}

/// At most one outage is open at any time: a poll opens one only when none
/// is open, and a reading closes the open one (the record at `i`).
pub proof fn lemma_single_open_outage(
    outages: Seq<PowerOutage>,
    last_reading: Option<i64>,
    now: int,
    id: i32,
    i: int,
    reading_at: i64,
)
    requires
        open_outages(outages) <= 1,
        0 <= i < outages.len(),
        outages[i].ended_at is None,
    ensures
        open_outages(records_after_poll(outages, last_reading, now, id)) <= 1,
        restored_outage(Some(outages[i]), reading_at) is Some,
        open_outages(outages.update(i, restored_outage(Some(outages[i]), reading_at).unwrap()))
            == 0,
{
    let after = records_after_poll(outages, last_reading, now, id);
    lemma_open_at(outages, i);
    assert(after == outages);
    lemma_close_one(outages, i, reading_at);
}

/// With no outage open, a poll opens at most one.
pub proof fn lemma_poll_opens_one(outages: Seq<PowerOutage>, last_reading: Option<i64>, now: int, id: i32)
    requires
        open_outages(outages) == 0,
    ensures
        open_outages(records_after_poll(outages, last_reading, now, id)) <= 1,
{
    let after = records_after_poll(outages, last_reading, now, id);
    if after.len() > outages.len() {
        assert(after.drop_last() =~= outages);
    }
}

} // verus!
