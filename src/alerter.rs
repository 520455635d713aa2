//! The cooldown engine that turns a condition into rate-limited notifications,
//! the quiet-hours filter, and the choice of recipients at fan-out.

use vstd::prelude::*;
use crate::config::ALERT_COOLDOWN_SECS;
use crate::models::{AlertCategory, AlertState, NotificationSettings};
use crate::timezone::{is_valid_instant, kyiv_hour, kyiv_hour_of};

verus! {

/// Whether the kind was active at its previous evaluation (not when never evaluated).
pub open spec fn was_active(prev: Option<AlertState>) -> bool {
    match prev {
        Some(s) => s.active,
        None => false,
    }
}

/// When a notification of the kind was last sent, per the stored state.
pub open spec fn previous_sent(prev: Option<AlertState>) -> Option<i64> {
    match prev {
        Some(s) => s.last_sent_at,
        None => None,
    }
}

/// The decision table: a new breach always notifies; a standing breach
/// notifies again once the cooldown has passed since the last notification.
pub open spec fn should_emit(prev: Option<AlertState>, triggered: bool, now: int) -> bool {
    triggered && (!was_active(prev) || match previous_sent(prev) {
        Some(last) => now - last >= ALERT_COOLDOWN_SECS,
        None => true,
    })
}

/// The state written back after an evaluation at `now`.
pub open spec fn next_alert_state(prev: Option<AlertState>, triggered: bool, now: i64) -> AlertState {
    AlertState {
        active: triggered,
        last_sent_at: if should_emit(prev, triggered, now as int) {
            Some(now)
        } else {
            previous_sent(prev)
        },
    }
}

/// The outcome of one evaluation: whether to notify, and the state to store.
#[derive(Clone, Copy, Debug, PartialEq, Eq, Structural)]
pub struct AlertDecision {
    pub send: bool,
    pub state: AlertState,
}

/// Evaluates one alert kind whose stored state is `prev` (absent when never
/// evaluated) against the condition observed at `now`.
pub fn evaluate_alert(prev: Option<AlertState>, triggered: bool, now: i64) -> (r: AlertDecision)
    ensures
        r.send == should_emit(prev, triggered, now as int),
        r.state == next_alert_state(prev, triggered, now),
        !triggered ==> !r.send && !r.state.active && r.state.last_sent_at == previous_sent(prev),
        triggered && !was_active(prev) ==> r.send && r.state == (AlertState {
            active: true,
            last_sent_at: Some(now),
        }),
{
    let (was, last) = match prev {
        Some(s) => (s.active, s.last_sent_at),
        None => (false, None),
    };
    let send = if triggered && !was {
        true
    } else if triggered && was {
        match last {
            Some(l) => (now as i128) - (l as i128) >= ALERT_COOLDOWN_SECS as i128,
            None => true,
        }
    } else {
        false
    };
    let state = AlertState { active: triggered, last_sent_at: if send { Some(now) } else { last } };
    AlertDecision { send, state }
}

/// The stored state after evaluating `events` (condition, instant) in order
/// from `init`.
pub open spec fn replay(init: Option<AlertState>, events: Seq<(bool, i64)>) -> Option<AlertState>
    decreases events.len(),
{
    if events.len() == 0 {
        init
    } else {
        let e = events.last();
        Some(next_alert_state(replay(init, events.drop_last()), e.0, e.1))
    }
}

/// Whether the `i`-th evaluation of `events`, replayed from `init`, notifies.
pub open spec fn emits_at(init: Option<AlertState>, events: Seq<(bool, i64)>, i: int) -> bool {
    should_emit(replay(init, events.take(i)), events[i].0, events[i].1 as int)
}

proof fn lemma_replay_step(init: Option<AlertState>, events: Seq<(bool, i64)>, k: int)
    requires
        0 <= k < events.len(),
    ensures
        replay(init, events.take(k + 1)) == Some(
            next_alert_state(replay(init, events.take(k)), events[k].0, events[k].1),
        ),
{
    assert(events.take(k + 1).drop_last() =~= events.take(k));
    assert(events.take(k + 1).last() == events[k]);
}

proof fn lemma_standing_breach(init: Option<AlertState>, events: Seq<(bool, i64)>, i: int, k: int)
    requires
        0 <= i < k <= events.len(),
        emits_at(init, events, i),
        forall|m: int| i <= m < k ==> #[trigger] events[m].0,
    ensures
        replay(init, events.take(k)) is Some,
        replay(init, events.take(k)).unwrap().active,
        replay(init, events.take(k)).unwrap().last_sent_at is Some,
        replay(init, events.take(k)).unwrap().last_sent_at.unwrap() >= events[i].1,
    decreases k - i,
{
    lemma_replay_step(init, events, k - 1);
    if k - 1 > i {
        lemma_standing_breach(init, events, i, k - 1);
    }
}

/// Within a standing breach (the condition true at every evaluation from the
/// `i`-th to the `j`-th), two notifications are at least the cooldown apart.
/// A breach that clears and returns notifies at once, so the law needs the
/// condition to hold throughout.
pub proof fn lemma_cooldown_between_emissions(
    init: Option<AlertState>,
    events: Seq<(bool, i64)>,
    i: int,
    j: int,
)
    requires
        0 <= i < j < events.len(),
        emits_at(init, events, i),
        emits_at(init, events, j),
        forall|m: int| i <= m <= j ==> #[trigger] events[m].0,
    ensures
        events[j].1 - events[i].1 >= ALERT_COOLDOWN_SECS,
{
    lemma_standing_breach(init, events, i, j);
}

/// Whether `hour` lies in the half-open window [start, end), which wraps past
/// midnight when start > end.
pub open spec fn in_quiet_window(start: int, end: int, hour: int) -> bool {
    if start > end {
        hour >= start || hour < end
    } else {
        hour >= start && hour < end
    }
}

/// Whether notifications to a user with `settings` are withheld at `hour`.
pub open spec fn quiet_at_hour(settings: NotificationSettings, hour: int) -> bool {
    settings.quiet_hours_enabled && in_quiet_window(
        settings.quiet_hours_start as int,
        settings.quiet_hours_end as int,
        hour,
    )
}

/// Whether notifications to a user with `settings` are withheld at Kyiv hour `hour`.
pub fn is_quiet_hour(settings: &NotificationSettings, hour: u8) -> (r: bool)
    ensures
        r == quiet_at_hour(*settings, hour as int),
{
    if !settings.quiet_hours_enabled {
        return false;
    }
    let h = hour as i16;
    let start = settings.quiet_hours_start;
    let end = settings.quiet_hours_end;
    if start > end {
        h >= start || h < end
    } else {
        h >= start && h < end
    }
}

/// Whether notifications to a user with `settings` are withheld at instant `now`.
pub fn is_quiet_hours(settings: &NotificationSettings, now: i64) -> (r: bool)
    requires
        is_valid_instant(now as int),
    ensures
        r == quiet_at_hour(*settings, kyiv_hour_of(now as int)),
{
    let hour = kyiv_hour(now);
    is_quiet_hour(settings, hour)
}

/// A user who may receive a notification, with the preferences stored for
/// them (absent when they never set any).
#[derive(Clone, Copy, Debug, PartialEq, Eq, Structural)]
pub struct Subscriber {
    pub user_id: i64,
    pub settings: Option<NotificationSettings>,
}

/// Whether `c` gets a notification of `category` at `hour`: the preference
/// allows it (absent preferences allow everything) and it is not quiet time.
pub open spec fn receives(c: Subscriber, category: AlertCategory, hour: int) -> bool {
    let s = NotificationSettings::spec_or_default(c.settings, c.user_id);
    s.spec_wants(category) && !quiet_at_hour(s, hour)
}

/// The users among `candidates`, in order, who get a notification of
/// `category` at `hour`.
pub open spec fn recipients_of(candidates: Seq<Subscriber>, category: AlertCategory, hour: int) -> Seq<i64>
    decreases candidates.len(),
{
    if candidates.len() == 0 {
        seq![]
    } else {
        let rest = recipients_of(candidates.drop_last(), category, hour);
        if receives(candidates.last(), category, hour) {
            rest.push(candidates.last().user_id)
        } else {
            rest
        }
    }
}

/// The users among `candidates` who get a notification of `category` at Kyiv
/// hour `hour`, in the candidates' order.
pub fn recipients_at_hour(category: AlertCategory, candidates: &Vec<Subscriber>, hour: u8) -> (r: Vec<i64>)
    ensures
        r@ == recipients_of(candidates@, category, hour as int),
{
    let mut out: Vec<i64> = Vec::new();
    let mut i: usize = 0;
    while i < candidates.len()
        invariant
            i <= candidates@.len(),
            out@ == recipients_of(candidates@.take(i as int), category, hour as int),
        decreases candidates@.len() - i,
    {
        let c = candidates[i];
        let settings = NotificationSettings::or_default(c.settings, c.user_id);
        let quiet = is_quiet_hour(&settings, hour);
        if settings.wants(category) && !quiet {
            out.push(c.user_id);
        }
        proof {
            assert(candidates@.take(i as int + 1).drop_last() =~= candidates@.take(i as int));
            assert(candidates@.take(i as int + 1).last() == c);
        }
        i += 1;
    }
    proof {
        assert(candidates@.take(i as int) =~= candidates@);
    }
    out
}

/// The users among `candidates` who get a notification of `category` at
/// instant `now`, in the candidates' order.
pub fn recipients(category: AlertCategory, candidates: &Vec<Subscriber>, now: i64) -> (r: Vec<i64>)
    requires
        is_valid_instant(now as int),
    ensures
        r@ == recipients_of(candidates@, category, kyiv_hour_of(now as int)),
{
    let hour = kyiv_hour(now);
    recipients_at_hour(category, candidates, hour)
}

/// A user with no stored preferences receives every category and is never
/// held back by quiet hours.
pub proof fn lemma_default_open(
    candidates: Seq<Subscriber>,
    category: AlertCategory,
    hour: int,
    i: int,
)
    requires
        0 <= i < candidates.len(),
        candidates[i].settings is None,
    ensures
        receives(candidates[i], category, hour),
        recipients_of(candidates, category, hour).contains(candidates[i].user_id),
    decreases candidates.len(),
{
    if i < candidates.len() - 1 {
        let front = candidates.drop_last();
        assert(front[i] == candidates[i]);
        lemma_default_open(front, category, hour, i);
        let rest = recipients_of(front, category, hour);
        let k = choose|k: int| 0 <= k < rest.len() && rest[k] == candidates[i].user_id;
        if receives(candidates.last(), category, hour) {
            assert(rest.push(candidates.last().user_id)[k] == candidates[i].user_id);
        }
    } else {
        let rest = recipients_of(candidates.drop_last(), category, hour);
        assert(rest.push(candidates[i].user_id)[rest.len() as int] == candidates[i].user_id);
    }
}

} // verus!
