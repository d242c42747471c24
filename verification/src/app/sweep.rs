//! How old messages are, and which of them the modem need not keep.
use vstd::prelude::*;

use crate::clock::{
    elapsed, now, parse_rfc3339, rfc3339_time, time_between, Elapsed, UtcTime,
};
use crate::db::Db;
use crate::modem::{IncomingSms, IncomingSmsView};
use crate::rows::{lemma_filter_take, views};
use crate::tables::{sms_seen, Tables};
use crate::text::cat;

verus! {

/// Messages older than this are not delivered any more, and for so long an
/// undelivered one is tried again.
pub const DAY_SECS: u64 = 86400;

/// A message whose parts have not all arrived after this time never gets them.
pub const STUCK_RECEIVING_MAX_SECS: u64 = 21600;

/// The point in time that the modem gave a message. ModemManager sometimes
/// leaves the minutes of the offset out.
pub open spec fn sms_time(ts: Seq<char>) -> Option<UtcTime> {
    if ts.len() == 0 {
        None
    } else {
        match rfc3339_time(ts) {
            Some(t) => Some(t),
            None => rfc3339_time(ts + ":00"@),
        }
    }
}

pub fn parse_sms_timestamp(ts: &str) -> (r: Option<UtcTime>)
    ensures
        r == sms_time(ts@),
{
    if ts.is_empty() {
        return None;
    }
    match parse_rfc3339(ts) {
        Some(t) => Some(t),
        None => parse_rfc3339(cat(ts, ":00").as_str()),
    }
}

/// How long ago a message was sent, if the modem gave it a time.
pub open spec fn sms_elapsed(ts: Seq<char>, now: UtcTime) -> Option<Elapsed> {
    match sms_time(ts) {
        Some(t) => time_between(t, now),
        None => None,
    }
}

fn elapsed_since(ts: &str, now: UtcTime) -> (r: Option<Elapsed>)
    ensures
        r == sms_elapsed(ts@, now),
{
    match parse_sms_timestamp(ts) {
        Some(t) => elapsed(t, now),
        None => None,
    }
}

/// More than a day long.
pub open spec fn over_a_day(e: Elapsed) -> bool {
    e.secs > DAY_SECS || (e.secs == DAY_SECS && e.nanos > 0)
}

/// The message is more than a day old; one without a time is not.
pub open spec fn too_old(ts: Seq<char>, now: UtcTime) -> bool {
    sms_elapsed(ts, now) matches Some(e) && over_a_day(e)
}

/// Whether a message is too old to be delivered at the given time.
pub fn sms_too_old_at(ts: &str, now: UtcTime) -> (r: bool)
    ensures
        r == too_old(ts@, now),
{
    match elapsed_since(ts, now) {
        Some(e) => is_over_a_day(e),
        None => false,
    }
}

/// Whether a time is longer than a day.
pub fn is_over_a_day(e: Elapsed) -> (r: bool)
    ensures
        r == over_a_day(e),
{
    e.secs > DAY_SECS as i64 || (e.secs == DAY_SECS as i64 && e.nanos > 0)
}

/// Whether a message is too old to be delivered now; one without a readable
/// time never is.
pub fn sms_too_old(ts: &str) -> (r: bool)
    ensures
        exists|now: UtcTime| r == #[trigger] too_old(ts@, now),
        sms_time(ts@) is None ==> !r,
{
    sms_too_old_at(ts, now())
}

#[derive(Debug, Clone, Copy, PartialEq, Eq, Structural)]
pub enum SweepAction {
    Keep,
    Delete,
}

/// The age of a message in whole seconds; one from the future is new.
pub open spec fn age_of(e: Option<Elapsed>) -> Option<nat> {
    match e {
        Some(e) => Some(
            if e.secs < 0 {
                0
            } else {
                e.secs as nat
            },
        ),
        None => None,
    }
}

/// What becomes of a message of the given age. One that is received but never
/// became complete goes after six hours. One that is received and not yet seen
/// stays while it may still be delivered, and until it is older than the limit;
/// without a time it stays. Any other goes once it is older than the limit, or
/// at once if it has no time.
pub open spec fn swept(
    sms: IncomingSmsView,
    seen: bool,
    age: Option<nat>,
    max_age: nat,
    retry_window: nat,
) -> SweepAction {
    let delete = match age {
        Some(age) => {
            ||| sms.inbound && sms.text.len() == 0 && age > STUCK_RECEIVING_MAX_SECS
            ||| sms.inbound && !seen && age >= retry_window && age > max_age
            ||| !(sms.inbound && !seen) && age > max_age
        },
        None => !(sms.inbound && !seen),
    };
    if delete {
        SweepAction::Delete
    } else {
        SweepAction::Keep
    }
}

/// Decides by the age of a message.
pub fn sweep_by_age(
    sms: &IncomingSms,
    seen: bool,
    age: Option<u64>,
    max_age: u64,
    inbound_retry_window: u64,
) -> (r: SweepAction)
    ensures
        r == swept(
            sms@,
            seen,
            match age {
                Some(a) => Some(a as nat),
                None => None,
            },
            max_age as nat,
            inbound_retry_window as nat,
        ),
{
    if let Some(age) = age {
        if sms.inbound && sms.text.as_str().is_empty() && age > STUCK_RECEIVING_MAX_SECS {
            return SweepAction::Delete;
        }
    }
    if sms.inbound && !seen {
        return match age {
            None => SweepAction::Keep,
            Some(age) => if age < inbound_retry_window || age <= max_age {
                SweepAction::Keep
            } else {
                SweepAction::Delete
            },
        };
    }
    match age {
        None => SweepAction::Delete,
        Some(age) => if age > max_age {
            SweepAction::Delete
        } else {
            SweepAction::Keep
        },
    }
}

fn sms_age_secs(ts: &str, now: UtcTime) -> (r: Option<u64>)
    ensures
        age_of(sms_elapsed(ts@, now)) == match r {
            Some(a) => Some(a as nat),
            None => None::<nat>,
        },
{
    match elapsed_since(ts, now) {
        Some(e) => Some(
            if e.secs < 0 {
                0
            } else {
                e.secs as u64
            },
        ),
        None => None,
    }
}

/// What becomes of a message. Ages and limits are in seconds.
pub fn sweep_action(
    sms: &IncomingSms,
    seen: bool,
    now: UtcTime,
    max_age: u64,
    inbound_retry_window: u64,
) -> (r: SweepAction)
    ensures
        r == swept(
            sms@,
            seen,
            age_of(sms_elapsed(sms@.timestamp, now)),
            max_age as nat,
            inbound_retry_window as nat,
        ),
{
    let age = sms_age_secs(sms.timestamp.as_str(), now);
    sweep_by_age(sms, seen, age, max_age, inbound_retry_window)
}

pub open spec fn to_sweep(t: Tables, now: UtcTime, max_age: nat) -> spec_fn(
    IncomingSmsView,
) -> bool {
    |s: IncomingSmsView|
        swept(
            s,
            sms_seen(t, s.path, s.e164, s.text, s.timestamp),
            age_of(sms_elapsed(s.timestamp, now)),
            max_age,
            DAY_SECS as nat,
        ) == SweepAction::Delete
}

pub open spec fn path_of() -> spec_fn(IncomingSmsView) -> Seq<char> {
    |s: IncomingSmsView| s.path
}

/// The paths of the messages that go, in the order of the list.
pub fn sweep_old_sms(db: &Db, list: &Vec<IncomingSms>, now: UtcTime, max_age: u64) -> (r: Vec<
    String,
>)
    ensures
        views(r@) == views(list@).filter(to_sweep(db@, now, max_age as nat)).map_values(path_of()),
{
    let ghost all = views(list@);
    let ghost p = to_sweep(db@, now, max_age as nat);
    let mut out: Vec<String> = Vec::new();
    let mut i: usize = 0;
    proof {
        reveal(Seq::filter);
        assert(all.take(0).filter(p).map_values(path_of()) =~= views(out@));
    }
    while i < list.len()
        invariant
            i <= list@.len(),
            all == views(list@),
            p == to_sweep(db@, now, max_age as nat),
            views(out@) == all.take(i as int).filter(p).map_values(path_of()),
        decreases list@.len() - i,
    {
        proof {
            lemma_filter_take(all, p, i as int);
        }
        let ghost so_far = out@;
        let sms = &list[i];
        assert(all[i as int] == sms@);
        let action = match db.seen_sms(
            sms.path.as_str(),
            sms.e164.as_str(),
            sms.text.as_str(),
            sms.timestamp.as_str(),
        ) {
            Ok(seen) => sweep_action(sms, seen, now, max_age, DAY_SECS),
            Err(_) => SweepAction::Keep,
        };
        if action == SweepAction::Delete {
            out.push(sms.path.clone());
            assert(views(out@) =~= views(so_far).push(path_of()(all[i as int])));
            assert(all.take(i as int).filter(p).push(all[i as int]).map_values(path_of())
                =~= views(out@));
        }
        i = i + 1;
    }
    assert(all.take(i as int) =~= all);
    out
}

/// A received message that was not seen yet and is whole is never swept while
/// it may still be delivered, however small the limit is.
pub proof fn law_undelivered_is_kept(sms: IncomingSmsView, age: Option<nat>, max_age: nat, window: nat)
    requires
        sms.inbound,
        sms.text.len() > 0,
        age matches Some(a) ==> a < window,
    ensures
        swept(sms, false, age, max_age, window) == SweepAction::Keep,
{
}

/// What is swept stays swept as time goes on.
pub proof fn law_sweep_is_monotone(
    sms: IncomingSmsView,
    seen: bool,
    a: nat,
    b: nat,
    max_age: nat,
    window: nat,
)
    requires
        a <= b,
        swept(sms, seen, Some(a), max_age, window) == SweepAction::Delete,
    ensures
        swept(sms, seen, Some(b), max_age, window) == SweepAction::Delete,
{
}

} // verus!
