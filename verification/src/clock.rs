//! Points in time, and what the `chrono` and `chrono_tz` crates say of them.
use vstd::prelude::*;

use crate::rows::opt_view;

verus! {

/// A point in time: seconds since 1970 and nanoseconds within the second. The
/// nanoseconds go past a whole second only within a leap second.
#[derive(Debug, Clone, Copy, PartialEq, Eq, Structural)]
pub struct UtcTime {
    pub secs: i64,
    pub nanos: u32,
}

/// The time from one point to another: whole seconds, rounded toward zero, and
/// the nanoseconds left over, of the same sign.
#[derive(Debug, Clone, Copy, PartialEq, Eq, Structural)]
pub struct Elapsed {
    pub secs: i64,
    pub nanos: i32,
}

/// The day of a point in time on the calendar of a time zone.
#[derive(Debug, Clone, Copy, PartialEq, Eq, Structural)]
pub struct LocalTime {
    pub year: i32,
    /// The day of the month.
    pub day: u32,
    /// The number of the day, counted from the first day of the year 1.
    pub day_number: i32,
}

/// The points in time at which the clocks of a zone show a given time.
#[derive(Debug, Clone, Copy, PartialEq, Eq, Structural)]
pub enum Instants {
    /// There is none: the clocks were put forward past it.
    Gap,
    One(UtcTime),
    /// The clocks were put back and showed it twice.
    Two(UtcTime, UtcTime),
}

/// A pattern of `chrono::format::strftime` that times are shown by: hours and
/// minutes, the short name of the month, or the date with hours and minutes.
pub open spec fn known_pattern(pattern: Seq<char>) -> bool {
    pattern == "%H:%M"@ || pattern == "%b"@ || pattern == "%Y-%m-%d %H:%M"@
}

/// The point in time `a` lies strictly before `b`.
pub open spec fn earlier(a: UtcTime, b: UtcTime) -> bool {
    a.secs < b.secs || (a.secs == b.secs && a.nanos < b.nanos)
}

pub fn is_earlier(a: UtcTime, b: UtcTime) -> (r: bool)
    ensures
        r == earlier(a, b),
{
    a.secs < b.secs || (a.secs == b.secs && a.nanos < b.nanos)
}

/// What `chrono::DateTime::parse_from_rfc3339` reads from a text.
pub uninterp spec fn rfc3339_time(text: Seq<char>) -> Option<UtcTime>;

/// What `chrono::DateTime::to_rfc3339` writes for a point in time in UTC, if
/// `chrono::DateTime::from_timestamp` accepts it.
pub uninterp spec fn rfc3339_text(time: UtcTime) -> Option<Seq<char>>;

/// What `chrono::DateTime::signed_duration_since` says of the time from
/// `from` to `to`, if `chrono` can hold the two.
pub uninterp spec fn time_between(from: UtcTime, to: UtcTime) -> Option<Elapsed>;

/// The day that `chrono::TimeZone::offset_from_utc_datetime` of a `chrono_tz`
/// zone puts a point in time on, if the zone is known and `chrono` can hold the
/// point in time and its local form.
pub uninterp spec fn zoned_time(time: UtcTime, zone: Seq<char>) -> Option<LocalTime>;

/// What `chrono::NaiveDateTime::format` writes by a pattern for the local form
/// of a point in time in a zone, if the zone is known and `chrono` can hold the
/// point in time and its local form.
pub uninterp spec fn zoned_text(time: UtcTime, zone: Seq<char>, pattern: Seq<char>) -> Option<
    Seq<char>,
>;

/// When the clocks of a zone show a time of a day, as
/// `chrono::NaiveDateTime::and_local_timezone` finds it, if the zone is known
/// and `chrono` has such a day with such a time.
pub uninterp spec fn zoned_instants(
    day_number: i32,
    hour: u32,
    minute: u32,
    second: u32,
    zone: Seq<char>,
) -> Option<Instants>;

/// What the error of parsing a `chrono_tz::Tz` says, if the zone is unknown.
pub uninterp spec fn zone_complaint(zone: Seq<char>) -> Option<Seq<char>>;

/// Calls `chrono::Utc::now`. Nothing is said of the result: it is the time.
#[verifier::external_body]
pub(crate) fn now() -> (r: UtcTime) {
    let now = chrono::Utc::now();
    UtcTime { secs: now.timestamp(), nanos: now.timestamp_subsec_nanos() }
}

/// Calls `chrono::DateTime::parse_from_rfc3339`. The result is named, and the
/// nanoseconds stay below two seconds, as in every `chrono` time.
#[verifier::external_body]
pub(crate) fn parse_rfc3339(text: &str) -> (r: Option<UtcTime>)
    ensures
        r == rfc3339_time(text@),
        r matches Some(t) ==> t.nanos < 2_000_000_000,
{
    let time = chrono::DateTime::parse_from_rfc3339(text).ok()?;
    Some(UtcTime { secs: time.timestamp(), nanos: time.timestamp_subsec_nanos() })
}

/// Calls `chrono::DateTime::to_rfc3339` on the time in UTC. The result is
/// named.
#[verifier::external_body]
pub(crate) fn to_rfc3339(time: UtcTime) -> (r: Option<String>)
    ensures
        opt_view(r) == rfc3339_text(time),
{
    let time = chrono::DateTime::from_timestamp(time.secs, time.nanos)?;
    Some(time.to_rfc3339())
}

/// Calls `chrono::DateTime::signed_duration_since`. The result is named; away
/// from leap seconds it is the exact difference.
#[verifier::external_body]
pub(crate) fn elapsed(from: UtcTime, to: UtcTime) -> (r: Option<Elapsed>)
    ensures
        r == time_between(from, to),
        r matches Some(e) ==> from.nanos < 1_000_000_000 && to.nanos < 1_000_000_000 ==> {
            &&& -1_000_000_000 < e.nanos < 1_000_000_000
            &&& e.secs * 1_000_000_000 + e.nanos == (to.secs - from.secs) * 1_000_000_000 + (
            to.nanos - from.nanos)
            &&& e.secs > 0 ==> e.nanos >= 0
            &&& e.secs < 0 ==> e.nanos <= 0
        },
{
    let start = chrono::DateTime::from_timestamp(from.secs, from.nanos)?;
    let end = chrono::DateTime::from_timestamp(to.secs, to.nanos)?;
    let delta = end.signed_duration_since(start);
    Some(Elapsed { secs: delta.num_seconds(), nanos: delta.subsec_nanos() })
}

/// Calls `chrono::TimeZone::offset_from_utc_datetime` of the `chrono_tz` zone
/// and reads the date of the local time. The result is named.
#[verifier::external_body]
pub(crate) fn local_time(time: UtcTime, zone: &str) -> (r: Option<LocalTime>)
    ensures
        r == zoned_time(time, zone@),
{
    let zone = zone.parse::<chrono_tz::Tz>().ok()?;
    let utc = chrono::DateTime::from_timestamp(time.secs, time.nanos)?.naive_utc();
    let offset = chrono::TimeZone::offset_from_utc_datetime(&zone, &utc);
    let local = utc.checked_add_offset(chrono::Offset::fix(&offset))?;
    Some(LocalTime {
        year: chrono::Datelike::year(&local),
        day: chrono::Datelike::day(&local),
        day_number: chrono::Datelike::num_days_from_ce(&local),
    })
}

/// Calls `chrono::NaiveDateTime::format` on the local time in the `chrono_tz`
/// zone. The result is named. A pattern that `chrono` cannot read panics, so
/// only known ones are taken.
#[verifier::external_body]
pub(crate) fn local_text(time: UtcTime, zone: &str, pattern: &str) -> (r: Option<String>)
    requires
        known_pattern(pattern@),
    ensures
        opt_view(r) == zoned_text(time, zone@, pattern@),
{
    let zone = zone.parse::<chrono_tz::Tz>().ok()?;
    let utc = chrono::DateTime::from_timestamp(time.secs, time.nanos)?.naive_utc();
    let offset = chrono::TimeZone::offset_from_utc_datetime(&zone, &utc);
    let local = utc.checked_add_offset(chrono::Offset::fix(&offset))?;
    Some(local.format(pattern).to_string())
}

/// Calls `chrono::NaiveDateTime::and_local_timezone` for the given time of the
/// given day in the `chrono_tz` zone. The result is named; each of the three
/// answers of `chrono` is kept apart.
#[verifier::external_body]
pub(crate) fn from_local(
    day_number: i32,
    hour: u32,
    minute: u32,
    second: u32,
    zone: &str,
) -> (r: Option<Instants>)
    ensures
        r == zoned_instants(day_number, hour, minute, second, zone@),
{
    let zone = zone.parse::<chrono_tz::Tz>().ok()?;
    let day = chrono::NaiveDate::from_num_days_from_ce_opt(day_number)?;
    let local = day.and_hms_opt(hour, minute, second)?;
    Some(match local.and_local_timezone(zone) {
        chrono::LocalResult::None => Instants::Gap,
        chrono::LocalResult::Single(t) => Instants::One(
            UtcTime { secs: t.timestamp(), nanos: t.timestamp_subsec_nanos() },
        ),
        chrono::LocalResult::Ambiguous(a, b) => Instants::Two(
            UtcTime { secs: a.timestamp(), nanos: a.timestamp_subsec_nanos() },
            UtcTime { secs: b.timestamp(), nanos: b.timestamp_subsec_nanos() },
        ),
    })
}

/// Calls `chrono_tz::Tz::from_str` and gives the text of its error. The result
/// is named.
#[verifier::external_body]
pub(crate) fn zone_error(zone: &str) -> (r: Option<String>)
    ensures
        opt_view(r) == zone_complaint(zone@),
{
    zone.parse::<chrono_tz::Tz>().err().map(|e| e.to_string())
}

/// A point in time together with the form in which the tables keep it.
#[derive(Debug)]
pub struct Moment {
    pub time: UtcTime,
    pub text: String,
}

/// A point in time in the form in which the tables keep it.
pub open spec fn kept_text(time: UtcTime) -> Seq<char> {
    match rfc3339_text(time) {
        Some(text) => text,
        None => Seq::empty(),
    }
}

impl Moment {
    /// The present.
    pub fn now() -> (r: Moment)
        ensures
            r.text@ == kept_text(r.time),
    {
        let time = now();
        let text = match to_rfc3339(time) {
            Some(text) => text,
            None => String::new(),
        };
        assert(text@ =~= kept_text(time));
        Moment { time, text }
    }
}

/// The present time in the form in which the tables keep it.
pub(crate) fn now_text() -> (r: String) {
    Moment::now().text
}

} // verus!
