//! The status card: how the modem is, what went through today, and what last.
use vstd::prelude::*;

use crate::call_forward::{CallForwardState, CallForwardStateView};
use crate::clock::{
    elapsed, from_local, local_text, local_time, parse_rfc3339, rfc3339_text, rfc3339_time,
    time_between, to_rfc3339, zoned_instants, zoned_text, zoned_time, Elapsed, Instants, LocalTime,
    UtcTime,
};
use crate::db::log::{counts_since, last_failure, last_received, last_sent};
use crate::db::{clone_opt, Db, DbError, DbErrorView};
use crate::decimal::{i64_text, int_text};
use crate::modem::{
    state_label, ModemError, ModemErrorView, ModemLive, ModemLiveView, ModemState, Radio,
    Registration, SimStatus,
};
use crate::rows::{opt_view, res_opt, res_view};
use crate::tables::{contact_by_e164, Tables};
use crate::text::{cat, cat3, chars_of, head, holds, lower, take_chars, to_lower};

verus! {

#[derive(Debug)]
pub enum ModemView {
    Offline,
    Live(ModemLive),
}

pub enum ModemShown {
    Offline,
    Live(ModemLiveView),
}

impl View for ModemView {
    type V = ModemShown;

    open spec fn view(&self) -> ModemShown {
        match self {
            ModemView::Offline => ModemShown::Offline,
            ModemView::Live(live) => ModemShown::Live(live@),
        }
    }
}

#[derive(Debug)]
pub struct LastSms {
    pub label: String,
    pub when: String,
}

pub struct LastSmsView {
    pub label: Seq<char>,
    pub when: Seq<char>,
}

impl View for LastSms {
    type V = LastSmsView;

    open spec fn view(&self) -> LastSmsView {
        LastSmsView { label: self.label@, when: self.when@ }
    }
}

#[derive(Debug)]
pub struct StatusSnapshot {
    pub modem_uid: String,
    pub modem: ModemView,
    pub today_in: u32,
    pub today_out_ok: u32,
    pub today_out_fail: u32,
    pub last_fail_error: Option<String>,
    pub last_in: Option<LastSms>,
    pub last_out: Option<LastSms>,
    pub contacts_ok: bool,
}

pub struct StatusView {
    pub modem_uid: Seq<char>,
    pub modem: ModemShown,
    pub today_in: u32,
    pub today_out_ok: u32,
    pub today_out_fail: u32,
    pub last_fail_error: Option<Seq<char>>,
    pub last_in: Option<LastSmsView>,
    pub last_out: Option<LastSmsView>,
    pub contacts_ok: bool,
}

impl View for StatusSnapshot {
    type V = StatusView;

    open spec fn view(&self) -> StatusView {
        StatusView {
            modem_uid: self.modem_uid@,
            modem: self.modem@,
            today_in: self.today_in,
            today_out_ok: self.today_out_ok,
            today_out_fail: self.today_out_fail,
            last_fail_error: opt_view(self.last_fail_error),
            last_in: opt_view(self.last_in),
            last_out: opt_view(self.last_out),
            contacts_ok: self.contacts_ok,
        }
    }
}

// ---------------------------------------------------------------------------
// Words
// ---------------------------------------------------------------------------

pub open spec fn escaped_char(c: char) -> Seq<char> {
    if c == '&' {
        "&amp;"@
    } else if c == '<' {
        "&lt;"@
    } else if c == '>' {
        "&gt;"@
    } else {
        seq![c]
    }
}

/// A text in which nothing is markup.
pub open spec fn escaped(s: Seq<char>) -> Seq<char>
    decreases s.len(),
{
    if s.len() == 0 {
        Seq::empty()
    } else {
        escaped(s.drop_last()) + escaped_char(s.last())
    }
}

pub fn html_escape(s: &str) -> (r: String)
    ensures
        r@ == escaped(s@),
{
    let chars = chars_of(s);
    let mut out = String::new();
    let mut i: usize = 0;
    assert(out@ =~= escaped(s@.take(0)));
    while i < chars.len()
        invariant
            i <= chars@.len(),
            chars@ == s@,
            out@ == escaped(s@.take(i as int)),
        decreases chars@.len() - i,
    {
        assert(s@.take(i + 1).drop_last() =~= s@.take(i as int));
        assert(s@.take(i + 1).last() == s@[i as int]);
        let ghost before = out@;
        let c = chars[i];
        if c == '&' {
            out = cat(out.as_str(), "&amp;");
        } else if c == '<' {
            out = cat(out.as_str(), "&lt;");
        } else if c == '>' {
            out = cat(out.as_str(), "&gt;");
        } else {
            out.push(c);
            assert(out@ =~= before + seq![c]);
        }
        i = i + 1;
    }
    assert(s@.take(i as int) =~= s@);
    out
}

/// Whatever the text, its escaped form holds no angle bracket, so that it can
/// open and close nothing.
pub proof fn law_escaped_holds_no_markup(s: Seq<char>)
    ensures
        forall|i: int|
            0 <= i < escaped(s).len() ==> (#[trigger] escaped(s)[i]) != '<' && escaped(s)[i] != '>',
    decreases s.len(),
{
    reveal_strlit("&amp;");
    reveal_strlit("&lt;");
    reveal_strlit("&gt;");
    if s.len() > 0 {
        let front = escaped(s.drop_last());
        let last = escaped_char(s.last());
        law_escaped_holds_no_markup(s.drop_last());
        assert forall|i: int| 0 <= i < last.len() implies (#[trigger] last[i]) != '<' && last[i]
            != '>' by {}
        assert forall|i: int| 0 <= i < escaped(s).len() implies (#[trigger] escaped(s)[i]) != '<'
            && escaped(s)[i] != '>' by {
            if i < front.len() {
                assert(escaped(s)[i] == front[i]);
            } else {
                assert(escaped(s)[i] == last[i - front.len()]);
            }
        }
    }
}

/// A text without markup stays as it is.
pub proof fn law_plain_text_is_kept(s: Seq<char>)
    requires
        !s.contains('&') && !s.contains('<') && !s.contains('>'),
    ensures
        escaped(s) == s,
    decreases s.len(),
{
    if s.len() > 0 {
        let front = s.drop_last();
        assert forall|c: char| !s.contains(c) implies !front.contains(c) by {
            if front.contains(c) {
                let i = front.index_of(c);
                assert(s[i] == c);
            }
        }
        assert(!front.contains('&') && !front.contains('<') && !front.contains('>'));
        law_plain_text_is_kept(front);
        assert(s.contains(s.last()));
        assert(escaped(s) =~= s);
    } else {
        assert(escaped(s) =~= s);
    }
}

pub open spec fn signal_words(percent: Option<u32>) -> Seq<char> {
    let p = match percent {
        Some(p) => p as int,
        None => 0,
    };
    if p == 0 {
        "No signal"@
    } else if p < 20 {
        "Poor"@
    } else if p < 40 {
        "Fair"@
    } else if p < 60 {
        "Good"@
    } else if p < 80 {
        "Very good"@
    } else {
        "Excellent"@
    }
}

pub fn signal_label(percent: Option<u32>) -> (r: &'static str)
    ensures
        r@ == signal_words(percent),
{
    match percent {
        None => "No signal",
        Some(p) => if p == 0 {
            "No signal"
        } else if p < 20 {
            "Poor"
        } else if p < 40 {
            "Fair"
        } else if p < 60 {
            "Good"
        } else if p < 80 {
            "Very good"
        } else {
            "Excellent"
        },
    }
}

pub open spec fn radio_words(radio: Radio) -> Seq<char> {
    match radio {
        Radio::Gsm => "2G"@,
        Radio::Umts => "3G"@,
        Radio::Lte => "4G LTE"@,
        Radio::Nr => "5G"@,
    }
}

pub fn radio_label(radio: Radio) -> (r: &'static str)
    ensures
        r@ == radio_words(radio),
{
    match radio {
        Radio::Gsm => "2G",
        Radio::Umts => "3G",
        Radio::Lte => "4G LTE",
        Radio::Nr => "5G",
    }
}

pub open spec fn dot_of(state: ModemState) -> Seq<char> {
    match state {
        ModemState::Failed => "🔴"@,
        ModemState::Registered => "🟢"@,
        ModemState::Connected => "🟢"@,
        _ => "🟡"@,
    }
}

fn state_dot(state: ModemState) -> (r: &'static str)
    ensures
        r@ == dot_of(state),
{
    match state {
        ModemState::Failed => "🔴",
        ModemState::Registered => "🟢",
        ModemState::Connected => "🟢",
        _ => "🟡",
    }
}

pub open spec fn registration_words(reg: Registration) -> Seq<char> {
    match reg {
        Registration::Home => "home"@,
        Registration::Roaming => "roaming"@,
    }
}

fn registration_label(reg: Registration) -> (r: &'static str)
    ensures
        r@ == registration_words(reg),
{
    match reg {
        Registration::Home => "home",
        Registration::Roaming => "roaming",
    }
}

pub open spec fn sim_words(sim: SimStatus) -> Seq<char> {
    match sim {
        SimStatus::Ready => "SIM ok"@,
        SimStatus::Missing => "SIM missing"@,
        SimStatus::PinRequired => "PIN required"@,
    }
}

fn sim_line(sim: SimStatus) -> (r: &'static str)
    ensures
        r@ == sim_words(sim),
{
    match sim {
        SimStatus::Ready => "SIM ok",
        SimStatus::Missing => "SIM missing",
        SimStatus::PinRequired => "PIN required",
    }
}

// ---------------------------------------------------------------------------
// Times
// ---------------------------------------------------------------------------

/// A day long ago in words: yesterday, a day of this year, or a date. The texts
/// are those of the time of day, of the month, and of the date with the time of
/// day.
pub open spec fn dated(
    then: LocalTime,
    now: LocalTime,
    clock: Seq<char>,
    month: Seq<char>,
    stamp: Seq<char>,
) -> Seq<char> {
    if then.day_number == now.day_number - 1 {
        "yesterday "@ + clock
    } else if then.year == now.year {
        month + " "@ + int_text(then.day as int) + " "@ + clock
    } else {
        stamp
    }
}

pub fn dated_words(then: LocalTime, now: LocalTime, clock: &str, month: &str, stamp: &str) -> (r:
    String)
    ensures
        r@ == dated(then, now, clock@, month@, stamp@),
{
    if then.day_number as i64 == now.day_number as i64 - 1 {
        cat("yesterday ", clock)
    } else if then.year == now.year {
        let day = i64_text(then.day as i64);
        cat3(cat3(month, " ", day.as_str()).as_str(), " ", clock)
    } else {
        stamp.to_owned()
    }
}

/// A point in time of a day long ago in words, as far as the clocks can say.
pub open spec fn dated_in(then: UtcTime, now: UtcTime, zone: Seq<char>) -> Option<Seq<char>> {
    match (zoned_time(then, zone), zoned_time(now, zone)) {
        (Some(t), Some(n)) => match (
            zoned_text(then, zone, "%H:%M"@),
            zoned_text(then, zone, "%b"@),
            zoned_text(then, zone, "%Y-%m-%d %H:%M"@),
        ) {
            (Some(clock), Some(month), Some(stamp)) => Some(dated(t, n, clock, month, stamp)),
            _ => None,
        },
        _ => None,
    }
}

fn date_words(then: UtcTime, now: UtcTime, zone: &str) -> (r: Option<String>)
    ensures
        opt_view(r) == dated_in(then, now, zone@),
{
    let then_day = local_time(then, zone)?;
    let now_day = local_time(now, zone)?;
    let clock = local_text(then, zone, "%H:%M")?;
    let month = local_text(then, zone, "%b")?;
    let stamp = local_text(then, zone, "%Y-%m-%d %H:%M")?;
    Some(dated_words(then_day, now_day, clock.as_str(), month.as_str(), stamp.as_str()))
}

/// How long ago, in words, as long as that is less than a day.
pub open spec fn ago(age: Elapsed) -> Option<Seq<char>> {
    if age.secs < 60 {
        Some("just now"@)
    } else if age.secs < 3600 {
        Some(int_text(age.secs as int / 60) + "m ago"@)
    } else if age.secs < 86400 {
        Some(int_text(age.secs as int / 3600) + "h ago"@)
    } else {
        None
    }
}

pub fn ago_words(age: Elapsed) -> (r: Option<String>)
    ensures
        opt_view(r) == ago(age),
{
    if age.secs < 60 {
        Some("just now".to_owned())
    } else if age.secs < 3600 {
        Some(cat(i64_text(age.secs / 60).as_str(), "m ago"))
    } else if age.secs < 86400 {
        Some(cat(i64_text(age.secs / 3600).as_str(), "h ago"))
    } else {
        None
    }
}

/// When something was, in words, as far as the clocks can say.
pub open spec fn relative(then: UtcTime, now: UtcTime, zone: Seq<char>) -> Option<Seq<char>> {
    match time_between(then, now) {
        None => None,
        Some(age) => match ago(age) {
            Some(words) => Some(words),
            None => dated_in(then, now, zone),
        },
    }
}

/// Says when something was.
pub fn format_relative(then: UtcTime, now: UtcTime, zone: &str) -> (r: String)
    requires
        relative(then, now, zone@) is Some,
    ensures
        relative(then, now, zone@) == Some(r@),
{
    let age = elapsed(then, now).unwrap();
    match ago_words(age) {
        Some(words) => words,
        None => date_words(then, now, zone).unwrap(),
    }
}

/// Says when something was, if the clocks can.
pub fn try_format_relative(then: UtcTime, now: UtcTime, zone: &str) -> (r: Option<String>)
    ensures
        opt_view(r) == relative(then, now, zone@),
{
    let age = elapsed(then, now)?;
    if age.secs >= 86400 && date_words(then, now, zone).is_none() {
        return None;
    }
    Some(format_relative(then, now, zone))
}

/// The point in time, if there is exactly one.
pub open spec fn only(found: Option<Instants>) -> Option<UtcTime> {
    match found {
        Some(Instants::One(time)) => Some(time),
        _ => None,
    }
}

pub fn only_instant(found: Option<Instants>) -> (r: Option<UtcTime>)
    ensures
        r == only(found),
{
    match found {
        Some(Instants::One(time)) => Some(time),
        _ => None,
    }
}

/// The midnight that begins the local day, if the clocks show 00:00:00 on that
/// day exactly once.
pub open spec fn day_start(now: UtcTime, zone: Seq<char>) -> Option<UtcTime> {
    match zoned_time(now, zone) {
        Some(today) => only(zoned_instants(today.day_number, 0, 0, 0, zone)),
        None => None,
    }
}

/// Finds the midnight that begins the local day.
pub fn local_day_start(now: UtcTime, zone: &str) -> (r: Option<UtcTime>)
    ensures
        r == day_start(now, zone@),
{
    let today = local_time(now, zone)?;
    only_instant(from_local(today.day_number, 0, 0, 0, zone))
}

/// When the local day began, in the form in which the tables keep times.
pub open spec fn today_start(now: UtcTime, zone: Seq<char>) -> Option<Seq<char>> {
    match day_start(now, zone) {
        Some(midnight) => rfc3339_text(midnight),
        None => None,
    }
}

/// When the local day began.
pub fn today_start_rfc3339(now: UtcTime, zone: &str) -> (r: String)
    requires
        today_start(now, zone@) is Some,
    ensures
        today_start(now, zone@) == Some(r@),
{
    let midnight = local_day_start(now, zone).unwrap();
    to_rfc3339(midnight).unwrap()
}

/// When the local day began, if its midnight is one point in time.
pub fn try_today_start(now: UtcTime, zone: &str) -> (r: Option<String>)
    ensures
        opt_view(r) == today_start(now, zone@),
{
    let midnight = local_day_start(now, zone)?;
    if to_rfc3339(midnight).is_none() {
        return None;
    }
    Some(today_start_rfc3339(now, zone))
}

// ---------------------------------------------------------------------------
// Gathering
// ---------------------------------------------------------------------------

/// The words for when a row was stored; a time that cannot be read is now.
pub open spec fn row_when(created_at: Seq<char>, now: UtcTime, zone: Seq<char>) -> Option<Seq<char>> {
    match rfc3339_time(created_at) {
        Some(then) => relative(then, now, zone),
        None => Some("just now"@),
    }
}

/// The name that goes with a number.
pub open spec fn label_of(t: Tables, e164: Seq<char>) -> Seq<char> {
    match contact_by_e164(t, e164) {
        Some(c) => c.display_name,
        None => e164,
    }
}

/// The clocks can say when the row was stored.
pub open spec fn row_known(row: Option<(Seq<char>, Seq<char>)>, now: UtcTime, zone: Seq<char>) -> bool {
    row matches Some((e164, created_at)) ==> row_when(created_at, now, zone) is Some
}

/// The clocks can say all that a snapshot needs.
pub open spec fn clocks_know(t: Tables, now: UtcTime, zone: Seq<char>) -> bool {
    &&& today_start(now, zone) is Some
    &&& row_known(last_received(t), now, zone)
    &&& row_known(last_sent(t), now, zone)
}

pub open spec fn modem_shown(r: Result<ModemLiveView, ModemErrorView>) -> ModemShown {
    match r {
        Ok(live) => ModemShown::Live(live),
        Err(_) => ModemShown::Offline,
    }
}

/// The last message of a kind, with the words for when it was.
pub open spec fn last_told(t: Tables, row: Option<(Seq<char>, Seq<char>)>, when: Seq<char>) -> Option<
    LastSmsView,
> {
    match row {
        Some((e164, created_at)) => Some(LastSmsView { label: label_of(t, e164), when }),
        None => None,
    }
}

/// The snapshot, given when the day began and the words for when the last
/// messages were.
pub open spec fn snapshot_since(
    t: Tables,
    modem: ModemShown,
    modem_uid: Seq<char>,
    since: Seq<char>,
    received: Seq<char>,
    sent: Seq<char>,
) -> StatusView {
    let counts = counts_since(t, since);
    StatusView {
        modem_uid,
        modem,
        today_in: counts.inbound,
        today_out_ok: counts.sent_ok,
        today_out_fail: counts.sent_fail,
        last_fail_error: if counts.sent_fail > 0 {
            last_failure(t, since)
        } else {
            None
        },
        last_in: last_told(t, last_received(t), received),
        last_out: last_told(t, last_sent(t), sent),
        contacts_ok: t.contacts_available,
    }
}

/// The words for when the last message of a kind was; none if there is none.
pub open spec fn last_when(
    row: Option<(Seq<char>, Seq<char>)>,
    now: UtcTime,
    zone: Seq<char>,
) -> Seq<char> {
    match row {
        Some((e164, created_at)) => row_when(created_at, now, zone)->0,
        None => Seq::empty(),
    }
}

/// The snapshot, as far as the clocks can say.
pub open spec fn gathered(
    t: Tables,
    modem: Result<ModemLiveView, ModemErrorView>,
    zone: Seq<char>,
    modem_uid: Seq<char>,
    now: UtcTime,
) -> Option<StatusView> {
    if clocks_know(t, now, zone) {
        Some(
            snapshot_since(
                t,
                modem_shown(modem),
                modem_uid,
                today_start(now, zone)->0,
                last_when(last_received(t), now, zone),
                last_when(last_sent(t), now, zone),
            ),
        )
    } else {
        None
    }
}

fn label_for(db: &Db, e164: String) -> (r: Result<String, DbError>)
    ensures
        res_view(r) == Ok::<Seq<char>, DbErrorView>(label_of(db@, e164@)),
{
    match db.find_contact_by_e164(e164.as_str()) {
        Ok(Some(c)) => Ok(c.display_name),
        Ok(None) => Ok(e164),
        Err(e) => Err(e),
    }
}

/// The view of a row of number and time.
pub open spec fn row_view(row: Option<(String, String)>) -> Option<(Seq<char>, Seq<char>)> {
    match row {
        Some(p) => Some((p.0@, p.1@)),
        None => None,
    }
}

fn knows_row(row: &Option<(String, String)>, now: UtcTime, zone: &str) -> (r: bool)
    ensures
        r == row_known(row_view(*row), now, zone@),
{
    match row {
        None => true,
        Some((_, created_at)) => match parse_rfc3339(created_at.as_str()) {
            Some(then) => try_format_relative(then, now, zone).is_some(),
            None => true,
        },
    }
}

fn when_of(row: &Option<(String, String)>, now: UtcTime, zone: &str) -> (r: String)
    requires
        row_known(row_view(*row), now, zone@),
    ensures
        r@ == last_when(row_view(*row), now, zone@),
{
    match row {
        None => {
            let none = String::new();
            assert(none@ =~= Seq::empty());
            none
        },
        Some((_, created_at)) => match parse_rfc3339(created_at.as_str()) {
            Some(then) => format_relative(then, now, zone),
            None => "just now".to_owned(),
        },
    }
}

fn map_last(db: &Db, row: Option<(String, String)>, when: &str) -> (r: Result<
    Option<LastSms>,
    DbError,
>)
    ensures
        res_opt(r) == Ok::<Option<LastSmsView>, DbErrorView>(
            last_told(db@, row_view(row), when@),
        ),
{
    match row {
        None => Ok(None),
        Some((e164, _)) => {
            let label = label_for(db, e164)?;
            Ok(Some(LastSms { label, when: when.to_owned() }))
        },
    }
}

/// Puts the snapshot together from what the modem answered, what the tables
/// hold, when the day began and the words for when the last messages were. A
/// modem that does not answer is offline, and the rest is told all the same.
pub fn assemble(
    modem: Result<ModemLive, ModemError>,
    db: &Db,
    modem_uid: &str,
    since: &str,
    received: &str,
    sent: &str,
) -> (r: Result<StatusSnapshot, DbError>)
    ensures
        res_view(r) == Ok::<StatusView, DbErrorView>(
            snapshot_since(
                db@,
                modem_shown(res_view(modem)),
                modem_uid@,
                since@,
                received@,
                sent@,
            ),
        ),
{
    let ghost answered = res_view(modem);
    let modem = match modem {
        Ok(live) => ModemView::Live(live),
        Err(_) => ModemView::Offline,
    };
    assert(modem@ == modem_shown(answered));
    let last_in = map_last(db, db.last_inbound()?, received)?;
    let last_out = map_last(db, db.last_outbound_ok()?, sent)?;
    let counts = db.today_sms_counts(since)?;
    let last_fail_error = if counts.sent_fail > 0 {
        db.last_outbound_fail_since(since)?
    } else {
        None
    };
    Ok(
        StatusSnapshot {
            modem_uid: modem_uid.to_owned(),
            modem,
            today_in: counts.inbound,
            today_out_ok: counts.sent_ok,
            today_out_fail: counts.sent_fail,
            last_fail_error,
            last_in,
            last_out,
            contacts_ok: db.contacts_available(),
        },
    )
}

/// Gathers the snapshot from what the modem answered and what the tables hold.
pub fn gather(
    modem: Result<ModemLive, ModemError>,
    db: &Db,
    zone: &str,
    modem_uid: &str,
    now: UtcTime,
) -> (r: Result<StatusSnapshot, DbError>)
    requires
        clocks_know(db@, now, zone@),
    ensures
        res_view(r) == Ok::<StatusView, DbErrorView>(
            gathered(db@, res_view(modem), zone@, modem_uid@, now)->0,
        ),
{
    let since = today_start_rfc3339(now, zone);
    let received = when_of(&db.last_inbound()?, now, zone);
    let sent = when_of(&db.last_outbound_ok()?, now, zone);
    assemble(modem, db, modem_uid, since.as_str(), received.as_str(), sent.as_str())
}

/// Gathers the snapshot, if the clocks can say when things were.
pub fn try_gather(
    modem: Result<ModemLive, ModemError>,
    db: &Db,
    zone: &str,
    modem_uid: &str,
    now: UtcTime,
) -> (r: Option<Result<StatusSnapshot, DbError>>)
    ensures
        r is Some <==> clocks_know(db@, now, zone@),
        r matches Some(x) ==> res_view(x) == Ok::<StatusView, DbErrorView>(
            gathered(db@, res_view(modem), zone@, modem_uid@, now)->0,
        ),
{
    if try_today_start(now, zone).is_none() {
        return None;
    }
    let received = match db.last_inbound() {
        Ok(row) => row,
        Err(e) => {
            return Some(Err(e));
        },
    };
    let sent = match db.last_outbound_ok() {
        Ok(row) => row,
        Err(e) => {
            return Some(Err(e));
        },
    };
    if !knows_row(&received, now, zone) || !knows_row(&sent, now, zone) {
        return None;
    }
    Some(gather(modem, db, zone, modem_uid, now))
}

// ---------------------------------------------------------------------------
// The card
// ---------------------------------------------------------------------------

/// An optional part behind a dot.
pub open spec fn dotted(part: Option<Seq<char>>) -> Seq<char> {
    match part {
        Some(s) => " · "@ + s,
        None => Seq::empty(),
    }
}

pub open spec fn operator_part(operator: Option<Seq<char>>) -> Seq<char> {
    match operator {
        Some(op) => if op.len() > 0 {
            " · "@ + escaped(op)
        } else {
            " · no operator"@
        },
        None => " · no operator"@,
    }
}

/// The modem has no signal.
pub open spec fn no_signal(live: ModemLiveView) -> bool {
    live.signal_percent is None || live.signal_percent == Some(0u32)
}

pub open spec fn signal_line(live: ModemLiveView) -> Seq<char> {
    if no_signal(live) {
        "📶 No signal"@
    } else {
        "📶 "@ + signal_words(live.signal_percent) + " ("@ + int_text(
            live.signal_percent->0 as int,
        ) + "%)"@ + dotted(
            match live.access_tech {
                Some(radio) => Some(radio_words(radio)),
                None => None,
            },
        ) + dotted(
            match live.rssi_dbm {
                Some(dbm) => Some(int_text(dbm as int) + " dBm"@),
                None => None,
            },
        )
    }
}

/// The part of the card about the modem.
pub open spec fn modem_section(s: StatusView) -> Seq<char> {
    match s.modem {
        ModemShown::Offline => "<b>Modem</b>\n🔴 Offline\n<i>Stick not found ("@ + escaped(
            s.modem_uid,
        ) + ")</i>"@,
        ModemShown::Live(live) => "<b>Modem</b>\n"@ + dot_of(live.state) + " "@ + state_label(
            live.state,
        ) + operator_part(live.operator) + dotted(
            match live.registration {
                Some(reg) => Some(registration_words(reg)),
                None => None,
            },
        ) + "\n"@ + signal_line(live) + "\n"@ + sim_words(live.sim),
    }
}

/// Without a signal the part about the modem says so, and shows neither a
/// percentage nor the radio nor its strength: whatever they are, it is the same.
pub proof fn law_no_signal_hides_the_radio(
    a: StatusView,
    b: StatusView,
    x: ModemLiveView,
    y: ModemLiveView,
)
    requires
        a.modem == ModemShown::Live(x),
        b.modem == ModemShown::Live(y),
        no_signal(x),
        no_signal(y),
        x.state == y.state,
        x.operator == y.operator,
        x.registration == y.registration,
        x.sim == y.sim,
    ensures
        signal_words(x.signal_percent) == "No signal"@,
        modem_section(a) == modem_section(b),
        holds(modem_section(a), "📶 No signal"@),
{
    let before = "<b>Modem</b>\n"@ + dot_of(x.state) + " "@ + state_label(x.state) + operator_part(
        x.operator,
    ) + dotted(
        match x.registration {
            Some(reg) => Some(registration_words(reg)),
            None => None,
        },
    ) + "\n"@;
    let line = "📶 No signal"@;
    let from = before.len() as int;
    assert(modem_section(a) == before + line + "\n"@ + sim_words(x.sim));
    assert(modem_section(a).subrange(from, from + line.len()) =~= line);
}

/// The last error, cut to a length that fits on the card.
pub open spec fn failure_line(s: StatusView) -> Seq<char> {
    match s.last_fail_error {
        Some(e) => if s.today_out_fail > 0 {
            "\n"@ + escaped(head(e, 120))
        } else {
            Seq::empty()
        },
        None => Seq::empty(),
    }
}

pub open spec fn today_section(s: StatusView) -> Seq<char> {
    "<b>Today</b>\n↓ "@ + int_text(s.today_in as int) + " received\n↑ "@ + int_text(
        s.today_out_ok as int,
    ) + " sent\n✗ "@ + int_text(s.today_out_fail as int) + " failed"@ + failure_line(s)
}

pub open spec fn last_line(arrow: Seq<char>, last: LastSmsView) -> Seq<char> {
    arrow + escaped(last.label) + " · "@ + last.when
}

pub open spec fn last_section(s: StatusView) -> Seq<char> {
    "<b>Last</b>\n"@ + match (s.last_in, s.last_out) {
        (None, None) => "none yet"@,
        (Some(i), None) => last_line("↓ "@, i),
        (None, Some(o)) => last_line("↑ "@, o),
        (Some(i), Some(o)) => last_line("↓ "@, i) + "\n"@ + last_line("↑ "@, o),
    }
}

/// All that follows the part about the modem.
pub open spec fn rest_of_card(s: StatusView) -> Seq<char> {
    "\n\n"@ + today_section(s) + "\n\n"@ + last_section(s) + "\n\n"@ + if s.contacts_ok {
        "Contacts · OK"@
    } else {
        "Contacts · unavailable"@
    }
}

/// The status card.
pub open spec fn status_card(s: StatusView) -> Seq<char> {
    modem_section(s) + rest_of_card(s)
}

fn behind_dot(part: Option<String>) -> (r: String)
    ensures
        r@ == dotted(opt_view(part)),
{
    match part {
        Some(s) => cat(" · ", s.as_str()),
        None => {
            let none = String::new();
            assert(none@ =~= Seq::empty());
            none
        },
    }
}

fn operator_text(operator: &Option<String>) -> (r: String)
    ensures
        r@ == operator_part(opt_view(*operator)),
{
    match operator {
        Some(op) => if op.as_str().is_empty() {
            " · no operator".to_owned()
        } else {
            cat(" · ", html_escape(op.as_str()).as_str())
        },
        None => " · no operator".to_owned(),
    }
}

fn signal_text(live: &ModemLive) -> (r: String)
    ensures
        r@ == signal_line(live@),
{
    match live.signal_percent {
        None => "📶 No signal".to_owned(),
        Some(percent) => {
            if percent == 0 {
                return "📶 No signal".to_owned();
            }
            let radio = match live.access_tech {
                Some(radio) => Some(radio_label(radio).to_owned()),
                None => None,
            };
            let dbm = match live.rssi_dbm {
                Some(dbm) => Some(cat(i64_text(dbm as i64).as_str(), " dBm")),
                None => None,
            };
            let strength = cat3("📶 ", signal_label(Some(percent)), " (");
            let number = i64_text(percent as i64);
            let line = cat3(strength.as_str(), number.as_str(), "%)");
            let radio = behind_dot(radio);
            let dbm = behind_dot(dbm);
            cat3(line.as_str(), radio.as_str(), dbm.as_str())
        },
    }
}

fn format_modem_section(snap: &StatusSnapshot) -> (r: String)
    ensures
        r@ == modem_section(snap@),
{
    match &snap.modem {
        ModemView::Offline => cat3(
            "<b>Modem</b>\n🔴 Offline\n<i>Stick not found (",
            html_escape(snap.modem_uid.as_str()).as_str(),
            ")</i>",
        ),
        ModemView::Live(live) => {
            let registration = match live.registration {
                Some(reg) => Some(registration_label(reg).to_owned()),
                None => None,
            };
            let dot = cat3("<b>Modem</b>\n", state_dot(live.state), " ");
            let operator = operator_text(&live.operator);
            let state = cat3(dot.as_str(), live.state.label(), operator.as_str());
            let registration = behind_dot(registration);
            let first = cat3(state.as_str(), registration.as_str(), "\n");
            let signal = signal_text(live);
            let second = cat3(first.as_str(), signal.as_str(), "\n");
            cat(second.as_str(), sim_line(live.sim))
        },
    }
}

fn today_text(snap: &StatusSnapshot) -> (r: String)
    ensures
        r@ == today_section(snap@),
{
    let received = i64_text(snap.today_in as i64);
    let sent = i64_text(snap.today_out_ok as i64);
    let failed = i64_text(snap.today_out_fail as i64);
    let out = cat3("<b>Today</b>\n↓ ", received.as_str(), " received\n↑ ");
    let out = cat3(out.as_str(), sent.as_str(), " sent\n✗ ");
    let out = cat3(out.as_str(), failed.as_str(), " failed");
    if snap.today_out_fail > 0 {
        if let Some(err) = &snap.last_fail_error {
            let line = cat("\n", html_escape(take_chars(err.as_str(), 120).as_str()).as_str());
            return cat(out.as_str(), line.as_str());
        }
    }
    assert(out@ + Seq::<char>::empty() =~= out@);
    out
}

fn last_text(arrow: &str, last: &LastSms) -> (r: String)
    ensures
        r@ == last_line(arrow@, last@),
{
    let label = html_escape(last.label.as_str());
    cat3(cat(arrow, label.as_str()).as_str(), " · ", last.when.as_str())
}

fn last_lines(snap: &StatusSnapshot) -> (r: String)
    ensures
        r@ == last_section(snap@),
{
    let lines = match (&snap.last_in, &snap.last_out) {
        (None, None) => "none yet".to_owned(),
        (Some(i), None) => last_text("↓ ", i),
        (None, Some(o)) => last_text("↑ ", o),
        (Some(i), Some(o)) => cat3(last_text("↓ ", i).as_str(), "\n", last_text("↑ ", o).as_str()),
    };
    cat("<b>Last</b>\n", lines.as_str())
}

fn rest_text(snap: &StatusSnapshot) -> (r: String)
    ensures
        r@ == rest_of_card(snap@),
{
    let contacts = if snap.contacts_ok {
        "Contacts · OK"
    } else {
        "Contacts · unavailable"
    };
    let out = cat3("\n\n", today_text(snap).as_str(), "\n\n");
    let out = cat3(out.as_str(), last_lines(snap).as_str(), "\n\n");
    cat(out.as_str(), contacts)
}

pub fn format_status_html(snap: &StatusSnapshot) -> (r: String)
    ensures
        r@ == status_card(snap@),
{
    cat(format_modem_section(snap).as_str(), rest_text(snap).as_str())
}

// ---------------------------------------------------------------------------
// Forwarding on the card
// ---------------------------------------------------------------------------

/// Where calls go, as the card shows it.
#[derive(Debug)]
pub enum ForwardView {
    Off,
    On { label: String },
    Unavailable,
}

pub enum ForwardShown {
    Off,
    On { label: Seq<char> },
    Unavailable,
}

impl View for ForwardView {
    type V = ForwardShown;

    open spec fn view(&self) -> ForwardShown {
        match self {
            ForwardView::Off => ForwardShown::Off,
            ForwardView::On { label } => ForwardShown::On { label: label@ },
            ForwardView::Unavailable => ForwardShown::Unavailable,
        }
    }
}

/// What the modem's answer shows: a contact by its name, an unknown number as
/// it is, and a failed query as such.
pub open spec fn forward_shown(
    t: Tables,
    r: Result<CallForwardStateView, ModemErrorView>,
) -> ForwardShown {
    match r {
        Err(_) => ForwardShown::Unavailable,
        Ok(s) => if !s.enabled {
            ForwardShown::Off
        } else {
            ForwardShown::On {
                label: label_of(
                    t,
                    match s.e164 {
                        Some(e164) => e164,
                        None => Seq::empty(),
                    },
                ),
            }
        },
    }
}

pub open spec fn forward_line(f: ForwardShown) -> Seq<char> {
    match f {
        ForwardShown::Off => "↪️ Forward · off"@,
        ForwardShown::On { label } => "↪️ Forward · "@ + escaped(label),
        ForwardShown::Unavailable => "↪️ Forward · unavailable"@,
    }
}

/// Shows what the modem answered about forwarding.
pub fn view_forward(db: &Db, answer: Result<CallForwardState, ModemError>) -> (r: Result<
    ForwardView,
    DbError,
>)
    ensures
        res_view(r) == Ok::<ForwardShown, DbErrorView>(forward_shown(db@, res_view(answer))),
{
    match answer {
        Err(_) => Ok(ForwardView::Unavailable),
        Ok(state) => {
            if !state.enabled {
                return Ok(ForwardView::Off);
            }
            let e164 = match state.e164 {
                Some(e164) => e164,
                None => String::new(),
            };
            assert(state.e164 is None ==> e164@ =~= Seq::empty());
            match label_for(db, e164) {
                Ok(label) => Ok(ForwardView::On { label }),
                Err(e) => Err(e),
            }
        },
    }
}

pub fn format_forward_line(view: &ForwardView) -> (r: String)
    ensures
        r@ == forward_line(view@),
{
    match view {
        ForwardView::Off => "↪️ Forward · off".to_owned(),
        ForwardView::On { label } => cat("↪️ Forward · ", html_escape(label.as_str()).as_str()),
        ForwardView::Unavailable => "↪️ Forward · unavailable".to_owned(),
    }
}

/// The card with a line about forwarding behind the part about the modem.
pub fn format_status_with_forward(snap: &StatusSnapshot, forward: &ForwardView) -> (r: String)
    ensures
        r@ == modem_section(snap@) + "\n"@ + forward_line(forward@) + rest_of_card(snap@),
{
    let line = cat3(
        format_modem_section(snap).as_str(),
        "\n",
        format_forward_line(forward).as_str(),
    );
    cat(line.as_str(), rest_text(snap).as_str())
}

// ---------------------------------------------------------------------------
// The report
// ---------------------------------------------------------------------------

/// The state of the modem in the words of the HTTP API.
#[derive(Debug)]
pub struct ModemReport {
    pub state: String,
    pub operator: Option<String>,
    pub registration: Option<&'static str>,
    pub signal_percent: Option<u32>,
    pub rssi_dbm: Option<i32>,
    pub access_tech: Option<&'static str>,
    pub sim: Option<&'static str>,
}

pub struct ModemReportView {
    pub state: Seq<char>,
    pub operator: Option<Seq<char>>,
    pub registration: Option<Seq<char>>,
    pub signal_percent: Option<u32>,
    pub rssi_dbm: Option<i32>,
    pub access_tech: Option<Seq<char>>,
    pub sim: Option<Seq<char>>,
}

impl View for ModemReport {
    type V = ModemReportView;

    open spec fn view(&self) -> ModemReportView {
        ModemReportView {
            state: self.state@,
            operator: opt_view(self.operator),
            registration: opt_view(self.registration),
            signal_percent: self.signal_percent,
            rssi_dbm: self.rssi_dbm,
            access_tech: opt_view(self.access_tech),
            sim: opt_view(self.sim),
        }
    }
}

pub open spec fn radio_name(radio: Radio) -> Seq<char> {
    match radio {
        Radio::Gsm => "gsm"@,
        Radio::Umts => "umts"@,
        Radio::Lte => "lte"@,
        Radio::Nr => "nr"@,
    }
}

pub open spec fn sim_name(sim: SimStatus) -> Seq<char> {
    match sim {
        SimStatus::Ready => "ok"@,
        SimStatus::Missing => "missing"@,
        SimStatus::PinRequired => "pin_required"@,
    }
}

pub open spec fn reported(modem: ModemShown) -> ModemReportView {
    match modem {
        ModemShown::Offline => ModemReportView {
            state: "offline"@,
            operator: None,
            registration: None,
            signal_percent: None,
            rssi_dbm: None,
            access_tech: None,
            sim: None,
        },
        ModemShown::Live(live) => ModemReportView {
            state: lower(state_label(live.state)),
            operator: live.operator,
            registration: match live.registration {
                Some(reg) => Some(registration_words(reg)),
                None => None,
            },
            signal_percent: live.signal_percent,
            rssi_dbm: live.rssi_dbm,
            access_tech: match live.access_tech {
                Some(radio) => Some(radio_name(radio)),
                None => None,
            },
            sim: Some(sim_name(live.sim)),
        },
    }
}

/// The state of the modem in the words of the HTTP API.
pub fn report_modem(modem: &ModemView) -> (r: ModemReport)
    ensures
        r@ == reported(modem@),
{
    match modem {
        ModemView::Offline => ModemReport {
            state: "offline".to_owned(),
            operator: None,
            registration: None,
            signal_percent: None,
            rssi_dbm: None,
            access_tech: None,
            sim: None,
        },
        ModemView::Live(live) => {
            let registration = match live.registration {
                Some(reg) => Some(registration_label(reg)),
                None => None,
            };
            let access_tech = match live.access_tech {
                Some(Radio::Gsm) => Some("gsm"),
                Some(Radio::Umts) => Some("umts"),
                Some(Radio::Lte) => Some("lte"),
                Some(Radio::Nr) => Some("nr"),
                None => None,
            };
            let sim = match live.sim {
                SimStatus::Ready => "ok",
                SimStatus::Missing => "missing",
                SimStatus::PinRequired => "pin_required",
            };
            ModemReport {
                state: to_lower(live.state.label()),
                operator: clone_opt(&live.operator),
                registration,
                signal_percent: live.signal_percent,
                rssi_dbm: live.rssi_dbm,
                access_tech,
                sim: Some(sim),
            }
        },
    }
}

} // verus!
