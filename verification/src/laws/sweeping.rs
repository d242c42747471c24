//! What is swept from the modem, said of the stored rows and of the messages; and
//! what the watchers do.
use vstd::prelude::*;

use crate::app::presence::{
    changes, inbox_next, presence_change, presence_words, InboxAction, InboxEvent, InboxState,
    PresenceEvent,
};
use crate::app::sweep::{path_of, sms_time, to_sweep, too_old};
use crate::clock::{rfc3339_time, time_between, Elapsed, UtcTime};
use crate::laws::found::{lemma_filter_from, lemma_filter_keeps};
use crate::modem::IncomingSmsView;
use crate::rows::lemma_find;
use crate::tables::{record_of, sms_seen, Tables};

verus! {

/// A row was stored for the message: one of that number, text and time, and where
/// it has no time, of its place.
pub open spec fn recorded(t: Tables, s: IncomingSmsView) -> bool {
    exists|i: int|
        0 <= i < t.inbound.len() && (#[trigger] t.inbound[i]).e164 == s.e164 && t.inbound[i].body
            == s.text && t.inbound[i].sms_ts == Some(s.timestamp) && (s.timestamp.len() > 0
            || t.inbound[i].mm_path == s.path)
}

/// The message is so many whole seconds old.
pub open spec fn aged(s: IncomingSmsView, now: UtcTime, secs: int) -> bool {
    sms_time(s.timestamp) matches Some(then) && time_between(then, now) matches Some(e) && e.secs
        == secs
}

/// Nobody can say how old the message is.
pub open spec fn ageless(s: IncomingSmsView, now: UtcTime) -> bool {
    sms_time(s.timestamp) is None || time_between(sms_time(s.timestamp)->0, now) is None
}

/// The sweep takes the message at a place in the list.
pub open spec fn takes(
    t: Tables,
    list: Seq<IncomingSmsView>,
    now: UtcTime,
    max_age: nat,
    i: int,
) -> bool {
    list.filter(to_sweep(t, now, max_age)).contains(list[i])
}

proof fn lemma_takes(t: Tables, list: Seq<IncomingSmsView>, now: UtcTime, max_age: nat, i: int)
    requires
        0 <= i < list.len(),
    ensures
        takes(t, list, now, max_age, i) == to_sweep(t, now, max_age)(list[i]),
{
    let p = to_sweep(t, now, max_age);
    if p(list[i]) {
        let a = lemma_filter_keeps(list, p, i);
    }
    if list.filter(p).contains(list[i]) {
        let a = list.filter(p).index_of(list[i]);
        let k = lemma_filter_from(list, p, a);
    }
}

/// Only a row of the same number, text and time makes a message seen: its place
/// in the modem tells only those without a time apart.
pub proof fn law_seen_is_stored(t: Tables, s: IncomingSmsView)
    ensures
        sms_seen(t, s.path, s.e164, s.text, s.timestamp) == recorded(t, s),
{
    let p = record_of(s.path, s.e164, s.text, s.timestamp);
    lemma_find(t.inbound, p);
    if recorded(t, s) {
        let i = choose|i: int|
            0 <= i < t.inbound.len() && (#[trigger] t.inbound[i]).e164 == s.e164
                && t.inbound[i].body == s.text && t.inbound[i].sms_ts == Some(s.timestamp) && (
            s.timestamp.len() > 0 || t.inbound[i].mm_path == s.path);
        assert(p(t.inbound[i]));
    }
}

/// A message that was received and stored, or that was sent, is swept when it is
/// older than the greatest age or when nobody can say how old it is, and stays
/// otherwise.
pub proof fn law_stored_is_swept_by_age(
    t: Tables,
    list: Seq<IncomingSmsView>,
    now: UtcTime,
    max_age: nat,
    i: int,
    secs: int,
)
    requires
        0 <= i < list.len(),
        !list[i].inbound || recorded(t, list[i]),
        list[i].text.len() > 0 || !list[i].inbound,
    ensures
        aged(list[i], now, secs) ==> (takes(t, list, now, max_age, i) <==> secs > max_age),
        ageless(list[i], now) ==> takes(t, list, now, max_age, i),
{
    lemma_takes(t, list, now, max_age, i);
    law_seen_is_stored(t, list[i]);
}

/// A received message that was not stored stays for a day whatever happens, and
/// as long as nobody can say how old it is; after that it is swept when it is
/// older than the greatest age.
pub proof fn law_unstored_stays_for_a_day(
    t: Tables,
    list: Seq<IncomingSmsView>,
    now: UtcTime,
    max_age: nat,
    i: int,
    secs: int,
)
    requires
        0 <= i < list.len(),
        list[i].inbound,
        list[i].text.len() > 0,
        !recorded(t, list[i]),
    ensures
        aged(list[i], now, secs) && secs < 24 * 60 * 60 ==> !takes(t, list, now, max_age, i),
        aged(list[i], now, secs) && secs >= 24 * 60 * 60 ==> (takes(t, list, now, max_age, i)
            <==> secs > max_age),
        ageless(list[i], now) ==> !takes(t, list, now, max_age, i),
{
    lemma_takes(t, list, now, max_age, i);
    law_seen_is_stored(t, list[i]);
}

/// A received message without text is stuck: after six hours it is swept.
pub proof fn law_stuck_is_swept(
    t: Tables,
    list: Seq<IncomingSmsView>,
    now: UtcTime,
    max_age: nat,
    i: int,
    secs: int,
)
    requires
        0 <= i < list.len(),
        list[i].inbound,
        list[i].text.len() == 0,
        aged(list[i], now, secs),
    ensures
        secs > 6 * 60 * 60 ==> takes(t, list, now, max_age, i),
        secs <= 6 * 60 * 60 && secs <= max_age ==> !takes(t, list, now, max_age, i),
{
    lemma_takes(t, list, now, max_age, i);
    law_seen_is_stored(t, list[i]);
}

/// What is deleted are the places of the messages that are swept, all of them
/// and no others.
pub proof fn law_swept_places_are_those_of_the_messages(
    t: Tables,
    list: Seq<IncomingSmsView>,
    now: UtcTime,
    max_age: nat,
    path: Seq<char>,
)
    ensures
        list.filter(to_sweep(t, now, max_age)).map_values(path_of()).contains(path) <==> exists|
            i: int,
        |
            0 <= i < list.len() && takes(t, list, now, max_age, i) && (#[trigger] list[i]).path
                == path,
{
    let p = to_sweep(t, now, max_age);
    let kept = list.filter(p);
    let paths = kept.map_values(path_of());
    if paths.contains(path) {
        let a = paths.index_of(path);
        let i = lemma_filter_from(list, p, a);
        lemma_takes(t, list, now, max_age, i);
        assert(list[i].path == path);
    }
    if exists|i: int|
        0 <= i < list.len() && takes(t, list, now, max_age, i) && (#[trigger] list[i]).path == path {
        let i = choose|i: int|
            0 <= i < list.len() && takes(t, list, now, max_age, i) && (#[trigger] list[i]).path
                == path;
        lemma_takes(t, list, now, max_age, i);
        let a = lemma_filter_keeps(list, p, i);
        assert(paths[a] == path);
    }
}

/// A message is too old when more than a day lies between its time and now, a
/// part of a second included. Without a time it is not.
pub proof fn law_too_old_is_over_a_day(ts: Seq<char>, now: UtcTime, then: UtcTime, e: Elapsed)
    ensures
        sms_time(ts) == Some(then) && time_between(then, now) == Some(e) ==> (too_old(ts, now)
            <==> e.secs > 24 * 60 * 60 || (e.secs == 24 * 60 * 60 && e.nanos > 0)),
        sms_time(ts) is None ==> !too_old(ts, now),
        sms_time(ts) == Some(then) && time_between(then, now) is None ==> !too_old(ts, now),
{
}

/// The time of a message is what its text says, or what it says with the minutes
/// of the zone added.
pub proof fn law_time_of_a_message(ts: Seq<char>)
    ensures
        ts.len() > 0 && rfc3339_time(ts) is Some ==> sms_time(ts) == rfc3339_time(ts),
        ts.len() > 0 && rfc3339_time(ts) is None ==> sms_time(ts) == rfc3339_time(ts + ":00"@),
        ts.len() == 0 ==> sms_time(ts) is None,
{
}

// ---------------------------------------------------------------------------
// The watchers
// ---------------------------------------------------------------------------

/// The owner is told that the modem went when it was there and is not, that it
/// came when it was not there and is, and nothing while it stays as it is.
pub proof fn law_changes_of_presence_are_told(seen: Seq<bool>, was: bool, now: bool)
    ensures
        changes(was, seq![]) == Seq::<PresenceEvent>::empty(),
        seen.len() > 0 && seen.last() == now || seen.len() == 0 && was == now ==> changes(
            was,
            seen.push(now),
        ) == changes(was, seen),
        seen.len() > 0 && seen.last() && !now || seen.len() == 0 && was && !now ==> changes(
            was,
            seen.push(now),
        ) == changes(was, seen).push(PresenceEvent::Offline),
        seen.len() > 0 && !seen.last() && now || seen.len() == 0 && !was && now ==> changes(
            was,
            seen.push(now),
        ) == changes(was, seen).push(PresenceEvent::Back),
        presence_words(PresenceEvent::Offline) == "modem offline"@,
        presence_words(PresenceEvent::Back) == "modem back"@,
    decreases seen.len(),
{
    if seen.len() == 0 {
        let one = seen.push(now);
        assert(one.skip(1) =~= Seq::<bool>::empty());
        assert(seen =~= Seq::<bool>::empty());
        reveal_with_fuel(changes, 2);
        assert(changes(was, one) =~= changes(was, seen) + match presence_change(was, now) {
            Some(e) => seq![e],
            None => Seq::empty(),
        });
    } else {
        let rest = seen.skip(1);
        law_changes_of_presence_are_told(rest, seen[0], now);
        assert(seen.push(now).skip(1) =~= rest.push(now));
        assert(seen.push(now)[0] == seen[0]);
        if rest.len() == 0 {
            assert(seen.last() == seen[0]);
        } else {
            assert(rest.last() == seen.last());
        }
        assert(changes(was, seen.push(now)) =~= match presence_change(was, seen[0]) {
            Some(e) => seq![e] + changes(seen[0], rest.push(now)),
            None => changes(seen[0], rest.push(now)),
        });
        if let Some(e) = presence_change(was, seen[0]) {
            let told = changes(seen[0], rest);
            assert(seq![e] + told.push(PresenceEvent::Offline) =~= (seq![e] + told).push(
                PresenceEvent::Offline,
            ));
            assert(seq![e] + told.push(PresenceEvent::Back) =~= (seq![e] + told).push(
                PresenceEvent::Back,
            ));
        }
    }
}

/// The inbox is looked through once it is subscribed to and whenever the time has
/// passed; what arrives is handled; and after a failure the watcher rests and
/// subscribes again.
pub proof fn law_inbox_is_watched_on(s: InboxState)
    ensures
        ({
            let after = inbox_next(InboxState::Subscribing, InboxEvent::Subscribed);
            after.1 == InboxAction::Drain && after.0 == InboxState::Listening
        }),
        ({
            let after = inbox_next(InboxState::Listening, InboxEvent::TimePassed);
            after.1 == InboxAction::Drain && after.0 == InboxState::Listening
        }),
        ({
            let after = inbox_next(InboxState::Listening, InboxEvent::Arrived);
            after.1 == InboxAction::Handle && after.0 == InboxState::Listening
        }),
        ({
            let failed = inbox_next(InboxState::Subscribing, InboxEvent::SubscribeFailed);
            let ended = inbox_next(InboxState::Listening, InboxEvent::StreamEnded);
            let again = inbox_next(failed.0, InboxEvent::TimePassed);
            &&& failed.1 == InboxAction::Rest
            &&& ended == failed
            &&& again.1 == InboxAction::Subscribe
            &&& again.0 == InboxState::Subscribing
        }),
        inbox_next(s, InboxEvent::Cancelled).1 == InboxAction::Stop,
        inbox_next(s, InboxEvent::Arrived).1 == InboxAction::Handle <==> s == InboxState::Listening,
{
}

} // verus!
