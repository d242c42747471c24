//! What the modem's values and errors are read as, and how its messages are
//! fetched.
use vstd::prelude::*;

use crate::modem::{
    best_radio, lemma_masks, state_label, IncomingSmsView, ModemErrorView, ModemState, Radio,
    Registration, SimStatus,
};
use crate::modem_mm::{
    after_failure, already_gone, live_of, load_next, modem_path, path_resolved, received,
    state_of_mm, BusError, LoadStepView, ModemProperties, PathAt, PathStepView,
};
use crate::text::holds;

verus! {

/// What was delivered is received, what was submitted is not, and of anything else
/// the number tells: without one nobody sent it.
pub proof fn law_deliveries_are_received(pdu_type: u32, number: Seq<char>)
    ensures
        pdu_type == 1 ==> received(pdu_type, number),
        pdu_type == 2 ==> !received(pdu_type, number),
        pdu_type != 1 && pdu_type != 2 && number.len() > 0 ==> received(pdu_type, number),
        pdu_type != 1 && pdu_type != 2 && number.len() == 0 ==> !received(pdu_type, number),
{
}

/// A message is read again only while its text is missing or it cannot be read:
/// one with a text, or one that was sent, is given as it is, at the first
/// reading; and after twenty readings what was read last is given.
pub proof fn law_message_is_read_until_whole(
    attempts: nat,
    sms: IncomingSmsView,
    e: ModemErrorView,
)
    ensures
        sms.text.len() > 0 || !sms.inbound ==> load_next(attempts, Ok(sms)) == LoadStepView::End(
            Ok(sms),
        ),
        sms.text.len() == 0 && sms.inbound && attempts < 20 ==> load_next(attempts, Ok(sms))
            == LoadStepView::Again(attempts + 1),
        attempts >= 20 ==> load_next(attempts, Ok(sms)) == LoadStepView::End(Ok(sms)),
        attempts < 19 ==> load_next(attempts, Err(e)) == LoadStepView::Again(attempts + 1),
        attempts >= 19 ==> load_next(attempts, Err(e)) == LoadStepView::End(Err(e)),
{
}

/// A message that is to be deleted is gone already when the bus says that its
/// object is unknown or that there is no such message, and not otherwise.
pub proof fn law_gone_is_told_by_the_bus(e: BusError)
    ensures
        e matches BusError::Standard { unknown_object } ==> already_gone(e) == unknown_object,
        e matches BusError::Method { name } ==> (already_gone(e) <==> name@
            == "org.freedesktop.DBus.Error.UnknownObject"@ || name@
            == "org.freedesktop.ModemManager1.Error.Core.NotFound"@),
        e matches BusError::Other { text } ==> (already_gone(e) <==> holds(
            text@,
            "UnknownObject"@,
        ) || holds(text@, "org.freedesktop.ModemManager1.Error.Core.NotFound"@) || holds(
            text@,
            "No SMS found"@,
        )),
{
}

/// The modem is found by its own name: at the first of the objects that bears it.
pub proof fn law_modem_is_found_by_name(
    objects: Seq<(Seq<char>, Option<Seq<char>>)>,
    uid: Seq<char>,
    i: int,
)
    ensures
        0 <= i < objects.len() && objects[i].1 == Some(uid) && (forall|j: int|
            0 <= j < i ==> (#[trigger] objects[j]).1 != Some(uid)) ==> modem_path(objects, uid)
            == Some(objects[i].0),
        (forall|j: int| 0 <= j < objects.len() ==> (#[trigger] objects[j]).1 != Some(uid))
            ==> modem_path(objects, uid) is None,
    decreases objects.len(),
{
    if objects.len() > 0 {
        let rest = objects.skip(1);
        law_modem_is_found_by_name(rest, uid, i - 1);
        if 0 < i < objects.len() && objects[i].1 == Some(uid) && (forall|j: int|
            0 <= j < i ==> (#[trigger] objects[j]).1 != Some(uid)) {
            assert(rest[i - 1] == objects[i]);
            assert forall|j: int| 0 <= j < i - 1 implies (#[trigger] rest[j]).1 != Some(uid) by {
                assert(rest[j] == objects[j + 1]);
            }
            assert(objects[0].1 != Some(uid));
        }
        if forall|j: int| 0 <= j < objects.len() ==> (#[trigger] objects[j]).1 != Some(uid) {
            assert forall|j: int| 0 <= j < rest.len() implies (#[trigger] rest[j]).1 != Some(
                uid,
            ) by {
                assert(rest[j] == objects[j + 1]);
            }
            assert(objects[0].1 != Some(uid));
        }
    }
}

/// A place that is known is used, and one that is not is looked for. A failure
/// that says that nothing is there has it looked for again, once; any other is
/// told.
pub proof fn law_modem_is_looked_for_again_once(
    path: Seq<char>,
    again: bool,
    words: Seq<char>,
    e: ModemErrorView,
)
    ensures
        path_resolved(Some(path), again) == PathStepView::Run(path, PathAt::Running { again }),
        path_resolved(None, again) == PathStepView::Lookup(PathAt::Looking { again }),
        after_failure(false, ModemErrorView::NotFound(words)) == PathStepView::Lookup(
            PathAt::Looking { again: true },
        ),
        holds(words, "UnknownObject"@) || holds(
            words,
            "org.freedesktop.ModemManager1.Error.Core.NotFound"@,
        ) ==> after_failure(false, ModemErrorView::Failed(words)) == PathStepView::Lookup(
            PathAt::Looking { again: true },
        ),
        !holds(words, "UnknownObject"@) && !holds(
            words,
            "org.freedesktop.ModemManager1.Error.Core.NotFound"@,
        ) ==> after_failure(false, ModemErrorView::Failed(words)) == PathStepView::Fail(
            ModemErrorView::Failed(words),
        ),
        after_failure(true, e) == PathStepView::Fail(e),
{
}

/// The states of the modem, by their numbers.
pub proof fn law_states_by_number(v: i32)
    ensures
        v == -1 ==> state_of_mm(v) == ModemState::Failed,
        v == 0 ==> state_of_mm(v) == ModemState::Unknown,
        v == 1 ==> state_of_mm(v) == ModemState::Initializing,
        v == 2 ==> state_of_mm(v) == ModemState::Locked,
        v == 3 ==> state_of_mm(v) == ModemState::Disabled,
        v == 4 ==> state_of_mm(v) == ModemState::Disabling,
        v == 5 ==> state_of_mm(v) == ModemState::Enabling,
        v == 6 ==> state_of_mm(v) == ModemState::Enabled,
        v == 7 ==> state_of_mm(v) == ModemState::Searching,
        v == 8 ==> state_of_mm(v) == ModemState::Registered,
        v == 9 ==> state_of_mm(v) == ModemState::Disconnecting,
        v == 10 ==> state_of_mm(v) == ModemState::Connecting,
        v == 11 ==> state_of_mm(v) == ModemState::Connected,
        v < -1 || v > 11 ==> state_of_mm(v) == ModemState::Unknown,
{
}

/// The states of the modem, by their words.
pub proof fn law_states_by_word(s: ModemState)
    ensures
        state_label(ModemState::Failed) == "Failed"@,
        state_label(ModemState::Unknown) == "Unknown"@,
        state_label(ModemState::Initializing) == "Initializing"@,
        state_label(ModemState::Locked) == "Locked"@,
        state_label(ModemState::Disabled) == "Disabled"@,
        state_label(ModemState::Disabling) == "Disabling"@,
        state_label(ModemState::Enabling) == "Enabling"@,
        state_label(ModemState::Enabled) == "Enabled"@,
        state_label(ModemState::Searching) == "Searching"@,
        state_label(ModemState::Registered) == "Registered"@,
        state_label(ModemState::Disconnecting) == "Disconnecting"@,
        state_label(ModemState::Connecting) == "Connecting"@,
        state_label(ModemState::Connected) == "Connected"@,
{
}

/// Of the radios that the modem uses the newest is told.
pub proof fn law_newest_radio_is_told(bits: u32)
    ensures
        bits & 0x8000 != 0 ==> best_radio(bits) == Some(Radio::Nr),
        bits & 0x8000 == 0 && bits & 0x4000 != 0 ==> best_radio(bits) == Some(Radio::Lte),
        bits & 0x8000 == 0 && bits & 0x4000 == 0 && bits & 0x3e0 != 0 ==> best_radio(bits) == Some(
            Radio::Umts,
        ),
        bits & 0x8000 == 0 && bits & 0x4000 == 0 && bits & 0x3e0 == 0 && bits & 0x1e != 0
            ==> best_radio(bits) == Some(Radio::Gsm),
        bits & 0x8000 == 0 && bits & 0x4000 == 0 && bits & 0x3e0 == 0 && bits & 0x1e == 0
            ==> best_radio(bits) is None,
{
    lemma_masks(bits);
}

/// What is told of the modem is what its properties say.
pub proof fn law_live_says_what_the_properties_say(p: ModemProperties)
    ensures
        live_of(p).signal_percent == p.signal_percent,
        live_of(p).rssi_dbm == p.rssi_dbm,
        live_of(p).state == state_of_mm(p.state),
        p.operator matches Some(name) ==> (name@.len() > 0 ==> live_of(p).operator == Some(name@)),
        p.operator matches Some(name) ==> (name@.len() == 0 ==> live_of(p).operator is None),
        p.operator is None ==> live_of(p).operator is None,
        p.registration == Some(1u32) || p.registration == Some(6u32) ==> live_of(p).registration
            == Some(Registration::Home),
        p.registration == Some(5u32) || p.registration == Some(7u32) ==> live_of(p).registration
            == Some(Registration::Roaming),
        p.registration is None ==> live_of(p).registration is None,
        p.registration matches Some(v) ==> (v != 1 && v != 6 && v != 5 && v != 7 ==> live_of(
            p,
        ).registration is None),
        p.access_technologies matches Some(bits) ==> live_of(p).access_tech == best_radio(bits),
        p.access_technologies is None ==> live_of(p).access_tech is None,
        p.state == -1 && p.failed_reason == Some(2u32) ==> live_of(p).sim == SimStatus::Missing,
        p.state == 2 && p.unlock_required == Some(2u32) ==> live_of(p).sim
            == SimStatus::PinRequired,
        p.state != -1 && p.state != 2 ==> live_of(p).sim == SimStatus::Ready,
        p.failed_reason != Some(2u32) && p.unlock_required != Some(2u32) ==> live_of(p).sim
            == SimStatus::Ready,
{
}

} // verus!
