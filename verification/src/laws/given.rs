//! What the actions and the commands give back when they are called, said of the
//! stored rows and of the fields of their results.
use vstd::prelude::*;

use crate::actions::history::{list_chats, list_messages, ChatList, MessageList};
use crate::actions::identity::{Identity, IdentityView};
use crate::actions::numbers::{ignore, list_numbers, set_default_number, who, NumberState, Who};
use crate::actions::numbers::{IgnoreStep, NumberStep};
use crate::actions::open::{open_topic, OpenStep};
use crate::actions::search::search_contacts;
use crate::actions::sms::{send_sms, SmsStep};
use crate::actions::ActionError;
use crate::app::effect::Step;
use crate::config::{Config, ConfigError};
use crate::db::{Contact, Db, DbError, TodaySmsCounts};
use crate::decimal::int_text;
use crate::http::{action_to_response, ApiResponse};
use crate::laws::calls::{posts, texts};
use crate::laws::found::{
    default_topic_at, law_default_finds_its_topic, law_id_finds_its_contact,
    law_thread_finds_its_topic, owns, topic_of_at, topicless,
};
use crate::laws::identities::{law_contact_and_thread_must_agree, law_contact_stands_for_its_topic};
use crate::laws::overview::law_counts_are_those_of_the_rows;
use crate::laws::sending::law_sms_to_a_contact;
use crate::laws::settings::{
    law_numbers_are_those_of_their_variables, law_texts_are_those_of_their_variables, set_to,
};
use crate::laws::texts::solid;
use crate::laws::topics::{
    contact_topic, found_by, law_choice_sets_the_default, law_open_creates_the_topic,
    law_search_gives_the_first_matches, law_topic_is_ignored_whole, law_who_is_the_stored_contact,
};
use crate::modem::{ModemLive, Radio, Registration, SimStatus};
use crate::modem_mm::{modem_live, ModemProperties};
use crate::normalize::{normalized, NormalizeErrorView};
use crate::route::{plan_outbound, route_inbound, InboundDest, OutboundPlan};
use crate::rows::{opt_view, pair_views, views};
use crate::status::{format_status_html, StatusSnapshot};
use crate::tables::{numbers_of, InboundRowView, OutboundRowView};
use crate::telegram::handlers::{
    handle_help, handle_open, handle_who, read_message, OpenCmdStep, OwnerCommand, SayStep,
};
use crate::text::holds;

verus! {

// ---------------------------------------------------------------------------
// Topics
// ---------------------------------------------------------------------------

/// The one who is asked after in the topic of a contact is the contact, with the
/// topic's thread and default number and the stored numbers.
pub proof fn law_who_gives_the_contact(
    db: &Db,
    region: &str,
    id: &Identity,
    i: int,
    k: int,
    r: Result<Who, ActionError>,
    n: Result<NumberState, ActionError>,
)
    requires
        contact_topic(db@, i, k),
        topic_of_at(db@, db@.contacts[k].id, i),
        numbers_of(db@, db@.contacts[k].id).len() > 0,
        id.number is None,
        id.contact_id == Some(db@.contacts[k].id),
        id.thread_id == Some(db@.topics[i].topic.thread_id),
    ensures
        call_ensures(who, (db, region, id), r) ==> r is Ok && {
            let w = r->Ok_0;
            &&& w.thread_id == db@.topics[i].topic.thread_id
            &&& w.contact_id == Some(db@.contacts[k].id)
            &&& w.display_name@ == db@.contacts[k].display_name
            &&& views(w.numbers@) == numbers_of(db@, db@.contacts[k].id)
            &&& opt_view(w.default_e164) == db@.topics[i].topic.default_e164
        },
        call_ensures(list_numbers, (db, region, id), n) ==> n is Ok && {
            let s = n->Ok_0;
            &&& s.thread_id == db@.topics[i].topic.thread_id
            &&& views(s.numbers@) == numbers_of(db@, db@.contacts[k].id)
            &&& opt_view(s.default_e164) == db@.topics[i].topic.default_e164
        },
{
    let t = db@;
    let mode = crate::actions::identity::ResolveMode::RequireTopic;
    law_contact_and_thread_must_agree(t, region@, k, i, mode);
    law_who_is_the_stored_contact(t, region@, id@, i, k);
    let found = crate::actions::identity::resolution(t, region@, id@, mode)->Ok_0;
    crate::laws::identities::law_found_topic_is_told(t, region@, id@, found, t.topics[i].topic);
}

/// The number that is chosen in the topic of a contact becomes its default, and
/// that is told there.
pub proof fn law_chosen_number_becomes_the_default(
    db: &mut Db,
    region: &str,
    id: &Identity,
    number: &str,
    e164: Seq<char>,
    i: int,
    k: int,
    r: NumberStep,
)
    requires
        contact_topic(old(db)@, i, k),
        topic_of_at(old(db)@, old(db)@.contacts[k].id, i),
        id.number is None,
        id.contact_id == Some(old(db)@.contacts[k].id),
        id.thread_id == Some(old(db)@.topics[i].topic.thread_id),
        normalized(number@, region@) == Ok::<Seq<char>, NormalizeErrorView>(e164),
        owns(old(db)@, old(db)@.contacts[k].id, e164),
        call_ensures(set_default_number, (db, region, id, number), r),
    ensures
        posts(r, old(db)@.topics[i].topic.thread_id, "default is "@ + e164),
        final(db)@.topics[i].topic.default_e164 == Some(e164),
{
    let t = old(db)@;
    let mode = crate::actions::identity::ResolveMode::RequireTopic;
    law_contact_and_thread_must_agree(t, region@, k, i, mode);
    crate::laws::found::law_numbers_are_the_stored_ones(t, t.contacts[k].id, e164);
    law_id_finds_its_contact(t, k, t.contacts[k].id);
    law_choice_sets_the_default(t, region@, i, k, number@, e164);
}

/// Ignoring the topic of a contact has every stored number of the contact ignored.
pub proof fn law_ignored_topic_is_ignored_whole(
    db: &mut Db,
    region: &str,
    id: &Identity,
    i: int,
    k: int,
    e164: Seq<char>,
    r: IgnoreStep,
)
    requires
        contact_topic(old(db)@, i, k),
        topic_of_at(old(db)@, old(db)@.contacts[k].id, i),
        id.number is None,
        id.contact_id == Some(old(db)@.contacts[k].id),
        id.thread_id == Some(old(db)@.topics[i].topic.thread_id),
        numbers_of(old(db)@, old(db)@.contacts[k].id).contains(e164),
        call_ensures(ignore, (db, region, id), r),
    ensures
        final(db)@.ignored.contains(e164),
        r matches Step::Do(effect, _) && effect is Post,
{
    let t = old(db)@;
    let mode = crate::actions::identity::ResolveMode::AllowBareNumber;
    law_contact_and_thread_must_agree(t, region@, k, i, mode);
    law_topic_is_ignored_whole(t, region@, i, k);
    crate::laws::topics::law_only_the_given_are_ignored(
        t,
        numbers_of(t, t.contacts[k].id),
        e164,
    );
}

/// A contact that has a topic is opened there, and nothing is created; one that has
/// none gets one.
pub proof fn law_topic_is_opened_once(
    db: &Db,
    region: &str,
    id: &Identity,
    k: int,
    i: int,
    r: OpenStep,
)
    requires
        db@.wf(),
        0 <= k < db@.contacts.len(),
        id.number is None,
        id.contact_id == Some(db@.contacts[k].id),
        call_ensures(open_topic, (db, region, id), r),
    ensures
        topic_of_at(db@, db@.contacts[k].id, i) ==> (r matches Step::End(end) && end is Ok
            && end->Ok_0.thread_id == db@.topics[i].topic.thread_id && !end->Ok_0.created
            && end->Ok_0.title@ == db@.topics[i].topic.title),
        topicless(db@, db@.contacts[k].id) ==> (r matches Step::Do(effect, _)
            && effect is CreateTopic),
{
    if topic_of_at(db@, db@.contacts[k].id, i) {
        crate::laws::topics::law_open_gives_the_topic(db@, region@, id@, k, i);
    }
    if topicless(db@, db@.contacts[k].id) {
        law_open_creates_the_topic(db@, region@, id@, k, 0);
    }
}

/// A search gives contacts whose names match, the first twenty, as they are stored.
pub proof fn law_search_gives_stored_contacts(
    db: &Db,
    query: &str,
    r: Result<Vec<Contact>, ActionError>,
    i: int,
)
    requires
        solid(query@),
        call_ensures(search_contacts, (db, query), r),
    ensures
        r matches Ok(hits) ==> {
            let all = db@.contacts.filter(found_by(query@));
            &&& all.len() <= 20 ==> hits@.len() == all.len()
            &&& all.len() > 20 ==> hits@.len() == 20
            &&& 0 <= i < hits@.len() ==> hits@[i].id == all[i].id && hits@[i].display_name@
                == all[i].display_name && views(hits@[i].numbers@) == numbers_of(db@, all[i].id)
        },
        !db@.contacts_available ==> r is Err && r->Err_0 is ContactsUnavailable,
{
    law_search_gives_the_first_matches(db@, query@, i);
    if let Ok(hits) = r {
        if 0 <= i < hits@.len() {
            assert(views(hits@)[i] == hits@[i]@);
        }
    }
}

// ---------------------------------------------------------------------------
// Ways
// ---------------------------------------------------------------------------

/// A text for a contact with a topic goes to the topic's default number, as it is.
pub proof fn law_sms_for_a_contact_goes_to_the_modem(
    db: &mut Db,
    region: &str,
    id: &Identity,
    text: &str,
    reply_thread: i32,
    delete_enabled: bool,
    k: int,
    i: int,
    e164: Seq<char>,
    r: SmsStep,
)
    requires
        old(db)@.wf(),
        0 <= k < old(db)@.contacts.len(),
        id.number is None,
        id.contact_id == Some(old(db)@.contacts[k].id),
        id.thread_id is None,
        topic_of_at(old(db)@, old(db)@.contacts[k].id, i),
        old(db)@.topics[i].topic.thread_id != 1,
        old(db)@.topics[i].topic.default_e164 == Some(e164),
        solid(text@),
        call_ensures(send_sms, (db, region, id, text, reply_thread, None, delete_enabled), r),
    ensures
        texts(r, e164, text@),
        final(db)@ == old(db)@,
{
    let t = old(db)@;
    let mode = crate::actions::identity::ResolveMode::AllowBareNumber;
    law_contact_stands_for_its_topic(t, region@, k, i, mode);
    law_sms_to_a_contact(
        t,
        region@,
        id@,
        t.contacts[k].id,
        i,
        e164,
        text@,
        reply_thread,
        None,
        delete_enabled,
    );
}

/// A message of a topic's default number is led to the topic, an ignored one to
/// General; and what is written in the topic is led to that number.
pub proof fn law_ways_lead_both_ways(
    db: &mut Db,
    e164: &str,
    i: int,
    r: Result<InboundDest, DbError>,
    p: Result<OutboundPlan, DbError>,
)
    requires
        old(db)@.wf(),
        default_topic_at(old(db)@, e164@, i),
    ensures
        call_ensures(route_inbound, (db, e164), r) && !old(db)@.ignored.contains(e164@) ==> (
        r is Ok && (r->Ok_0 matches InboundDest::ExistingTopic { thread_id, .. } && thread_id
            == old(db)@.topics[i].topic.thread_id)),
        call_ensures(route_inbound, (db, e164), r) && old(db)@.ignored.contains(e164@) ==> (r is Ok
            && (r->Ok_0 matches InboundDest::General { e164: number } && number@ == e164@)),
        call_ensures(plan_outbound, (db, old(db)@.topics[i].topic.thread_id), p)
            && old(db)@.topics[i].topic.thread_id != 1 ==> (p is Ok && (
        p->Ok_0 matches OutboundPlan::Send { e164: number } && number@ == e164@)),
{
    law_default_finds_its_topic(old(db)@, e164@, i);
    law_thread_finds_its_topic(old(db)@, i, 0);
}

// ---------------------------------------------------------------------------
// Lists and the status
// ---------------------------------------------------------------------------

/// The messages of a topic are listed under its thread and title, as many as are
/// stored at most.
pub proof fn law_messages_are_listed_under_their_topic(
    db: &Db,
    region: &str,
    i: int,
    n: i64,
    r: Result<MessageList, ActionError>,
)
    requires
        db@.wf(),
        0 <= i < db@.topics.len(),
        db@.topics[i].topic.thread_id != 1,
        1 <= n <= 100,
        call_ensures(
            list_messages,
            (db, region, db@.topics[i].topic.thread_id, Some(n), &None, &None, &None, None),
            r,
        ),
    ensures
        r is Ok && {
            let list = r->Ok_0;
            &&& list.thread_id == db@.topics[i].topic.thread_id
            &&& list.title@ == db@.topics[i].topic.title
            &&& list.contact_id == db@.topics[i].topic.contact_id
            &&& views(list.messages@) == crate::db::history::messages_of(
                db@,
                db@.topics[i].topic.thread_id,
                n as int,
                None,
                None,
            )
            &&& list.next_before is Some <==> list.messages@.len() == n
        },
{
    law_thread_finds_its_topic(db@, i, 0);
    let page = crate::actions::history::PageView { limit: n, before: None, after: None };
    assert(crate::actions::history::page_asked(Some(n), None, None) == Ok::<
        crate::actions::history::PageView,
        crate::actions::ActionErrorView,
    >(page));
    let list = r->Ok_0;
    assert(views(list.messages@).len() == list.messages@.len());
}

/// The chats are listed, with the way on where there may be more.
pub proof fn law_chats_are_listed(db: &Db, n: i64, r: Result<ChatList, ActionError>)
    requires
        call_ensures(list_chats, (db, Some(n), &None, &None), r),
    ensures
        1 <= n <= 100 ==> r is Ok && views(r->Ok_0.chats@) == crate::db::history::chats_of(
            db@,
            n as int,
            None,
            None,
        ) && (r->Ok_0.next_before is Some <==> r->Ok_0.chats@.len() == n),
        n < 1 || n > 100 ==> r is Err && r->Err_0 is Validation,
{
    if 1 <= n <= 100 {
        assert(views(r->Ok_0.chats@).len() == r->Ok_0.chats@.len());
    }
}

/// The counts of a day are those of its rows.
pub proof fn law_counts_are_given(db: &Db, since: &str, r: Result<TodaySmsCounts, DbError>)
    requires
        db@.inbound.len() < 0x1_0000_0000,
        db@.outbound.len() < 0x1_0000_0000,
        call_ensures(Db::today_sms_counts, (db, since), r),
    ensures
        r is Ok,
        r->Ok_0.inbound == db@.inbound.filter(
            |row: InboundRowView| crate::collate::at_most(since@, row.created_at),
        ).len(),
        r->Ok_0.sent_ok == db@.outbound.filter(
            |row: OutboundRowView|
                crate::collate::at_most(since@, row.created_at) && row.result == "ok"@,
        ).len(),
        r->Ok_0.sent_fail == db@.outbound.filter(
            |row: OutboundRowView|
                crate::collate::at_most(since@, row.created_at) && row.result != "ok"@,
        ).len(),
{
    law_counts_are_those_of_the_rows(db@, since@);
}

/// The status tells the counts of the snapshot, each with its word.
pub proof fn law_status_tells_the_counts(snap: &StatusSnapshot, r: String)
    requires
        call_ensures(format_status_html, (snap,), r),
    ensures
        holds(
            r@,
            "<b>Today</b>\n↓ "@ + int_text(snap.today_in as int) + " received\n↑ "@ + int_text(
                snap.today_out_ok as int,
            ) + " sent\n✗ "@ + int_text(snap.today_out_fail as int) + " failed"@,
        ),
        snap.contacts_ok ==> "Contacts · OK"@.is_suffix_of(r@),
        !snap.contacts_ok ==> "Contacts · unavailable"@.is_suffix_of(r@),
{
    crate::laws::overview::law_card_tells_the_counts(snap@);
    crate::laws::overview::law_card_tells_the_last(snap@);
}

/// What is told of the modem is what its properties say.
pub proof fn law_modem_is_told(p: ModemProperties, r: ModemLive)
    requires
        call_ensures(modem_live, (p,), r),
    ensures
        r.signal_percent == p.signal_percent,
        r.rssi_dbm == p.rssi_dbm,
        p.registration == Some(1u32) ==> r.registration == Some(Registration::Home),
        p.registration == Some(5u32) ==> r.registration == Some(Registration::Roaming),
        p.access_technologies matches Some(bits) ==> (bits & 0x8000 != 0 ==> r.access_tech == Some(
            Radio::Nr,
        )),
        p.state == -1 && p.failed_reason == Some(2u32) ==> r.sim == SimStatus::Missing,
        p.state == 2 && p.unlock_required == Some(2u32) ==> r.sim == SimStatus::PinRequired,
        p.state == 8 ==> r.sim == SimStatus::Ready && r.state
            == crate::modem::ModemState::Registered,
{
    crate::laws::machine::law_live_says_what_the_properties_say(p);
    crate::laws::machine::law_states_by_number(p.state);
    if let Some(bits) = p.access_technologies {
        crate::laws::machine::law_newest_radio_is_told(bits);
    }
}

// ---------------------------------------------------------------------------
// Settings, errors and commands
// ---------------------------------------------------------------------------

/// The settings that are read are those of the variables.
pub proof fn law_settings_are_read(
    vars: &Vec<(String, String)>,
    complaint: Option<String>,
    r: Result<Config, ConfigError>,
    v: Seq<char>,
    n: int,
)
    requires
        call_ensures(Config::from_vars, (vars, complaint), r),
    ensures
        r matches Ok(c) ==> {
            let all = pair_views(vars@);
            &&& set_to(all, "TELEGRAM_BOT_TOKEN"@, v) ==> c.telegram_bot_token@ == v
            &&& set_to(all, "MODEM_UID"@, v) ==> c.modem_uid@ == v
            &&& set_to(all, "DATABASE_PATH"@, v) ==> c.database_path@ == v
            &&& set_to(all, "DEFAULT_REGION"@, v) ==> c.default_region@ == v
            &&& set_to(all, "API_BIND"@, v) ==> c.api_bind@ == v
            &&& set_to(all, "API_KEY"@, v) ==> opt_view(c.api_key) == Some(v)
            &&& i64::MIN <= n <= i64::MAX && set_to(all, "TELEGRAM_USER_ID"@, int_text(n))
                ==> c.telegram_user_id == n
            &&& i64::MIN <= n <= i64::MAX && set_to(all, "TELEGRAM_GROUP_ID"@, int_text(n))
                ==> c.telegram_group_id == n
            &&& 0 <= n <= u16::MAX && set_to(all, "API_PORT"@, int_text(n)) ==> c.api_port == n
        },
{
    let all = pair_views(vars@);
    law_texts_are_those_of_their_variables(all, v);
    law_numbers_are_those_of_their_variables(all, n, Seq::empty());
}

/// An error is answered with its status.
pub proof fn law_errors_have_their_status(err: ActionError, r: ApiResponse)
    requires
        call_ensures(action_to_response, (err,), r),
    ensures
        err is MissingIdentity || err is Validation || err is InvalidNumber ==> r.status == 400,
        err is NotFound ==> r.status == 404,
        err is IdentityConflict || err is NeedDefaultNumber ==> r.status == 409,
        err is ModemFailed || err is TelegramFailed ==> r.status == 502,
        err is ContactsUnavailable || err is ModemUnavailable ==> r.status == 503,
        err is ForwardFailed || err is Db || err is App ==> r.status == 500,
        r.message@ == err@.words(),
{
    crate::laws::answers::law_errors_are_answered(err@);
}

/// A text that is no command is for the contact of the topic, and in General for
/// nobody; help is told where it was asked for, and General tells itself.
pub proof fn law_commands_are_read_and_answered(
    db: &Db,
    region: &str,
    text: &str,
    thread_id: i32,
    c: OwnerCommand,
    said: SayStep<()>,
)
    ensures
        call_ensures(read_message, (text, thread_id), c) && !crate::text::begins(text@, "/"@) ==> (
        thread_id != 1 ==> c is Text) && (thread_id == 1 ==> c is Nothing),
        call_ensures(handle_help, (thread_id,), said) ==> posts(
            said,
            thread_id,
            crate::telegram::parse::HELP@,
        ),
        call_ensures(handle_who, (db, region, 1), said) ==> posts(said, 1, "this is General"@),
{
    if !crate::text::begins(text@, "/"@) {
        crate::laws::commands::law_plain_text_is_no_command(text@, thread_id);
    }
}

/// A contact who has a topic is told the way to it where the owner asked.
pub proof fn law_opened_contact_is_told_the_way(
    db: &Db,
    group_id: i64,
    reply_thread: i32,
    k: int,
    i: int,
    r: OpenCmdStep,
)
    requires
        db@.wf(),
        0 <= k < db@.contacts.len(),
        topic_of_at(db@, db@.contacts[k].id, i),
        call_ensures(handle_open, (db, group_id, reply_thread, db@.contacts[k].id), r),
    ensures
        posts(
            r,
            reply_thread,
            crate::telegram::parse::open_message(group_id, db@.topics[i].topic),
        ),
{
    reveal_strlit("");
    let id = IdentityView {
        number: None,
        contact_id: Some(db@.contacts[k].id),
        thread_id: None,
    };
    crate::laws::topics::law_open_gives_the_topic(db@, ""@, id, k, i);
    law_thread_finds_its_topic(db@, i, 0);
}

/// A number that may not be chosen is refused and changes nothing.
pub proof fn law_strange_number_is_not_chosen(
    db: &mut Db,
    region: &str,
    id: &Identity,
    number: &str,
    e164: Seq<char>,
    i: int,
    k: int,
    r: NumberStep,
)
    requires
        contact_topic(old(db)@, i, k),
        topic_of_at(old(db)@, old(db)@.contacts[k].id, i),
        numbers_of(old(db)@, old(db)@.contacts[k].id).len() > 0,
        id.number is None,
        id.contact_id == Some(old(db)@.contacts[k].id),
        id.thread_id == Some(old(db)@.topics[i].topic.thread_id),
        normalized(number@, region@) == Ok::<Seq<char>, NormalizeErrorView>(e164),
        !owns(old(db)@, old(db)@.contacts[k].id, e164),
        call_ensures(set_default_number, (db, region, id, number), r),
    ensures
        r matches Step::End(end) && end is Err && end->Err_0 is Validation,
        final(db)@ == old(db)@,
{
    let t = old(db)@;
    let mode = crate::actions::identity::ResolveMode::RequireTopic;
    law_contact_and_thread_must_agree(t, region@, k, i, mode);
    crate::laws::found::law_numbers_are_the_stored_ones(t, t.contacts[k].id, e164);
    law_id_finds_its_contact(t, k, t.contacts[k].id);
}

} // verus!
