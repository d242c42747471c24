//! What the functions give back when they are called, said of their arguments and
//! of the fields of their results.
use vstd::prelude::*;

use crate::app::effect::{Effect, Step};
use crate::app::incoming::{deliver_incoming, handle_incoming, IncomingStep};
use crate::app::owner::{handle_owner_text, OwnerStep};
use crate::app::send::{send_and_ack, SendJob, SendStep};
use crate::app::sweep::sweep_old_sms;
use crate::call_forward::{
    ccfc_disable, ccfc_enable, ccfc_query, ussd_disable, ussd_enable, ussd_query,
};
use crate::clock::{Moment, UtcTime};
use crate::db::history::MessageRow;
use crate::db::{Contact, Db, DbError, Topic};
use crate::decimal::int_text;
use crate::google::{
    check_state, classify_send_err, contacts_from_people, next_page, sync_start, token_lifetime,
    unparsable_token, unreadable_token, CachedToken, GoogleError, ParsedContact, Person, SyncAction,
    SyncAt, TokenCache,
};
use crate::http::{
    api_method_not_allowed, api_not_found, authorized, reply_thread, unauthorized, ApiResponse,
};
use crate::laws::found::{law_number_finds_its_contact, law_thread_finds_its_topic};
use crate::laws::history::{law_page_shows_the_rows, row_in};
use crate::laws::people::{has_resource, law_every_person_becomes_a_contact, phones};
use crate::laws::receiving::{
    belongs_at, law_message_appears_in_its_topic, unrecorded, writes_from_elsewhere,
};
use crate::laws::sending::{is_command, law_typed_text_goes_to_the_default};
use crate::laws::sweeping::{law_swept_places_are_those_of_the_messages, takes};
use crate::laws::texts::joined;
use crate::laws::topics::{law_who_marks_the_default_only, tells_numbers};
use crate::modem::{IncomingSms, ModemError};
use crate::modem_mm::{
    disable_forward, loaded_sms, lookup_path, path_found, query_forward, rssi_from_signal,
    ForwardStep, PathCache, PathStep, Rsrp,
};
use crate::normalize::{normalized, NormalizeErrorView};
use crate::rows::{opt_view, views};
use crate::telegram::cards::{card_begun, contact_prompt, number_prompt, Card, CardStep};
use crate::telegram::keyboards::{
    article_message, forward_number_keyboard, number_keyboard, search_keyboard, status_keyboard,
    Keyboard,
};
use crate::telegram::parse::{
    allow_dm_callback, allowed, format_who, is_owner_dm, parse_status_refresh,
};
use crate::text::digits_of;

verus! {

// ---------------------------------------------------------------------------
// Messages
// ---------------------------------------------------------------------------

/// The step asks for a text to be posted in a thread.
pub open spec fn posts<K, R>(step: Step<K, R>, thread: i32, words: Seq<char>) -> bool {
    &&& step is Do
    &&& step->Do_0 matches Effect::Post { thread_id, text }
    &&& thread_id == thread
    &&& text@ == words
}

/// The step asks the modem to send a text to a number.
pub open spec fn texts<K, R>(step: Step<K, R>, number: Seq<char>, words: Seq<char>) -> bool {
    &&& step is Do
    &&& step->Do_0 matches Effect::SendSms { e164, text }
    &&& e164@ == number
    &&& text@ == words
}

/// A received message is posted in the thread of the topic that its number belongs
/// to, as it was written.
pub proof fn law_received_message_is_posted_in_its_topic(
    db: &mut Db,
    region: &str,
    sms: IncomingSms,
    delete: bool,
    now: &Moment,
    e164: Seq<char>,
    i: int,
    r: IncomingStep,
)
    requires
        normalized(sms.e164@, region@) == Ok::<Seq<char>, NormalizeErrorView>(e164),
        unrecorded(old(db)@, sms@, e164),
        !crate::app::sweep::too_old(sms.timestamp@, now.time),
        !old(db)@.ignored.contains(e164),
        belongs_at(old(db)@, e164, i),
        !writes_from_elsewhere(old(db)@, e164),
        call_ensures(handle_incoming, (db, region, sms, delete, now), r),
    ensures
        posts(r, old(db)@.topics[i].topic.thread_id, sms.text@),
{
    law_message_appears_in_its_topic(
        old(db)@,
        region@,
        sms@,
        delete,
        *now,
        e164,
        i,
        old(db)@,
    );
}

/// A message that is delivered is posted in the thread of the topic whose default
/// number it came from, and in General, below its number, when nobody is known by
/// the number.
pub proof fn law_delivered_message_is_posted(
    db: &mut Db,
    sms: IncomingSms,
    delete: bool,
    e164: &str,
    i: int,
    r: IncomingStep,
)
    requires
        !old(db)@.ignored.contains(e164@),
        call_ensures(deliver_incoming, (db, sms, delete, e164), r),
    ensures
        crate::laws::found::default_topic_at(old(db)@, e164@, i)
            && crate::laws::found::nobodys_number(old(db)@, e164@) ==> posts(
            r,
            old(db)@.topics[i].topic.thread_id,
            sms.text@,
        ),
        crate::laws::found::nobodys_default(old(db)@, e164@)
            && crate::laws::found::nobodys_number(old(db)@, e164@) ==> posts(
            r,
            1,
            e164@ + "\n"@ + sms.text@,
        ),
{
    crate::laws::found::law_default_finds_its_topic(old(db)@, e164@, i);
    law_number_finds_its_contact(old(db)@, e164@, 0);
}

/// A text that is no answer goes to the modem as it is, to the number it is for.
pub proof fn law_text_goes_to_the_modem(job: SendJob, r: SendStep)
    requires
        job.reply_to is None,
        call_ensures(send_and_ack, (job,), r),
    ensures
        texts(r, job.e164@, job.text@),
{
}

/// What the owner types in a topic with a default number goes to that number, as
/// it was typed.
pub proof fn law_typed_text_goes_to_the_modem(
    db: &mut Db,
    region: &str,
    i: int,
    text: &str,
    delete_enabled: bool,
    e164: Seq<char>,
    r: OwnerStep,
)
    requires
        old(db)@.wf(),
        0 <= i < old(db)@.topics.len(),
        old(db)@.topics[i].topic.thread_id != 1,
        old(db)@.topics[i].topic.default_e164 == Some(e164),
        !is_command(text@),
        call_ensures(
            handle_owner_text,
            (db, region, old(db)@.topics[i].topic.thread_id, text, None, delete_enabled),
            r,
        ),
    ensures
        texts(r, e164, text@),
        final(db)@ == old(db)@,
{
    law_typed_text_goes_to_the_default(
        old(db)@,
        i,
        text@,
        None,
        delete_enabled,
        e164,
        old(db)@,
    );
}

/// The message tells a stored row: how it went, which way, to or from whom, what
/// and when.
pub open spec fn tells_row(t: crate::tables::Tables, m: MessageRow, thread_id: i32) -> bool {
    ||| exists|r: int|
        {
            &&& 0 <= r < t.outbound.len()
            &&& row_in((#[trigger] t.outbound[r]).thread_id, thread_id)
            &&& t.outbound[r].result == "ok"@ ==> m.status@ == "ok"@
            &&& t.outbound[r].result != "ok"@ ==> m.status@ == "failed"@
            &&& m.direction@ == "out"@
            &&& m.e164@ == t.outbound[r].e164
            &&& m.body@ == t.outbound[r].body
            &&& m.timestamp@ == t.outbound[r].created_at
        }
    ||| exists|r: int|
        {
            &&& 0 <= r < t.inbound.len()
            &&& row_in((#[trigger] t.inbound[r]).thread_id, thread_id)
            &&& m.status@ == "ok"@
            &&& m.direction@ == "in"@
            &&& m.e164@ == t.inbound[r].e164
            &&& m.body@ == t.inbound[r].body
            &&& m.timestamp@ == t.inbound[r].created_at
        }
}

/// The messages of a thread are its rows: what failed is told as failed, and what
/// went well as that.
pub proof fn law_listed_messages_tell_their_rows(
    db: &Db,
    thread_id: i32,
    limit: i64,
    before: &Option<String>,
    after: &Option<String>,
    r: Result<Vec<MessageRow>, DbError>,
    i: int,
)
    requires
        call_ensures(Db::messages_for_thread, (db, thread_id, limit, before, after), r),
    ensures
        r matches Ok(list) && (0 <= i < list@.len() ==> tells_row(db@, list@[i], thread_id)),
{
    let list = r->Ok_0;
    if 0 <= i < list@.len() {
        let page = crate::db::history::messages_of(
            db@,
            thread_id,
            limit as int,
            opt_view(*before),
            opt_view(*after),
        );
        assert(views(list@)[i] == list@[i]@);
        law_page_shows_the_rows(
            db@,
            thread_id,
            limit as int,
            opt_view(*before),
            opt_view(*after),
            i,
        );
    }
}

/// Every person of a page who can be told from others is among the contacts, under
/// their own resource and name.
pub proof fn law_every_person_is_among_the_contacts(
    people: &Vec<Person>,
    region: &str,
    r: Vec<ParsedContact>,
    i: int,
)
    requires
        call_ensures(contacts_from_people, (people, region), r),
    ensures
        r@.len() == views(people@).filter(has_resource()).len(),
        0 <= i < people@.len() && people@[i].resource_name is Some ==> exists|k: int|
            {
                &&& 0 <= k < r@.len()
                &&& (#[trigger] r@[k]).0@ == people@[i].resource_name->0@
                &&& people@[i].names@.len() > 0 && people@[i].names@[0] is Some
                    && people@[i].names@[0]->0@.len() > 0 ==> r@[k].1@ == people@[i].names@[0]->0@
                &&& forall|e164: Seq<char>| #[trigger]
                    views(r@[k].2@).contains(e164) <==> phones(people@[i]@, region@, e164)
            },
{
    let all = views(people@);
    law_every_person_becomes_a_contact(all, region@, i);
    let found = crate::google::contacts_of(all, region@);
    assert(found.len() == r@.len());
    if 0 <= i < people@.len() && people@[i].resource_name is Some {
        assert(all[i] == people@[i]@);
        let k = all.take(i).filter(has_resource()).len() as int;
        assert(found[k] == crate::google::parsed_view(r@[k]));
        assert(r@[k].0@ == people@[i].resource_name->0@);
        if people@[i].names@.len() > 0 {
            assert(people@[i]@.names[0] == opt_view(people@[i].names@[0]));
        }
    }
}

/// Who is told by the name, or else the title, and below it every number, the
/// default one marked and no other.
pub proof fn law_who_is_told_with_one_mark(
    topic: &Topic,
    name: Option<&str>,
    numbers: &[String],
    lines: Seq<Seq<char>>,
    r: String,
)
    requires
        tells_numbers(lines, views(numbers@), opt_view(topic.default_e164)),
        call_ensures(format_who, (topic, name, numbers), r),
    ensures
        name is Some ==> r@ == joined(seq![name->0@] + lines, '\n'),
        name is None ==> r@ == joined(seq![topic.title@] + lines, '\n'),
{
    law_who_marks_the_default_only(topic@, opt_view(name), views(numbers@), lines);
}

/// The places that are swept are those of the messages that are to go.
pub proof fn law_swept_are_the_places_of_the_old(
    db: &Db,
    list: &Vec<IncomingSms>,
    now: UtcTime,
    max_age: u64,
    r: Vec<String>,
    i: int,
)
    requires
        0 <= i < list@.len(),
        call_ensures(sweep_old_sms, (db, list, now, max_age), r),
    ensures
        takes(db@, views(list@), now, max_age as nat, i) ==> views(r@).contains(list@[i].path@),
        views(r@).contains(list@[i].path@) ==> exists|k: int|
            0 <= k < list@.len() && (#[trigger] list@[k]).path@ == list@[i].path@ && takes(
                db@,
                views(list@),
                now,
                max_age as nat,
                k,
            ),
{
    let all = views(list@);
    assert(all[i] == list@[i]@);
    law_swept_places_are_those_of_the_messages(db@, all, now, max_age as nat, list@[i].path@);
    if views(r@).contains(list@[i].path@) {
        let k = choose|k: int|
            0 <= k < all.len() && takes(db@, all, now, max_age as nat, k) && (#[trigger] all[k]).path
                == list@[i].path@;
        assert(all[k] == list@[k]@);
        assert(list@[k].path@ == list@[i].path@);
    }
}

// ---------------------------------------------------------------------------
// Forwarding and the modem
// ---------------------------------------------------------------------------

/// The codes that are dialled.
pub proof fn law_dialled_codes(e164: &str, r: String, code: &'static str, step: ForwardStep)
    ensures
        call_ensures(ussd_query, (), code) ==> code@ == "*#21#"@,
        call_ensures(ussd_disable, (), code) ==> code@ == "#21#"@,
        call_ensures(ussd_enable, (e164,), r) ==> r@ == "*21*"@ + digits_of(e164@) + "#"@,
        call_ensures(ccfc_query, (), code) ==> code@ == "AT+CCFC=0,2"@,
        call_ensures(ccfc_disable, (), code) ==> code@ == "AT+CCFC=0,4"@,
        call_ensures(ccfc_enable, (e164,), r) ==> r@ == "AT+CCFC=0,3,\""@ + e164@ + "\",145"@,
        call_ensures(query_forward, (), step) ==> (step matches ForwardStep::Dial(dialled, flow)
            && dialled@ == "*#21#"@ && flow is Asking),
        call_ensures(disable_forward, (), step) ==> (step matches ForwardStep::Dial(dialled, flow)
            && dialled@ == "#21#"@ && flow is Applying && !flow->Applying_wanted.enabled
            && flow->Applying_wanted.e164 is None),
{
}

/// A message of the modem is read as it is, and the signal is that of the newest
/// radio that gives one.
pub proof fn law_modem_values_are_read(
    path: String,
    number: String,
    text: String,
    timestamp: Option<String>,
    sms: IncomingSms,
    rsrp: Rsrp,
    lte: Option<i32>,
    umts: Option<i32>,
    gsm: Option<i32>,
    dbm: Option<i32>,
)
    ensures
        call_ensures(loaded_sms, (path, number, text, 1u32, timestamp), sms) ==> {
            &&& sms.path@ == path@ && sms.e164@ == number@ && sms.text@ == text@ && sms.inbound
            &&& timestamp matches Some(ts) ==> sms.timestamp@ == ts@
            &&& timestamp is None ==> sms.timestamp@.len() == 0
        },
        call_ensures(rssi_from_signal, (Some(rsrp), lte, umts, gsm), dbm) && rsrp.real ==> dbm
            == Some(rsrp.dbm),
        call_ensures(rssi_from_signal, (None, lte, umts, gsm), dbm) ==> {
            &&& lte is Some ==> dbm == lte
            &&& lte is None && umts is Some ==> dbm == umts
            &&& lte is None && umts is None ==> dbm == gsm
        },
{
}

/// The modem that was found is kept and used there; one that was not is an error
/// that names it.
pub proof fn law_found_modem_is_kept(
    objects: &Vec<(String, Option<String>)>,
    uid: &str,
    found: Result<String, ModemError>,
    cache: &mut PathCache,
    again: bool,
    step: PathStep,
    path: String,
)
    ensures
        call_ensures(lookup_path, (objects, uid), found) && (forall|i: int|
            0 <= i < objects@.len() ==> opt_view((#[trigger] objects@[i]).1) != Some(uid@)) ==> (
        found is Err && found->Err_0 is NotFound && found->Err_0->NotFound_0@ == uid@),
        call_ensures(path_found, (cache, again, Ok(path)), step) ==> final(cache)@ == Some(path@)
            && (step matches PathStep::Run(at, _) && at@ == path@),
{
    let all = crate::modem_mm::object_views(objects@);
    if forall|i: int|
        0 <= i < objects@.len() ==> opt_view((#[trigger] objects@[i]).1) != Some(uid@) {
        assert forall|i: int| 0 <= i < all.len() implies (#[trigger] all[i]).1 != Some(uid@) by {
            assert(all[i].1 == opt_view(objects@[i].1));
        }
        crate::laws::machine::law_modem_is_found_by_name(all, uid@, -1);
    }
}

// ---------------------------------------------------------------------------
// Buttons and cards
// ---------------------------------------------------------------------------

/// The row has a single button.
pub open spec fn one_button(k: Keyboard, i: int, text: Seq<char>, data: Seq<char>) -> bool {
    &&& 0 <= i < k.inline_keyboard@.len()
    &&& k.inline_keyboard@[i]@.len() == 1
    &&& k.inline_keyboard@[i]@[0].text@ == text
    &&& k.inline_keyboard@[i]@[0].data@ == data
}

proof fn lemma_row(k: Keyboard, i: int, text: Seq<char>, data: Seq<char>)
    requires
        0 <= i < k@.len(),
        k@[i] == seq![(text, data)],
    ensures
        one_button(k, i, text, data),
{
    let row = views(k.inline_keyboard@[i]@);
    assert(k@[i] == row);
    assert(row.len() == k.inline_keyboard@[i]@.len());
    assert(row[0] == k.inline_keyboard@[i]@[0]@);
}

/// A keyboard has a button for each number and for each contact, one to a row, in
/// their order.
pub proof fn law_keyboards_have_a_button_for_each(
    numbers: &[String],
    hits: &[Contact],
    i: int,
    k: Keyboard,
)
    ensures
        call_ensures(number_keyboard, (numbers,), k) ==> k.inline_keyboard@.len() == numbers@.len()
            && (0 <= i < numbers@.len() ==> one_button(k, i, numbers@[i]@, "num:"@ + numbers@[i]@)),
        call_ensures(forward_number_keyboard, (numbers,), k) ==> k.inline_keyboard@.len()
            == numbers@.len() && (0 <= i < numbers@.len() ==> one_button(
            k,
            i,
            numbers@[i]@,
            "cf:n:"@ + numbers@[i]@,
        )),
        call_ensures(search_keyboard, (hits,), k) && hits@.len() <= 20 ==> k.inline_keyboard@.len()
            == hits@.len() && (0 <= i < hits@.len() && 1 <= hits@[i].display_name@.len() <= 64
            ==> one_button(
            k,
            i,
            hits@[i].display_name@,
            "open:"@ + int_text(hits@[i].id as int),
        )),
        call_ensures(status_keyboard, (), k) ==> k.inline_keyboard@.len() == 1 && one_button(
            k,
            0,
            "🔄 Refresh"@,
            "st:r"@,
        ),
{
    if call_ensures(number_keyboard, (numbers,), k) && 0 <= i < numbers@.len() {
        assert(k@.len() == k.inline_keyboard@.len());
        lemma_row(k, i, numbers@[i]@, "num:"@ + numbers@[i]@);
    }
    if call_ensures(forward_number_keyboard, (numbers,), k) && 0 <= i < numbers@.len() {
        lemma_row(k, i, numbers@[i]@, "cf:n:"@ + numbers@[i]@);
    }
    if call_ensures(search_keyboard, (hits,), k) && hits@.len() <= 20 && 0 <= i < hits@.len() && 1
        <= hits@[i].display_name@.len() <= 64 {
        assert(views(hits@)[i] == hits@[i]@);
        crate::laws::answers::law_names_fit_on_buttons(
            hits@[i].display_name@,
            hits@[i]@,
            "open:"@,
        );
        lemma_row(k, i, hits@[i].display_name@, "open:"@ + int_text(hits@[i].id as int));
    }
    if call_ensures(status_keyboard, (), k) {
        lemma_row(k, 0, "🔄 Refresh"@, "st:r"@);
    }
    assert(k@.len() == k.inline_keyboard@.len());
}

/// The prompts ask for a number and for a contact, where there are any; a chosen
/// article opens its contact; and a card takes the place of the message that it
/// is to replace.
pub proof fn law_prompts_are_shown(
    numbers: &[String],
    hits: &[Contact],
    card: Option<Card>,
    id: &str,
    r: String,
    message_id: i32,
    step: CardStep,
)
    ensures
        call_ensures(number_prompt, (numbers,), card) ==> (card is Some <==> numbers@.len() > 0)
            && (card matches Some(c) ==> c.text@ == "which number?"@ && c.keyboard is Some),
        call_ensures(contact_prompt, (hits,), card) ==> (card is Some <==> hits@.len() > 0) && (
        card matches Some(c) ==> c.text@ == "pick a contact"@ && c.keyboard is Some),
        call_ensures(article_message, (id,), r) && id@ != "unavailable"@ ==> r@ == "/open "@ + id@,
        call_ensures(article_message, (id,), r) && id@ == "unavailable"@ ==> r@
            == "contacts unavailable"@,
        call_ensures(card_begun, (Some(message_id),), step) ==> step == (CardStep::Edit {
            message_id,
        }),
        call_ensures(card_begun, (None,), step) ==> step == CardStep::Send,
{
}

/// The owner is heard in the group and in a private chat, and nobody else.
pub proof fn law_only_the_owner_is_heard(
    cfg: &crate::config::Config,
    chat_id: i64,
    user_id: i64,
    data: &str,
    r: bool,
)
    ensures
        call_ensures(allowed, (cfg, chat_id, user_id), r) ==> (r <==> chat_id
            == cfg.telegram_group_id && user_id == cfg.telegram_user_id),
        call_ensures(is_owner_dm, (cfg, chat_id, user_id), r) ==> (r <==> user_id
            == cfg.telegram_user_id && chat_id == cfg.telegram_user_id),
        call_ensures(parse_status_refresh, (data,), r) ==> (r <==> data@ == "st:r"@),
        call_ensures(allow_dm_callback, (data,), r) ==> (r <==> data@ == "st:r"@),
{
}

// ---------------------------------------------------------------------------
// Answers to callers
// ---------------------------------------------------------------------------

/// A caller without the key, an unknown address and a wrong method are answered
/// each in its own way.
pub proof fn law_refusals_are_answered(
    r: ApiResponse,
    id: &crate::actions::identity::Identity,
    thread: i32,
    key: &Option<String>,
    header: &Option<String>,
    may: bool,
)
    ensures
        call_ensures(unauthorized, (), r) ==> r.status == 401 && r.error@ == "unauthorized"@,
        call_ensures(api_not_found, (), r) ==> r.status == 404 && r.error@ == "not_found"@
            && r.message@ == "not found"@,
        call_ensures(api_method_not_allowed, (), r) ==> r.status == 405 && r.error@ == "validation"@
            && r.message@ == "method not allowed"@,
        call_ensures(reply_thread, (id,), thread) ==> (id.thread_id is Some ==> thread
            == id.thread_id->0) && (id.thread_id is None ==> thread == 1),
        call_ensures(authorized, (key, header), may) ==> (may <==> *key is Some && *header is Some
            && key->0@.len() > 0 && key->0@ == header->0@),
{
}

// ---------------------------------------------------------------------------
// The address book
// ---------------------------------------------------------------------------

/// What goes wrong with the service and with the token is told; a token lives an
/// hour unless it says otherwise, and one that is kept is given as long as it is
/// fresh.
pub proof fn law_service_is_used_with_care(
    timeout: bool,
    connect: bool,
    message: String,
    e: GoogleError,
    words: &str,
    n: u64,
    life: u64,
    state: &str,
    sent: &str,
    same: Result<(), GoogleError>,
    token: Option<String>,
    page: Option<String>,
    begun: (SyncAt, SyncAction),
)
    ensures
        call_ensures(classify_send_err, (timeout, connect, message), e) ==> {
            &&& timeout || connect ==> (e matches GoogleError::Transient(s) && s@ == message@)
            &&& !timeout && !connect ==> (e matches GoogleError::Http(s) && s@ == message@)
        },
        call_ensures(unreadable_token, (words,), e) ==> (e matches GoogleError::Auth(s) && s@
            == "token file unreadable: "@ + words@),
        call_ensures(unparsable_token, (words,), e) ==> (e matches GoogleError::Auth(s) && s@
            == "token file unparsable: "@ + words@),
        call_ensures(token_lifetime, (Some(n),), life) ==> life == n,
        call_ensures(token_lifetime, (None,), life) ==> life == 60 * 60,
        call_ensures(check_state, (state, sent), same) ==> (same is Ok <==> state@ == sent@),
        call_ensures(next_page, (token,), page) ==> {
            &&& token matches Some(s) ==> (s@.len() > 0 ==> page is Some && page->0@ == s@)
            &&& token matches Some(s) ==> (s@.len() == 0 ==> page is None)
            &&& token is None ==> page is None
        },
        call_ensures(sync_start, (), begun) ==> begun.0 == (SyncAt::Token { again: false }) && (
        begun.1 matches SyncAction::GetToken { drop_cached } && !drop_cached),
{
}

/// The token that is kept is given while more than five minutes are left of it.
pub proof fn law_kept_token_is_given(
    cache: &TokenCache,
    c: CachedToken,
    now: u64,
    r: Option<String>,
)
    requires
        call_ensures(TokenCache::cached_token, (cache, now), r),
    ensures
        cache.cached is None ==> r is None,
        cache.cached == Some(c) && c.expires_at - now > 300_000_000_000 ==> r is Some && r->0@
            == c.token@,
        cache.cached == Some(c) && c.expires_at - now <= 300_000_000_000 ==> r is None,
{
}

// ---------------------------------------------------------------------------
// The tables
// ---------------------------------------------------------------------------

/// What is set in a topic is set in its row, what is ignored is ignored, and who
/// wrote is marked.
pub proof fn law_setting_changes_its_row(
    db: &mut Db,
    thread_id: i32,
    text: &str,
    reply_to: Option<i32>,
    now: &str,
    i: int,
    r: Result<(), DbError>,
)
    ensures
        call_ensures(Db::set_default_number, (db, thread_id, text), r) && 0 <= i
            < old(db)@.topics.len() && old(db)@.topics[i].topic.thread_id == thread_id ==> r is Ok
            && final(db)@.topics[i].topic.default_e164 == Some(text@),
        call_ensures(Db::set_pending_outbound, (db, thread_id, text, reply_to), r) && 0 <= i
            < old(db)@.topics.len() && old(db)@.topics[i].topic.thread_id == thread_id ==> r is Ok
            && final(db)@.topics[i].pending_outbound == Some(text@)
            && final(db)@.topics[i].pending_reply_to == reply_to,
        call_ensures(Db::ignore_number, (db, text), r) ==> final(db)@.ignored.contains(text@),
        call_ensures(Db::mark_incoming_at, (db, text, now), r) && 0 <= i < old(db)@.numbers.len()
            && old(db)@.numbers[i].e164 == text@ ==> final(db)@.numbers[i].last_seen_incoming
            == Some(now@),
        call_ensures(Db::mark_incoming_at, (db, text, now), r) && 0 <= i < old(db)@.numbers.len()
            && old(db)@.numbers[i].e164 != text@ ==> final(db)@.numbers[i] == old(db)@.numbers[i],
{
    if call_ensures(Db::ignore_number, (db, text), r) {
        let before = old(db)@.ignored;
        if !before.contains(text@) {
            assert(before.push(text@)[before.len() as int] == text@);
        }
    }
}

/// A topic and a contact are given as they are stored.
pub proof fn law_stored_rows_are_given(
    db: &Db,
    i: int,
    k: int,
    topic: Result<Option<Topic>, DbError>,
    contact: Result<Option<Contact>, DbError>,
)
    requires
        db@.wf(),
        0 <= i < db@.topics.len(),
        0 <= k < db@.contacts.len(),
    ensures
        call_ensures(Db::get_topic_by_thread, (db, db@.topics[i].topic.thread_id), topic) ==> (
        topic is Ok && topic->Ok_0 is Some && {
            let found = topic->Ok_0->0;
            &&& found.thread_id == db@.topics[i].topic.thread_id
            &&& found.title@ == db@.topics[i].topic.title
            &&& found.contact_id == db@.topics[i].topic.contact_id
            &&& opt_view(found.default_e164) == db@.topics[i].topic.default_e164
        }),
        call_ensures(Db::get_contact, (db, db@.contacts[k].id), contact) ==> (contact is Ok
            && contact->Ok_0 is Some && {
            let found = contact->Ok_0->0;
            &&& found.id == db@.contacts[k].id
            &&& found.display_name@ == db@.contacts[k].display_name
            &&& found.google_resource@ == db@.contacts[k].google_resource
        }),
{
    law_thread_finds_its_topic(db@, i, 0);
    crate::laws::found::law_id_finds_its_contact(db@, k, db@.contacts[k].id);
}

} // verus!
