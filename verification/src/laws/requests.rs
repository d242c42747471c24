//! How requests for pages, synchronisation and commands that send are answered,
//! said of what was asked.
use vstd::prelude::*;

use crate::actions::history::{
    chats_result, messages_result, page_asked, ChatListView, MessageListView, PageView,
};
use crate::actions::sms::{SmsFlowView, SmsStepView};
use crate::actions::ActionErrorView;
use crate::app::effect::{EffectView, OutcomeView, StepView};
use crate::app::incoming::{incoming_began, incoming_begun, known_as};
use crate::app::owner::OwnerTextOutcomeView;
use crate::app::sweep::too_old;
use crate::app::AppErrorView;
use crate::clock::{rfc3339_time, Moment, UtcTime};
use crate::config::{configured, configured_with, settings, Vars};
use crate::db::contacts::{contact_upserted, numbers_refused};
use crate::db::history::{chats_of, messages_of};
use crate::db::log::{
    inbound_after, inbound_recorded, inbound_thread, outbound_after, outbound_recorded,
};
use crate::db::DbErrorView;
use crate::google::{
    fresh, request_line, sync_next, target_of, GoogleErrorView, SyncActionView, SyncAt,
};
use crate::laws::found::{
    default_topic_at, law_default_finds_its_topic, law_number_finds_its_contact,
    law_thread_finds_its_topic, lemma_first_at, lemma_owns, nobodys_default, nobodys_number, owns,
};
use crate::laws::sending::asks;
use crate::laws::texts::{
    law_cut_at_space, law_first_word, law_trimming_keeps_the_core, solid, spaceless,
};
use crate::modem::{forward_set, forward_told, FakeModemView, IncomingSmsView, ModemErrorView};
use crate::normalize::{complaint, normalized, NormalizeErrorView};
use crate::rows::{lemma_find, lemma_find_is};
use crate::tables::{at_path, InboundRowView, OutboundRowView, Tables};
use crate::telegram::cards::text_answer;
use crate::telegram::handlers::{
    number_identity, open_cmd_after, sms_cmd_after, sms_cmd_next, sms_cmd_step, OpenFlowView,
    SmsCmdFlowView, SmsCmdStepView,
};
use crate::text::{equal_to, is_space, trimmed};

verus! {

// ---------------------------------------------------------------------------
// Pages
// ---------------------------------------------------------------------------

proof fn lemma_solid(s: Seq<char>)
    requires
        solid(s),
    ensures
        trimmed(s) == s,
{
    let none = Seq::<char>::empty();
    assert(none + s + none =~= s);
    law_trimming_keeps_the_core(none, s, none);
}

/// A page is asked for by its size and by the times between which it lies, which
/// are taken as they stand; a size out of bounds, what is no time, and times that
/// are not in their order are refused, each in its own words.
pub proof fn law_page_is_asked_for(
    n: i64,
    before: Seq<char>,
    after: Seq<char>,
    b: UtcTime,
    a: UtcTime,
)
    requires
        solid(before),
        solid(after),
    ensures
        ({
            let asked = page_asked(Some(n), Some(before), Some(after));
            let known = rfc3339_time(before) == Some(b) && rfc3339_time(after) == Some(a);
            let in_order = a.secs < b.secs || (a.secs == b.secs && a.nanos < b.nanos);
            &&& 1 <= n <= 100 && known && in_order ==> asked == Ok::<PageView, ActionErrorView>(
                PageView { limit: n, before: Some(before), after: Some(after) },
            )
            &&& 1 <= n <= 100 && known && !in_order ==> asked == Err::<PageView, ActionErrorView>(
                ActionErrorView::Validation("before must be greater than after"@),
            )
            &&& n < 1 || n > 100 ==> asked == Err::<PageView, ActionErrorView>(
                ActionErrorView::Validation("limit must be 1..=100"@),
            )
            &&& 1 <= n <= 100 && (rfc3339_time(before) is None || rfc3339_time(after) is None)
                ==> asked == Err::<PageView, ActionErrorView>(
                ActionErrorView::Validation("invalid cursor timestamp"@),
            )
        }),
        rfc3339_time(before) == Some(b) ==> page_asked(None, Some(before), None) == Ok::<
            PageView,
            ActionErrorView,
        >(PageView { limit: 50, before: Some(before), after: None }),
        rfc3339_time(after) == Some(a) ==> page_asked(None, None, Some(after)) == Ok::<
            PageView,
            ActionErrorView,
        >(PageView { limit: 50, before: None, after: Some(after) }),
{
    lemma_solid(before);
    lemma_solid(after);
}

/// The page of chats that was asked for is given, and the end of it where it is
/// full; a page that cannot be asked for is an error.
pub proof fn law_chats_are_given_as_asked(
    t: Tables,
    limit: Option<i64>,
    before: Option<Seq<char>>,
    after: Option<Seq<char>>,
    page: PageView,
    e: ActionErrorView,
)
    ensures
        page_asked(limit, before, after) == Ok::<PageView, ActionErrorView>(page) ==> (chats_result(
            t,
            limit,
            before,
            after,
        ) matches Ok(list) && {
            &&& list.chats == chats_of(t, page.limit as int, page.before, page.after)
            &&& list.next_before is Some <==> list.chats.len() == page.limit && page.limit > 0
            &&& list.next_before is Some ==> list.next_before->0
                == list.chats.last().last_message_at
        }),
        page_asked(limit, before, after) == Err::<PageView, ActionErrorView>(e) ==> chats_result(
            t,
            limit,
            before,
            after,
        ) == Err::<ChatListView, ActionErrorView>(e),
{
}

/// The page of messages that was asked for is given, of that thread, and the end
/// of it where it is full.
pub proof fn law_messages_are_given_as_asked(
    t: Tables,
    region: Seq<char>,
    k: int,
    limit: Option<i64>,
    before: Option<Seq<char>>,
    after: Option<Seq<char>>,
    page: PageView,
    e: ActionErrorView,
    number: Option<Seq<char>>,
    contact_id: Option<i64>,
    thread_id: i32,
)
    requires
        t.wf(),
        0 <= k < t.topics.len(),
        t.topics[k].topic.thread_id != 1,
    ensures
        ({
            let topic = t.topics[k].topic;
            let given = messages_result(
                t,
                region,
                topic.thread_id,
                limit,
                before,
                after,
                None,
                None,
            );
            page_asked(limit, before, after) == Ok::<PageView, ActionErrorView>(page) ==> (
            given matches Ok(list) && {
                &&& list.thread_id == topic.thread_id
                &&& list.title == topic.title
                &&& list.contact_id == topic.contact_id
                &&& list.messages == messages_of(
                    t,
                    topic.thread_id,
                    page.limit as int,
                    page.before,
                    page.after,
                )
                &&& list.next_before is Some <==> list.messages.len() == page.limit && page.limit
                    > 0
                &&& list.next_before is Some ==> list.next_before->0
                    == list.messages.last().timestamp
            })
        }),
        page_asked(limit, before, after) == Err::<PageView, ActionErrorView>(e) ==> messages_result(
            t,
            region,
            thread_id,
            limit,
            before,
            after,
            number,
            contact_id,
        ) == Err::<MessageListView, ActionErrorView>(e),
        page_asked(limit, before, after) == Ok::<PageView, ActionErrorView>(page) ==> (
        messages_result(t, region, 1, limit, before, after, None, None) matches Ok(list)
            && list.thread_id == 1 && list.title == "General"@ && list.contact_id is None
            && list.messages == messages_of(
            t,
            1,
            page.limit as int,
            page.before,
            page.after,
        )),
{
    law_thread_finds_its_topic(t, k, thread_id);
}

/// Whoever asks for the messages of a topic and names a contact or a number must
/// name one of the topic's.
pub proof fn law_messages_are_of_whom_was_named(
    t: Tables,
    region: Seq<char>,
    k: int,
    page: PageView,
    raw: Seq<char>,
    e164: Seq<char>,
    e: NormalizeErrorView,
    contact_id: i64,
)
    requires
        t.wf(),
        0 <= k < t.topics.len(),
        t.topics[k].topic.thread_id != 1,
        solid(raw),
    ensures
        ({
            let topic = t.topics[k].topic;
            let thread_id = topic.thread_id;
            let size = Some(page.limit);
            let of_contact = messages_result(
                t,
                region,
                thread_id,
                size,
                page.before,
                page.after,
                None,
                Some(contact_id),
            );
            let of_number = messages_result(
                t,
                region,
                thread_id,
                size,
                page.before,
                page.after,
                Some(raw),
                None,
            );
            let its_own = topic.default_e164 == Some(e164) || (topic.contact_id is Some && owns(
                t,
                topic.contact_id->0,
                e164,
            ));
            page_asked(size, page.before, page.after) == Ok::<PageView, ActionErrorView>(page)
                ==> {
                &&& topic.contact_id == Some(contact_id) ==> of_contact is Ok
                &&& topic.contact_id != Some(contact_id) ==> of_contact == Err::<
                    MessageListView,
                    ActionErrorView,
                >(ActionErrorView::IdentityConflict)
                &&& normalized(raw, region) == Ok::<Seq<char>, NormalizeErrorView>(e164) && its_own
                    ==> of_number is Ok
                &&& normalized(raw, region) == Ok::<Seq<char>, NormalizeErrorView>(e164)
                    && !its_own ==> of_number == Err::<MessageListView, ActionErrorView>(
                    ActionErrorView::IdentityConflict,
                )
                &&& normalized(raw, region) == Err::<Seq<char>, NormalizeErrorView>(e)
                    ==> of_number == Err::<MessageListView, ActionErrorView>(
                    ActionErrorView::InvalidNumber(complaint(e)),
                )
            }
        }),
{
    law_thread_finds_its_topic(t, k, 0);
    lemma_solid(raw);
    if t.topics[k].topic.contact_id is Some {
        lemma_owns(t, t.topics[k].topic.contact_id->0, e164);
    }
}

// ---------------------------------------------------------------------------
// Sending
// ---------------------------------------------------------------------------

/// A number that is none is told where the command was given; whatever else the
/// sending asks for is asked for; and a modem that refused has told so already.
pub proof fn law_sms_command_is_answered(
    t: Tables,
    reply_thread: i32,
    words: Seq<char>,
    e: EffectView,
    flow: SmsFlowView,
    o: OutcomeView,
    now: Seq<char>,
    refusal: AppErrorView,
)
    ensures
        asks(
            sms_cmd_step(
                reply_thread,
                SmsStepView::End(Err(ActionErrorView::InvalidNumber(words))),
            ),
            EffectView::Post { thread_id: reply_thread, text: words },
        ),
        sms_cmd_step(reply_thread, SmsStepView::Do(e, flow)) == SmsCmdStepView::Do(
            e,
            SmsCmdFlowView::Sending { flow, reply_thread },
        ),
        sms_cmd_step(reply_thread, SmsStepView::End(Err(ActionErrorView::ModemFailed(words))))
            == SmsCmdStepView::End(Ok(())),
        sms_cmd_step(reply_thread, SmsStepView::End(Err(ActionErrorView::NotFound(words))))
            == SmsCmdStepView::End(Err(AppErrorView::Telegram(words))),
        sms_cmd_next(t, SmsCmdFlowView::Sending { flow, reply_thread }, o) == sms_cmd_step(
            reply_thread,
            crate::actions::sms::sms_next(t, flow, o),
        ),
        sms_cmd_after(t, SmsCmdFlowView::Sending { flow, reply_thread }, o, now)
            == crate::actions::sms::sms_after(t, flow, o, now),
        sms_cmd_next(t, SmsCmdFlowView::Telling, OutcomeView::Done) == SmsCmdStepView::End(Ok(())),
        sms_cmd_next(t, SmsCmdFlowView::Telling, OutcomeView::TelegramFailed(refusal))
            == SmsCmdStepView::End(Err(refusal)),
        sms_cmd_after(t, SmsCmdFlowView::Telling, o, now) == t,
        open_cmd_after(t, OpenFlowView::Telling, o) == t,
        number_identity(words).number == Some(words),
        number_identity(words).contact_id is None && number_identity(words).thread_id is None,
{
}

/// A text for a contact with several numbers is answered with the choice among
/// them, and any other with nothing.
pub proof fn law_choice_is_offered(numbers: Seq<Seq<char>>, i: int)
    ensures
        text_answer(OwnerTextOutcomeView::Done) is None,
        text_answer(OwnerTextOutcomeView::NeedNumber(numbers)) matches Some(card) && {
            &&& card.text == "which number?"@
            &&& card.keyboard is Some
            &&& card.keyboard->0.len() == numbers.len()
            &&& 0 <= i < numbers.len() ==> card.keyboard->0[i] == seq![
                (numbers[i], "num:"@ + numbers[i]),
            ]
        },
{
}

/// A received message that is too old is stored and not shown: nothing is asked of
/// Telegram, and the row holds its number, text and time.
pub proof fn law_old_message_is_stored_only(
    t: Tables,
    region: Seq<char>,
    sms: IncomingSmsView,
    delete: bool,
    now: Moment,
    i: int,
)
    requires
        sms.inbound,
        too_old(sms.timestamp, now.time),
        forall|i: int|
            0 <= i < t.inbound.len() ==> (#[trigger] t.inbound[i]).mm_path != sms.path
                && !(t.inbound[i].e164 == known_as(sms, region) && t.inbound[i].body == sms.text
                && t.inbound[i].sms_ts == Some(sms.timestamp)),
        t.inbound.len() > 0 ==> t.inbound.last().id < i64::MAX,
    ensures
        incoming_begun(t, region, sms, delete, now) matches StepView::Do(effect, _) ==> effect == (
        EffectView::DeleteSms { path: sms.path }),
        ({
            let after = incoming_began(t, region, sms, now).inbound;
            &&& after.len() == t.inbound.len() + 1
            &&& after.last().e164 == known_as(sms, region)
            &&& after.last().body == sms.text
            &&& after.last().sms_ts == Some(sms.timestamp)
            &&& after.last().mm_path == sms.path
            &&& after.last().created_at == now.text@
            &&& default_topic_at(t, known_as(sms, region), i) && !t.ignored.contains(
                known_as(sms, region),
            ) ==> after.last().thread_id == Some(t.topics[i].topic.thread_id)
            &&& t.ignored.contains(known_as(sms, region)) || (nobodys_default(
                t,
                known_as(sms, region),
            ) && nobodys_number(t, known_as(sms, region))) ==> after.last().thread_id == Some(1i32)
        }),
{
    law_default_finds_its_topic(t, known_as(sms, region), i);
    law_number_finds_its_contact(t, known_as(sms, region), 0);
    lemma_find(t.inbound, at_path(sms.path));
    let p = crate::tables::record_of(
        sms.path,
        known_as(sms, region),
        sms.text,
        sms.timestamp,
    );
    lemma_find(t.inbound, p);
}

// ---------------------------------------------------------------------------
// The log
// ---------------------------------------------------------------------------

/// A received message at a new place in the modem is stored as it is, behind those
/// that were stored; a sent one always is.
pub proof fn law_rows_are_stored_as_they_are(t: Tables, row: InboundRowView, out: OutboundRowView)
    requires
        t.wf(),
        forall|i: int| 0 <= i < t.inbound.len() ==> (#[trigger] t.inbound[i]).mm_path != row.mm_path,
        t.inbound.len() > 0 ==> t.inbound.last().id < i64::MAX,
        t.outbound.len() > 0 ==> t.outbound.last().id < i64::MAX,
    ensures
        ({
            let after = inbound_after(t, row);
            &&& after.inbound.drop_last() == t.inbound
            &&& after.inbound.last() == (InboundRowView { id: after.inbound.last().id, ..row })
            &&& t.inbound.len() > 0 ==> after.inbound.last().id == t.inbound.last().id + 1
            &&& t.inbound.len() == 0 ==> after.inbound.last().id == 1
            &&& after == (Tables { inbound: after.inbound, ..t })
        }),
        ({
            let after = outbound_after(t, out);
            &&& after.outbound.drop_last() == t.outbound
            &&& after.outbound.last() == (OutboundRowView { id: after.outbound.last().id, ..out })
            &&& t.outbound.len() > 0 ==> after.outbound.last().id == t.outbound.last().id + 1
            &&& t.outbound.len() == 0 ==> after.outbound.last().id == 1
            &&& after == (Tables { outbound: after.outbound, ..t })
        }),
{
    lemma_find(t.inbound, at_path(row.mm_path));
    assert(inbound_after(t, row).inbound.drop_last() =~= t.inbound);
    assert(outbound_after(t, out).outbound.drop_last() =~= t.outbound);
}

/// Recording gives what is said of it: the row is stored and all is well, or no id
/// is left, nothing is stored and that is the error.
pub proof fn law_recording_is_told(
    t: Tables,
    row: InboundRowView,
    out: OutboundRowView,
    after: Tables,
    r: Result<(), DbErrorView>,
)
    requires
        t.wf(),
        forall|i: int| 0 <= i < t.inbound.len() ==> (#[trigger] t.inbound[i]).mm_path != row.mm_path,
    ensures
        inbound_recorded(t, row, after, r) ==> {
            &&& r is Ok ==> after.inbound.len() == t.inbound.len() + 1
            &&& r is Err ==> after == t && t.inbound.last().id == i64::MAX && r == Err::<
                (),
                DbErrorView,
            >(DbErrorView::Sqlite("database or disk is full"@))
        },
        outbound_recorded(t, out, after, r) ==> {
            &&& r is Ok ==> after.outbound.len() == t.outbound.len() + 1
            &&& r is Err ==> after == t && t.outbound.last().id == i64::MAX && r == Err::<
                (),
                DbErrorView,
            >(DbErrorView::Sqlite("database or disk is full"@))
        },
{
    lemma_find(t.inbound, at_path(row.mm_path));
}

/// Numbers that cannot be stored are told: for a contact that is not stored, and
/// where one is given twice.
pub proof fn law_refused_numbers_are_told(t: Tables, id: i64, e164s: Seq<Seq<char>>)
    requires
        e164s.len() > 0,
    ensures
        (forall|k: int| 0 <= k < t.contacts.len() ==> (#[trigger] t.contacts[k]).id != id)
            ==> numbers_refused(t, id, e164s) == DbErrorView::Sqlite(
            "FOREIGN KEY constraint failed"@,
        ),
        (exists|k: int| 0 <= k < t.contacts.len() && (#[trigger] t.contacts[k]).id == id)
            ==> numbers_refused(t, id, e164s) == DbErrorView::Sqlite(
            "UNIQUE constraint failed: contact_numbers.contact_id, contact_numbers.e164"@,
        ),
{
}

/// The thread of a received message is that of its row.
pub proof fn law_thread_of_a_row(t: Tables, i: int)
    requires
        t.wf(),
        0 <= i < t.inbound.len(),
    ensures
        inbound_thread(t, t.inbound[i].mm_path) == t.inbound[i].thread_id,
{
    let p = at_path(t.inbound[i].mm_path);
    assert forall|j: int| 0 <= j < i implies !p(#[trigger] t.inbound[j]) by {
        assert(t.inbound[j].mm_path != t.inbound[i].mm_path);
    }
    lemma_first_at(t.inbound, p, i);
}

/// A contact that is stored gets its id from its resource: the one it has, or a
/// new one, above all others.
pub proof fn law_contact_keeps_its_id(
    t: Tables,
    k: int,
    resource: Seq<char>,
    name: Seq<char>,
    now: Seq<char>,
    after: Tables,
    r: Result<i64, DbErrorView>,
)
    requires
        t.wf(),
        contact_upserted(t, resource, name, now, after, r),
    ensures
        0 <= k < t.contacts.len() && t.contacts[k].google_resource == resource ==> {
            &&& r == Ok::<i64, DbErrorView>(t.contacts[k].id)
            &&& after.contacts.len() == t.contacts.len()
            &&& after.contacts[k].display_name == name
            &&& after.contacts[k].id == t.contacts[k].id
            &&& after.contacts[k].google_resource == resource
        },
        (forall|j: int|
            0 <= j < t.contacts.len() ==> (#[trigger] t.contacts[j]).google_resource != resource)
            && r is Ok ==> {
            &&& after.contacts.len() == t.contacts.len() + 1
            &&& after.contacts.last().display_name == name
            &&& after.contacts.last().google_resource == resource
            &&& r == Ok::<i64, DbErrorView>(after.contacts.last().id)
            &&& 0 <= k < t.contacts.len() ==> after.contacts[k] == t.contacts[k]
                && after.contacts.last().id > t.contacts[k].id
        },
{
    let p = crate::tables::with_resource(resource);
    lemma_find(t.contacts, p);
    if 0 <= k < t.contacts.len() && t.contacts[k].google_resource == resource {
        assert forall|j: int| 0 <= j < k implies !p(#[trigger] t.contacts[j]) by {
            assert(t.contacts[j].google_resource != t.contacts[k].google_resource);
        }
        lemma_find_is(t.contacts, p, k);
    }
    if forall|j: int|
        0 <= j < t.contacts.len() ==> (#[trigger] t.contacts[j]).google_resource != resource {
        crate::laws::found::lemma_first_none(t.contacts, p);
    }
}

// ---------------------------------------------------------------------------
// Synchronisation
// ---------------------------------------------------------------------------

/// The pages are fetched with a token and then stored; a token that is refused is
/// dropped and got again, once; and any other error ends it.
pub proof fn law_sync_goes_step_by_step(again: bool, e: GoogleErrorView, words: Seq<char>)
    ensures
        sync_next(SyncAt::Token { again }, None) == (
            SyncAt::Pages { again },
            SyncActionView::FetchPages,
        ),
        sync_next(SyncAt::Pages { again }, None).1 == SyncActionView::Store,
        sync_next(SyncAt::Pages { again: false }, Some(GoogleErrorView::Auth(words))) == (
            SyncAt::Token { again: true },
            SyncActionView::GetToken { drop_cached: true },
        ),
        sync_next(SyncAt::Pages { again: true }, Some(e)).1 == SyncActionView::Fail(e),
        sync_next(SyncAt::Token { again }, Some(e)).1 == SyncActionView::Fail(e),
        !(e is Auth) ==> sync_next(SyncAt::Pages { again }, Some(e)).1 == SyncActionView::Fail(e),
{
}

/// A token is used as long as more than five minutes are left of it.
pub proof fn law_token_is_used_up_to_five_minutes(expires_at: u128, now: u64)
    ensures
        fresh(expires_at, now) <==> expires_at - now > 5 * 60 * 1_000_000_000,
{
}

/// The address that was called is the second word of the first line.
pub proof fn law_called_address_is_the_second_word(
    method: Seq<char>,
    target: Seq<char>,
    rest: Seq<char>,
    more: Seq<char>,
)
    requires
        spaceless(method) && method.len() > 0,
        spaceless(target) && target.len() > 0,
        spaceless(rest) && rest.len() > 0,
        more.len() > 0 ==> more[0] == '\n',
    ensures
        target_of(request_line(method + seq![' '] + target + seq![' '] + rest + more)) == target,
{
    let line = method + seq![' '] + target + seq![' '] + rest;
    let request = line + more;
    let p = equal_to('\n');
    assert forall|j: int| 0 <= j < line.len() implies !p(#[trigger] request[j]) by {
        assert(request[j] == line[j]);
        if j < method.len() {
            assert(line[j] == method[j]);
            assert(!is_space(method[j]));
        } else if j == method.len() {
            assert(line[j] == ' ');
        } else if j < method.len() + 1 + target.len() {
            assert(line[j] == target[j - method.len() - 1]);
            assert(!is_space(target[j - method.len() - 1]));
        } else if j == method.len() + 1 + target.len() {
            assert(line[j] == ' ');
        } else {
            assert(line[j] == rest[j - method.len() - target.len() - 2]);
            assert(!is_space(rest[j - method.len() - target.len() - 2]));
        }
    }
    if more.len() > 0 {
        assert(request[line.len() as int] == more[0]);
    } else {
        assert(request =~= line);
    }
    lemma_find_is(request, p, line.len() as int);
    assert(request.take(line.len() as int) =~= line);
    assert(request_line(request) == line);
    assert(solid(line)) by {
        assert(line[0] == method[0]);
        assert(line.last() == rest.last());
        assert(!is_space(method[0]));
        assert(!is_space(rest[rest.len() - 1]));
    }
    lemma_solid(line);
    let back = target + (seq![' '] + rest);
    assert(line =~= method + seq![' '] + back);
    law_cut_at_space(method, ' ', back);
    let none = Seq::<char>::empty();
    law_first_word(none, target, seq![' '] + rest);
    assert(none + target + (seq![' '] + rest) =~= back);
}

/// A first line without an address calls the root.
pub proof fn law_no_address_is_the_root(method: Seq<char>)
    requires
        spaceless(method) && method.len() > 0,
    ensures
        target_of(method) == "/"@,
{
    assert(!is_space(method[0]));
    assert(!is_space(method[method.len() - 1]));
    lemma_solid(method);
    law_cut_at_space(method, ' ', Seq::empty());
}

/// The settings are those of the variables, as long as the zone is known.
pub proof fn law_settings_need_a_known_zone(vars: Vars)
    ensures
        configured(vars) matches Ok(c) ==> c == settings(vars) && (crate::clock::zone_complaint(
            settings(vars).status_tz,
        ) is None || settings(vars).status_tz == "Asia/Tehran"@),
        crate::clock::zone_complaint(settings(vars).status_tz) is None ==> configured(vars)
            == configured_with(vars, None),
{
}

/// The modem of the tests forwards to the number that it is given, unless it is to
/// fail.
pub proof fn law_pretended_forwarding(m: FakeModemView, e164: Seq<char>, e: NormalizeErrorView)
    ensures
        !m.forward_fail ==> {
            &&& forward_set(m, Ok(e164)).forward.enabled
            &&& forward_set(m, Ok(e164)).forward.e164 == Some(e164)
            &&& forward_told(m, Ok(e164)) == Ok::<
                crate::call_forward::CallForwardStateView,
                ModemErrorView,
            >(forward_set(m, Ok(e164)).forward)
            &&& forward_told(m, Err(e)) == Err::<
                crate::call_forward::CallForwardStateView,
                ModemErrorView,
            >(ModemErrorView::Failed(complaint(e)))
        },
        m.forward_fail ==> forward_set(m, Ok(e164)) == m && forward_told(m, Ok(e164)) == Err::<
            crate::call_forward::CallForwardStateView,
            ModemErrorView,
        >(ModemErrorView::Failed("forward fail"@)),
        forward_set(m, Err(e)) == m,
        forward_set(m, Ok(e164)).sent == m.sent,
{
}

} // verus!
