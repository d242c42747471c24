//! What is sent, to whom and from where, said of the stored rows and of what was
//! typed.
use vstd::prelude::*;

use crate::actions::identity::{resolution, IdentityView, ResolveMode};
use crate::actions::sms::{
    sms_after, sms_began, sms_begun, sms_next, SmsFlowView, SmsSentView, SmsStepView,
};
use crate::actions::ActionErrorView;
use crate::app::effect::{EffectView, OutcomeView, StepView};
use crate::app::owner::{owner_began, owner_begun, owner_step, OwnerTextOutcomeView};
use crate::app::send::{send_after, send_begun, send_next, SendFlowView, SendJobView, SendStepView};
use crate::app::AppErrorView;
use crate::laws::found::{
    law_contact_finds_its_topic, law_default_finds_its_topic, law_number_finds_its_contact,
    law_thread_finds_its_topic, nobodys_default, nobodys_number, owner_at, topic_of_at, topicless,
};
use crate::laws::receiving::{belongs_at, is_title, lemma_an_owner, lemma_one_owner};
use crate::laws::texts::{
    blank, law_cut_at_space, law_trimming_keeps_the_core, law_what_follows_a_prefix, solid,
    spaceless,
};
use crate::modem::ModemErrorView;
use crate::normalize::{normalized, NormalizeErrorView};
use crate::rows::{find, lemma_find};
use crate::tables::{numbers_of, Tables, TopicView};
use crate::telegram::handlers::{command_of, OwnerCommandView};
use crate::telegram::parse::sms_cmd;
use crate::text::{begins, digits_of, is_space};

verus! {

/// The step asks for an effect.
pub open spec fn asks<K, R>(step: StepView<K, R>, effect: EffectView) -> bool {
    step matches StepView::Do(e, _) && e == effect
}

/// Ids for further sent messages are left.
pub open spec fn can_log(t: Tables) -> bool {
    t.outbound.len() > 0 ==> t.outbound.last().id < i64::MAX
}

/// The log has grown by one message.
pub open spec fn logs(
    before: Tables,
    after: Tables,
    e164: Seq<char>,
    text: Seq<char>,
    thread_id: i32,
    result: Seq<char>,
    now: Seq<char>,
) -> bool {
    &&& after.outbound.len() == before.outbound.len() + 1
    &&& forall|i: int|
        0 <= i < before.outbound.len() ==> #[trigger] after.outbound[i] == before.outbound[i]
    &&& after.outbound.last().e164 == e164
    &&& after.outbound.last().body == text
    &&& after.outbound.last().thread_id == Some(thread_id)
    &&& after.outbound.last().result == result
    &&& after.outbound.last().created_at == now
    &&& after.inbound == before.inbound && after.topics == before.topics && after.contacts
        == before.contacts && after.numbers == before.numbers && after.ignored == before.ignored
}

/// A message that is not an answer to one of the owner's goes to the modem at
/// once, as it is. If the modem takes it, it is logged as sent and a mark is
/// posted in its thread; if not, it is logged with the reason, and the reason is
/// posted there.
pub proof fn law_message_is_sent_and_told(
    t: Tables,
    job: SendJobView,
    path: Seq<char>,
    failure: ModemErrorView,
    told: OutcomeView,
    now: Seq<char>,
)
    requires
        job.reply_to is None,
        can_log(t),
    ensures
        ({
            let s = send_begun(job)->Do_1;
            let sent = send_next(t, s, OutcomeView::Sent(path));
            let failed = send_next(t, s, OutcomeView::ModemFailed(failure));
            &&& asks(send_begun(job), EffectView::SendSms { e164: job.e164, text: job.text })
            &&& asks(sent, EffectView::Post { thread_id: job.thread_id, text: "✅"@ })
            &&& logs(
                t,
                send_after(t, s, OutcomeView::Sent(path), now),
                job.e164,
                job.text,
                job.thread_id,
                "ok"@,
                now,
            )
            &&& asks(failed, EffectView::Post { thread_id: job.thread_id, text: failure.words() })
            &&& logs(
                t,
                send_after(t, s, OutcomeView::ModemFailed(failure), now),
                job.e164,
                job.text,
                job.thread_id,
                failure.words(),
                now,
            )
            &&& send_next(t, failed->Do_1, told) == SendStepView::End(
                Err(ActionErrorView::ModemFailed(failure.words())),
            )
            &&& lets_go(t, sent->Do_1, job, path)
        }),
{
}

/// Once the success is shown, the modem's copy is deleted where that is wanted,
/// and that is all.
pub open spec fn lets_go(t: Tables, s: SendFlowView, job: SendJobView, path: Seq<char>) -> bool {
    let done = send_next(t, s, OutcomeView::Done);
    if job.delete_enabled && path.len() > 0 {
        asks(done, EffectView::DeleteSms { path }) && send_next(t, done->Do_1, OutcomeView::Done)
            == SendStepView::End(Ok(()))
    } else {
        done == SendStepView::End(Ok(()))
    }
}

/// A message of the owner is marked first, and only then goes to the modem, as it
/// is. The mark changes with the outcome, and a failure is told in answer to the
/// message.
pub proof fn law_owner_sees_how_it_went(
    t: Tables,
    job: SendJobView,
    id: i32,
    path: Seq<char>,
    failure: ModemErrorView,
    refusal: AppErrorView,
    told: OutcomeView,
    now: Seq<char>,
)
    requires
        job.reply_to == Some(id),
        can_log(t),
    ensures
        ({
            let marking = send_begun(job);
            let sending = send_next(t, marking->Do_1, OutcomeView::Done);
            let s = sending->Do_1;
            let sent = send_next(t, s, OutcomeView::Sent(path));
            let failed = send_next(t, s, OutcomeView::ModemFailed(failure));
            let telling = send_next(t, failed->Do_1, told);
            &&& asks(marking, EffectView::React { message_id: id, emoji: "👀"@ })
            &&& send_next(t, marking->Do_1, OutcomeView::TelegramFailed(refusal)) is End
            &&& asks(sending, EffectView::SendSms { e164: job.e164, text: job.text })
            &&& asks(sent, EffectView::React { message_id: id, emoji: "👍"@ })
            &&& logs(
                t,
                send_after(t, s, OutcomeView::Sent(path), now),
                job.e164,
                job.text,
                job.thread_id,
                "ok"@,
                now,
            )
            &&& asks(failed, EffectView::React { message_id: id, emoji: "👎"@ })
            &&& logs(
                t,
                send_after(t, s, OutcomeView::ModemFailed(failure), now),
                job.e164,
                job.text,
                job.thread_id,
                failure.words(),
                now,
            )
            &&& asks(
                telling,
                EffectView::Reply {
                    thread_id: job.thread_id,
                    text: failure.words(),
                    reply_to: id,
                },
            )
            &&& send_next(t, telling->Do_1, told) == SendStepView::End(
                Err(ActionErrorView::ModemFailed(failure.words())),
            )
            &&& lets_go(t, sent->Do_1, job, path)
        }),
{
}

/// The text is a command.
pub open spec fn is_command(text: Seq<char>) -> bool {
    text.len() > 0 && text[0] == '/'
}

proof fn lemma_is_command(text: Seq<char>)
    ensures
        begins(text, "/"@) == is_command(text),
{
    reveal_strlit("/");
    if text.len() > 0 {
        assert(text.take(1)[0] == text[0]);
        if text[0] == '/' {
            assert(text.take(1) =~= "/"@);
        }
    }
}

/// What is typed in a topic with a default number goes to that number, exactly as
/// it was typed, and changes no topic.
pub proof fn law_typed_text_goes_to_the_default(
    t: Tables,
    i: int,
    text: Seq<char>,
    reply_to: Option<i32>,
    delete_enabled: bool,
    e164: Seq<char>,
    later: Tables,
)
    requires
        t.wf(),
        0 <= i < t.topics.len(),
        t.topics[i].topic.thread_id != 1,
        t.topics[i].topic.default_e164 == Some(e164),
        !is_command(text),
    ensures
        ({
            let thread_id = t.topics[i].topic.thread_id;
            let begun = owner_begun(t, thread_id, text, reply_to, delete_enabled);
            &&& owner_began(t, thread_id, text, reply_to) == t
            &&& begun matches StepView::Do(_, s) && begun == owner_step(send_begun(s.job)) && s.job
                == (SendJobView { e164, text, thread_id, reply_to, delete_enabled })
            &&& reply_to is None ==> asks(begun, EffectView::SendSms { e164, text })
            &&& reply_to is Some ==> asks(
                begun,
                EffectView::React { message_id: reply_to->0, emoji: "👀"@ },
            ) && asks(
                owner_step(send_next(later, begun->Do_1, OutcomeView::Done)),
                EffectView::SendSms { e164, text },
            )
        }),
{
    lemma_is_command(text);
    law_thread_finds_its_topic(t, i, t.topics[i].topic.thread_id);
}

/// What is typed in the topic of a contact without a default number goes to the
/// contact's only number, which becomes the default one. If the contact has
/// several, nothing is sent: all of them are offered, and the text waits. If the
/// contact has none, nothing happens.
pub proof fn law_typed_text_finds_its_number(
    t: Tables,
    i: int,
    contact_id: i64,
    text: Seq<char>,
    reply_to: Option<i32>,
    delete_enabled: bool,
)
    requires
        t.wf(),
        0 <= i < t.topics.len(),
        t.topics[i].topic.thread_id != 1,
        t.topics[i].topic.default_e164 is None,
        t.topics[i].topic.contact_id == Some(contact_id),
        !is_command(text),
    ensures
        ({
            let thread_id = t.topics[i].topic.thread_id;
            let numbers = numbers_of(t, contact_id);
            let begun = owner_begun(t, thread_id, text, reply_to, delete_enabled);
            let after = owner_began(t, thread_id, text, reply_to);
            &&& after.topics.len() == t.topics.len()
            &&& numbers.len() == 1 ==> (begun matches StepView::Do(_, s) && begun == owner_step(
                send_begun(s.job),
            ) && s.job == (SendJobView {
                e164: numbers[0],
                text,
                thread_id,
                reply_to,
                delete_enabled,
            }) && after.topics[i].topic == (TopicView {
                default_e164: Some(numbers[0]),
                ..t.topics[i].topic
            }))
            &&& numbers.len() > 1 ==> begun == StepView::<
                SendFlowView,
                Result<OwnerTextOutcomeView, AppErrorView>,
            >::End(Ok(OwnerTextOutcomeView::NeedNumber(numbers))) && after.topics[i].topic
                == t.topics[i].topic && after.topics[i].pending_outbound == Some(text)
                && after.topics[i].pending_reply_to == reply_to
            &&& numbers.len() == 0 ==> begun == StepView::<
                SendFlowView,
                Result<OwnerTextOutcomeView, AppErrorView>,
            >::End(Ok(OwnerTextOutcomeView::Done)) && after == t
            &&& forall|j: int|
                0 <= j < t.topics.len() && j != i ==> #[trigger] after.topics[j] == t.topics[j]
        }),
{
    lemma_is_command(text);
    let thread_id = t.topics[i].topic.thread_id;
    law_thread_finds_its_topic(t, i, thread_id);
    let after = owner_began(t, thread_id, text, reply_to);
    assert forall|j: int| 0 <= j < t.topics.len() && j != i implies #[trigger] after.topics[j]
        == t.topics[j] by {
        if j < i {
            assert(t.topics[j].topic.thread_id < t.topics[i].topic.thread_id);
        } else {
            assert(t.topics[i].topic.thread_id < t.topics[j].topic.thread_id);
        }
    }
}

/// What is typed in General, in a thread without a topic, or in a topic of nobody
/// without a number is no message: nothing is asked for and nothing changes.
pub proof fn law_typed_text_to_nobody(
    t: Tables,
    thread_id: i32,
    text: Seq<char>,
    reply_to: Option<i32>,
    delete_enabled: bool,
)
    requires
        t.wf(),
        thread_id == 1 || forall|i: int|
            0 <= i < t.topics.len() && (#[trigger] t.topics[i]).topic.thread_id == thread_id
                ==> t.topics[i].topic.default_e164 is None && t.topics[i].topic.contact_id is None,
    ensures
        owner_begun(t, thread_id, text, reply_to, delete_enabled) == StepView::<
            SendFlowView,
            Result<OwnerTextOutcomeView, AppErrorView>,
        >::End(Ok(OwnerTextOutcomeView::Done)),
        owner_began(t, thread_id, text, reply_to) == t,
{
    if thread_id != 1 {
        if exists|i: int|
            0 <= i < t.topics.len() && (#[trigger] t.topics[i]).topic.thread_id == thread_id {
            let i = choose|i: int|
                0 <= i < t.topics.len() && (#[trigger] t.topics[i]).topic.thread_id == thread_id;
            law_thread_finds_its_topic(t, i, thread_id);
        } else {
            law_thread_finds_its_topic(t, -1, thread_id);
        }
    }
}

// ---------------------------------------------------------------------------
// Messages on request
// ---------------------------------------------------------------------------

/// The message that a flow is about.
pub open spec fn job_of(s: SmsFlowView) -> SendJobView {
    match s {
        SmsFlowView::Creating { job, .. } => job,
        SmsFlowView::Sending { flow } => flow.job,
    }
}

/// Whatever is sent on request is the text that was given, without the white
/// space at its two ends and otherwise unchanged, and it goes to one number. From
/// the first step to the last no other text and no other number is handed to the
/// modem.
pub proof fn law_requested_text_is_kept(
    t: Tables,
    region: Seq<char>,
    id: IdentityView,
    lead: Seq<char>,
    core: Seq<char>,
    tail: Seq<char>,
    reply_thread: i32,
    reply_to: Option<i32>,
    delete_enabled: bool,
    later: Tables,
    s: SmsFlowView,
    o: OutcomeView,
)
    requires
        blank(lead),
        blank(tail),
        solid(core),
    ensures
        ({
            let begun = sms_begun(
                t,
                region,
                id,
                lead + core + tail,
                reply_thread,
                reply_to,
                delete_enabled,
            );
            &&& begun matches StepView::Do(effect, k) ==> {
                &&& job_of(k).text == core
                &&& job_of(k).reply_to == reply_to
                &&& job_of(k).delete_enabled == delete_enabled
                &&& effect matches EffectView::SendSms { e164, text } ==> text == core && e164
                    == job_of(k).e164
            }
            &&& !(begun matches StepView::End(Ok(_)))
        }),
        sms_next(later, s, o) matches StepView::Do(effect, k) ==> {
            &&& job_of(k).text == job_of(s).text
            &&& job_of(k).e164 == job_of(s).e164
            &&& job_of(k).reply_to == job_of(s).reply_to
            &&& job_of(k).delete_enabled == job_of(s).delete_enabled
            &&& effect matches EffectView::SendSms { e164, text } ==> text == job_of(s).text && e164
                == job_of(s).e164
        },
        sms_next(later, s, o) matches StepView::End(Ok(r)) ==> r == (SmsSentView {
            e164: job_of(s).e164,
            thread_id: job_of(s).thread_id,
            sent: true,
        }),
{
    law_trimming_keeps_the_core(lead, core, tail);
}

/// A text of white space alone is refused, and nothing is asked for.
pub proof fn law_blank_text_is_refused(
    t: Tables,
    region: Seq<char>,
    id: IdentityView,
    text: Seq<char>,
    reply_thread: i32,
    reply_to: Option<i32>,
    delete_enabled: bool,
)
    requires
        blank(text),
    ensures
        sms_begun(t, region, id, text, reply_thread, reply_to, delete_enabled) == SmsStepView::End(
            Err(ActionErrorView::Validation("text is required"@)),
        ),
        sms_began(t, region, id, text) == t,
{
    crate::laws::texts::law_trimming_leaves_no_blank(text);
}

/// A message to a number.
pub open spec fn to_number(
    t: Tables,
    region: Seq<char>,
    id: IdentityView,
    raw: Seq<char>,
    e164: Seq<char>,
) -> bool {
    &&& id.number == Some(raw)
    &&& solid(raw)
    &&& normalized(raw, region) == Ok::<Seq<char>, NormalizeErrorView>(e164)
    &&& resolution(t, region, id, ResolveMode::AllowBareNumber) is Ok
}

proof fn lemma_number_given(region: Seq<char>, id: IdentityView, raw: Seq<char>)
    requires
        id.number == Some(raw),
        solid(raw),
    ensures
        crate::text::nonblank(id.number) == Some(raw),
{
    let none = Seq::<char>::empty();
    assert(none + raw + none =~= raw);
    law_trimming_keeps_the_core(none, raw, none);
}

/// A message to a number that has a topic, or whose contact has one, goes to that
/// number and through that topic; nothing else changes.
pub proof fn law_sms_goes_through_the_topic(
    t: Tables,
    region: Seq<char>,
    id: IdentityView,
    raw: Seq<char>,
    e164: Seq<char>,
    i: int,
    text: Seq<char>,
    reply_thread: i32,
    reply_to: Option<i32>,
    delete_enabled: bool,
)
    requires
        to_number(t, region, id, raw, e164),
        solid(text),
        !t.ignored.contains(e164),
        belongs_at(t, e164, i),
    ensures
        ({
            let begun = sms_begun(t, region, id, text, reply_thread, reply_to, delete_enabled);
            &&& begun matches StepView::Do(_, k)
            &&& k == (SmsFlowView::Sending { flow: send_begun(job_of(k))->Do_1 })
            &&& asks(begun, send_begun(job_of(k))->Do_0)
            &&& job_of(k) == (SendJobView {
                e164,
                text,
                thread_id: t.topics[i].topic.thread_id,
                reply_to,
                delete_enabled,
            })
            &&& reply_to is None ==> asks(begun, EffectView::SendSms { e164, text })
        }),
        sms_began(t, region, id, text) == t,
{
    let none = Seq::<char>::empty();
    assert(none + text + none =~= text);
    law_trimming_keeps_the_core(none, text, none);
    lemma_number_given(region, id, raw);
    lemma_belongs(t, e164, i);
}

/// The topic of a number, as routing finds it.
pub proof fn lemma_belongs(t: Tables, e164: Seq<char>, i: int)
    requires
        belongs_at(t, e164, i),
    ensures
        crate::route::topic_for(t, e164) == Some(t.topics[i].topic),
{
    law_default_finds_its_topic(t, e164, i);
    if !crate::laws::found::default_topic_at(t, e164, i) {
        let k = choose|k: int|
            owner_at(t, e164, k) && topic_of_at(t, (#[trigger] t.contacts[k]).id, i);
        law_number_finds_its_contact(t, e164, k);
        law_contact_finds_its_topic(t, t.contacts[k].id, i);
    }
}

/// A message to an ignored number gets no topic: it is sent from the thread in
/// which it was asked for.
pub proof fn law_sms_to_the_ignored_stays(
    t: Tables,
    region: Seq<char>,
    id: IdentityView,
    raw: Seq<char>,
    e164: Seq<char>,
    text: Seq<char>,
    reply_thread: i32,
    reply_to: Option<i32>,
    delete_enabled: bool,
)
    requires
        to_number(t, region, id, raw, e164),
        solid(text),
        t.ignored.contains(e164),
    ensures
        ({
            let begun = sms_begun(t, region, id, text, reply_thread, reply_to, delete_enabled);
            &&& begun matches StepView::Do(_, k)
            &&& k == (SmsFlowView::Sending { flow: send_begun(job_of(k))->Do_1 })
            &&& asks(begun, send_begun(job_of(k))->Do_0)
            &&& job_of(k) == (SendJobView {
                e164,
                text,
                thread_id: reply_thread,
                reply_to,
                delete_enabled,
            })
        }),
{
    let none = Seq::<char>::empty();
    assert(none + text + none =~= text);
    law_trimming_keeps_the_core(none, text, none);
    lemma_number_given(region, id, raw);
}

/// A message to a number without a topic has one created first: under the name
/// of the contact that the number is stored for, or under the number itself. The
/// topic is stored with the number as its default one, and the message goes out
/// through it.
pub proof fn law_sms_creates_the_topic(
    t: Tables,
    region: Seq<char>,
    id: IdentityView,
    raw: Seq<char>,
    e164: Seq<char>,
    text: Seq<char>,
    reply_thread: i32,
    reply_to: Option<i32>,
    delete_enabled: bool,
    thread_id: i32,
    now: Seq<char>,
)
    requires
        t.wf(),
        to_number(t, region, id, raw, e164),
        solid(text),
        !t.ignored.contains(e164),
        nobodys_default(t, e164),
        forall|k: int| #[trigger] owner_at(t, e164, k) ==> topicless(t, t.contacts[k].id),
    ensures
        ({
            let begun = sms_begun(t, region, id, text, reply_thread, reply_to, delete_enabled);
            &&& begun matches StepView::Do(effect, k)
            &&& effect matches EffectView::CreateTopic { title }
            &&& {
                let next = sms_next(t, k, OutcomeView::Created(thread_id));
                let after = sms_after(t, k, OutcomeView::Created(thread_id), now);
                let job = SendJobView { e164, text, thread_id, reply_to, delete_enabled };
                &&& nobodys_number(t, e164) ==> title == e164
                &&& forall|m: int| #[trigger]
                    owner_at(t, e164, m) ==> is_title(title, t.contacts[m].display_name, e164)
                &&& exists|m: int|
                    {
                        &&& 0 <= m < after.topics.len()
                        &&& (#[trigger] after.topics[m]).topic.thread_id == thread_id
                        &&& after.topics[m].topic.default_e164 == Some(e164)
                        &&& after.topics[m].topic.title == title
                        &&& nobodys_number(t, e164) ==> after.topics[m].topic.contact_id is None
                        &&& forall|n: int| #[trigger]
                            owner_at(t, e164, n) ==> after.topics[m].topic.contact_id == Some(
                                t.contacts[n].id,
                            )
                    }
                &&& next == SmsStepView::Do(
                    send_begun(job)->Do_0,
                    SmsFlowView::Sending { flow: send_begun(job)->Do_1 },
                )
            }
        }),
{
    let none = Seq::<char>::empty();
    assert(none + text + none =~= text);
    law_trimming_keeps_the_core(none, text, none);
    lemma_number_given(region, id, raw);
    law_default_finds_its_topic(t, e164, 0);
    let begun = sms_begun(t, region, id, text, reply_thread, reply_to, delete_enabled);
    if nobodys_number(t, e164) {
        law_number_finds_its_contact(t, e164, 0);
    } else {
        let k = lemma_an_owner(t, e164);
        lemma_one_owner(t, e164, k);
        law_number_finds_its_contact(t, e164, k);
        law_contact_finds_its_topic(t, t.contacts[k].id, 0);
        let d = digits_of(e164);
        let tail = if d.len() >= 4 {
            d.skip(d.len() - 4)
        } else {
            d
        };
        assert(d.skip(0) =~= d);
        assert(begun->Do_0->title == (t.contacts[k].display_name + " ("@ + tail) + ")"@);
        assert(crate::tables::known_contact(t.contacts, t.contacts[k].id));
    }
    let after = sms_after(t, begun->Do_1, OutcomeView::Created(thread_id), now);
    let m = find(t.topics, crate::tables::from_thread_on(thread_id));
    lemma_find(t.topics, crate::tables::from_thread_on(thread_id));
    assert(after.topics[m].topic.thread_id == thread_id);
}

/// A message to a contact goes to the default number of the contact's topic, and
/// through that topic.
pub proof fn law_sms_to_a_contact(
    t: Tables,
    region: Seq<char>,
    id: IdentityView,
    contact_id: i64,
    i: int,
    e164: Seq<char>,
    text: Seq<char>,
    reply_thread: i32,
    reply_to: Option<i32>,
    delete_enabled: bool,
)
    requires
        t.wf(),
        id.number is None,
        id.contact_id == Some(contact_id),
        id.thread_id is None,
        resolution(t, region, id, ResolveMode::AllowBareNumber) is Ok,
        topic_of_at(t, contact_id, i),
        t.topics[i].topic.thread_id != 1,
        t.topics[i].topic.default_e164 == Some(e164),
        solid(text),
    ensures
        ({
            let begun = sms_begun(t, region, id, text, reply_thread, reply_to, delete_enabled);
            &&& begun matches StepView::Do(_, k)
            &&& k == (SmsFlowView::Sending { flow: send_begun(job_of(k))->Do_1 })
            &&& asks(begun, send_begun(job_of(k))->Do_0)
            &&& job_of(k) == (SendJobView {
                e164,
                text,
                thread_id: t.topics[i].topic.thread_id,
                reply_to,
                delete_enabled,
            })
        }),
        sms_began(t, region, id, text) == t,
{
    let none = Seq::<char>::empty();
    assert(none + text + none =~= text);
    law_trimming_keeps_the_core(none, text, none);
    law_contact_finds_its_topic(t, contact_id, i);
    law_thread_finds_its_topic(t, i, t.topics[i].topic.thread_id);
    lemma_find(t.contacts, crate::tables::with_id(contact_id));
}

// ---------------------------------------------------------------------------
// The command
// ---------------------------------------------------------------------------

/// The command names a number and a text, with any white space between them, and
/// both are read as they stand there.
pub proof fn law_sms_command_is_read(
    lead: Seq<char>,
    number: Seq<char>,
    gap: Seq<char>,
    body: Seq<char>,
    tail: Seq<char>,
    thread_id: i32,
)
    requires
        blank(lead) && lead.len() > 0,
        spaceless(number) && number.len() > 0,
        blank(gap) && gap.len() > 0,
        solid(body),
        blank(tail),
    ensures
        sms_cmd("/sms"@ + lead + number + gap + body + tail) == Some((number, body)),
        command_of("/sms"@ + lead + number + gap + body + tail, thread_id)
            == (OwnerCommandView::Sms { number, body }),
{
    let text = "/sms"@ + lead + number + gap + body + tail;
    let rest = lead + number + gap + body + tail;
    assert(text =~= "/sms"@ + rest);
    law_what_follows_a_prefix("/sms"@, rest, text);
    reveal_strlit("@");
    assert(is_space(lead[0]));
    if begins(rest, "@"@) {
        assert(rest.take(1)[0] == rest[0]);
        assert(rest[0] == lead[0]);
        assert("@"@[0] == '@');
    }
    let core = number + gap + body;
    assert(solid(core)) by {
        assert(core[0] == number[0]);
        assert(core.last() == body.last());
    }
    assert(rest =~= lead + core + tail);
    law_trimming_keeps_the_core(lead, core, tail);
    let back = gap.skip(1) + body;
    assert(is_space(gap[0]));
    assert(core =~= number + seq![gap[0]] + back);
    law_cut_at_space(number, gap[0], back);
    let none = Seq::<char>::empty();
    assert(back =~= gap.skip(1) + body + none);
    assert forall|j: int| 0 <= j < gap.skip(1).len() implies is_space(#[trigger] gap.skip(1)[j]) by {
        assert(gap.skip(1)[j] == gap[j + 1]);
    }
    law_trimming_keeps_the_core(gap.skip(1), body, none);
}

} // verus!
