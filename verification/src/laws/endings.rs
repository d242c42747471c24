//! How what was begun goes on and ends.
use vstd::prelude::*;

use crate::actions::numbers::{told, NumberStateView};
use crate::actions::open::{open_after, open_next, OpenStepView, OpeningView};
use crate::actions::ActionErrorView;
use crate::app::effect::{EffectView, OutcomeView};
use crate::app::incoming::{
    incoming_begun, incoming_next, IncomingAtView, IncomingFlowView, IncomingStepView,
};
use crate::app::owner::{owner_step, OwnerStepView, OwnerTextOutcomeView};
use crate::app::send::{SendFlowView, SendStepView};
use crate::app::AppErrorView;
use crate::clock::Moment;
use crate::db::DbErrorView;
use crate::laws::found::{
    default_topic_at, law_contact_finds_its_topic, law_default_finds_its_topic,
    law_number_finds_its_contact, law_thread_finds_its_topic, nobodys_number, owner_at, topic_of_at,
};
use crate::laws::receiving::has_room;
use crate::laws::sending::asks;
use crate::laws::stored::law_waiting_text_is_the_stored_one;
use crate::laws::texts::{law_trimming_keeps_the_core, solid};
use crate::modem::{IncomingSmsView, ModemErrorView};
use crate::normalize::{normalized, NormalizeErrorView};
use crate::route::received_from;
use crate::tables::Tables;
use crate::telegram::handlers::{
    bot_error, num_after, num_next, said, who_said, NumFlowView, NumStepView, SayStepView,
};
use crate::text::begins;

verus! {

// ---------------------------------------------------------------------------
// Received messages
// ---------------------------------------------------------------------------

/// What is left to do with a message that was dealt with: it is deleted from the
/// modem where that is wanted and it lies there, and nothing otherwise.
pub open spec fn clears(step: IncomingStepView, sms: IncomingSmsView, delete: bool) -> bool {
    &&& delete && sms.path.len() > 0 ==> asks(step, EffectView::DeleteSms { path: sms.path })
    &&& !delete || sms.path.len() == 0 ==> step == IncomingStepView::End(Ok(()))
}

/// A message that was shown is deleted from the modem where that is wanted; a
/// failure to delete it is let go, and a failure to show it is told and keeps the
/// message.
pub proof fn law_shown_message_is_deleted(
    t: Tables,
    s: IncomingFlowView,
    e: AppErrorView,
    broken: ModemErrorView,
)
    requires
        has_room(t),
    ensures
        s.at is Showing || s.at is ShowingRaw ==> clears(
            incoming_next(t, s, OutcomeView::Done),
            s.sms,
            s.delete,
        ),
        s.at is Showing || s.at is ShowingRaw ==> incoming_next(
            t,
            s,
            OutcomeView::TelegramFailed(e),
        ) == IncomingStepView::End(Err(e)),
        s.at is Deleting ==> incoming_next(t, s, OutcomeView::Done) == IncomingStepView::End(Ok(())),
        s.at is Deleting ==> incoming_next(t, s, OutcomeView::ModemFailed(broken))
            == IncomingStepView::End(Ok(())),
{
}

/// A message that was not received is not shown: it is deleted from the modem
/// where that is wanted.
pub proof fn law_own_message_is_not_shown(
    t: Tables,
    region: Seq<char>,
    sms: IncomingSmsView,
    delete: bool,
    now: Moment,
)
    requires
        !sms.inbound,
    ensures
        clears(incoming_begun(t, region, sms, delete, now), sms, delete),
        crate::app::incoming::incoming_began(t, region, sms, now) == t,
{
}

/// After the change of the number was noted, the text itself is shown in the same
/// thread.
pub proof fn law_noted_message_is_shown(
    t: Tables,
    s: IncomingFlowView,
    e164: Seq<char>,
    thread_id: i32,
)
    requires
        s.at == (IncomingAtView::Noting { e164, thread_id }),
    ensures
        asks(
            incoming_next(t, s, OutcomeView::Done),
            EffectView::Post { thread_id, text: s.sms.text },
        ),
{
}

/// A number that writes becomes the default one of its contact's topic, so that the
/// answer goes where the message came from; no other row changes, and an ignored
/// number changes nothing.
pub proof fn law_answer_goes_where_the_message_came_from(
    t: Tables,
    e164: Seq<char>,
    k: int,
    i: int,
    j: int,
)
    requires
        t.wf(),
        owner_at(t, e164, k),
        topic_of_at(t, t.contacts[k].id, i),
    ensures
        ({
            let after = received_from(t, e164);
            &&& !t.ignored.contains(e164) ==> after.topics[i].topic.default_e164 == Some(e164)
            &&& !t.ignored.contains(e164) ==> after.topics[i].topic.title == t.topics[i].topic.title
            &&& 0 <= j < t.topics.len() && j != i ==> after.topics[j] == t.topics[j]
            &&& t.ignored.contains(e164) ==> after == t
            &&& after == (Tables { topics: after.topics, ..t })
        }),
{
    law_number_finds_its_contact(t, e164, k);
    law_contact_finds_its_topic(t, t.contacts[k].id, i);
    if exists|m: int| default_topic_at(t, e164, m) {
        let m = choose|m: int| default_topic_at(t, e164, m);
        law_default_finds_its_topic(t, e164, m);
    }
    if 0 <= j < t.topics.len() && j != i {
        if j < i {
            assert(t.topics[j].topic.thread_id < t.topics[i].topic.thread_id);
        } else {
            assert(t.topics[i].topic.thread_id < t.topics[j].topic.thread_id);
        }
    }
}

/// A topic of a contact who is gone is not stored, and that is told.
pub proof fn law_topic_of_nobody_is_refused(t: Tables, o: OpeningView, id: i64, thread_id: i32)
    requires
        o.contact_id == Some(id),
        forall|k: int| 0 <= k < t.contacts.len() ==> (#[trigger] t.contacts[k]).id != id,
    ensures
        open_next(t, o, OutcomeView::Created(thread_id)) == OpenStepView::End(
            Err(
                ActionErrorView::Db(DbErrorView::Sqlite("FOREIGN KEY constraint failed"@)),
            ),
        ),
        open_after(t, o, OutcomeView::Created(thread_id)) == t,
{
}

// ---------------------------------------------------------------------------
// The owner's texts
// ---------------------------------------------------------------------------

/// For the owner a text that the modem refused is done, since it was told; any
/// other failure is one.
pub proof fn law_refused_text_is_done(
    words: Seq<char>,
    e: DbErrorView,
    message: Seq<char>,
    sent: bool,
    effect: EffectView,
    flow: SendFlowView,
)
    ensures
        owner_step(SendStepView::End(Ok(()))) == OwnerStepView::End(Ok(OwnerTextOutcomeView::Done)),
        owner_step(SendStepView::End(Err(ActionErrorView::ModemFailed(words))))
            == OwnerStepView::End(Ok(OwnerTextOutcomeView::Done)),
        owner_step(SendStepView::End(Err(ActionErrorView::Db(e)))) == OwnerStepView::End(
            Err(AppErrorView::Db(e)),
        ),
        owner_step(SendStepView::End(Err(ActionErrorView::TelegramFailed { sent, message })))
            == OwnerStepView::End(Err(AppErrorView::Telegram(message))),
        owner_step(SendStepView::Do(effect, flow)) == OwnerStepView::Do(effect, flow),
{
}

/// Once a number was chosen, the text that waited in the topic is sent to the
/// topic's default number, and waits no more; where nothing can be sent it is
/// only taken away; and where nothing waited, all is done.
pub proof fn law_waiting_text_goes_to_the_chosen_number(
    t: Tables,
    i: int,
    state: NumberStateView,
    delete_enabled: bool,
    text: Seq<char>,
    e164: Seq<char>,
    now: Seq<char>,
)
    requires
        t.wf(),
        0 <= i < t.topics.len(),
        t.topics[i].topic.thread_id != 1,
        t.topics[i].topic.default_e164 == Some(e164),
        !begins(text, "/"@),
    ensures
        ({
            let thread_id = t.topics[i].topic.thread_id;
            let s = NumFlowView::Telling { told: state, thread_id, delete_enabled, can_send: true };
            let mute = NumFlowView::Telling {
                told: state,
                thread_id,
                delete_enabled,
                can_send: false,
            };
            let next = num_next(t, s, OutcomeView::Done);
            let reply_to = t.topics[i].pending_reply_to;
            &&& t.topics[i].pending_outbound == Some(text) && reply_to is None ==> asks(
                next,
                EffectView::SendSms { e164, text },
            )
            &&& t.topics[i].pending_outbound == Some(text) && reply_to is Some ==> asks(
                next,
                EffectView::React { message_id: reply_to->0, emoji: "👀"@ },
            )
            &&& t.topics[i].pending_outbound is None ==> next == NumStepView::End(Ok(()))
            &&& num_next(t, mute, OutcomeView::Done) == NumStepView::End(Ok(()))
            &&& num_after(t, mute, OutcomeView::Done, now).topics[i].pending_outbound is None
            &&& num_after(t, s, OutcomeView::Done, now).topics[i].pending_outbound is None
        }),
{
    law_waiting_text_is_the_stored_one(t, i, text);
    let thread_id = t.topics[i].topic.thread_id;
    let taken = crate::tables::pending_put(t, thread_id, None, None);
    law_thread_finds_its_topic(t, i, 0);
    let p = crate::tables::in_thread(thread_id);
    assert(taken.topics[i].topic == t.topics[i].topic);
    assert forall|j: int| 0 <= j < i implies !p(#[trigger] taken.topics[j]) by {
        assert(t.topics[j].topic.thread_id < t.topics[i].topic.thread_id);
        assert(taken.topics[j].topic == t.topics[j].topic);
    }
    crate::laws::found::lemma_first_at(taken.topics, p, i);
}

/// A choice that could not be told keeps the text waiting, and is an error.
pub proof fn law_untold_choice_changes_nothing(
    t: Tables,
    state: NumberStateView,
    thread_id: i32,
    delete_enabled: bool,
    can_send: bool,
    e: AppErrorView,
    now: Seq<char>,
)
    ensures
        ({
            let s = NumFlowView::Telling { told: state, thread_id, delete_enabled, can_send };
            &&& num_next(t, s, OutcomeView::TelegramFailed(e)) == NumStepView::End(
                Err(AppErrorView::Telegram(e.words())),
            )
            &&& num_after(t, s, OutcomeView::TelegramFailed(e), now) == t
        }),
        told(state, OutcomeView::Done) == Ok::<NumberStateView, ActionErrorView>(state),
        told(state, OutcomeView::TelegramFailed(e)) == Err::<NumberStateView, ActionErrorView>(
            ActionErrorView::TelegramFailed { sent: false, message: e.words() },
        ),
{
}

/// What was said was said; what could not be is an error. To the bot an error is
/// its words, unless the database failed.
pub proof fn law_answers_end(e: AppErrorView, broken: DbErrorView, words: Seq<char>)
    ensures
        said((), OutcomeView::Done) == SayStepView::<()>::End(Ok(())),
        said((), OutcomeView::TelegramFailed(e)) == SayStepView::<()>::End(Err(e)),
        bot_error(ActionErrorView::Db(broken)) == AppErrorView::Db(broken),
        bot_error(ActionErrorView::NotFound(words)) == AppErrorView::Telegram(words),
        bot_error(ActionErrorView::IdentityConflict) == AppErrorView::Telegram(
            "identity fields disagree"@,
        ),
{
}

/// A topic that is of no contact is told by its title and its number, and one that
/// has neither a contact nor a number is not known.
pub proof fn law_nameless_topic_is_told(t: Tables, region: Seq<char>, i: int, e164: Seq<char>)
    requires
        t.wf(),
        0 <= i < t.topics.len(),
        t.topics[i].topic.thread_id != 1,
        t.topics[i].topic.contact_id is None,
    ensures
        t.topics[i].topic.default_e164 is None ==> asks(
            who_said(t, region, t.topics[i].topic.thread_id),
            EffectView::Post {
                thread_id: t.topics[i].topic.thread_id,
                text: "unknown topic"@,
            },
        ),
        default_topic_at(t, e164, i) && nobodys_number(t, e164) && solid(e164) && normalized(
            e164,
            region,
        ) == Ok::<Seq<char>, NormalizeErrorView>(e164) ==> asks(
            who_said(t, region, t.topics[i].topic.thread_id),
            EffectView::Post {
                thread_id: t.topics[i].topic.thread_id,
                text: t.topics[i].topic.title + "\n"@ + e164 + " (default)"@,
            },
        ),
{
    law_thread_finds_its_topic(t, i, 0);
    law_default_finds_its_topic(t, e164, i);
    law_number_finds_its_contact(t, e164, 0);
    if default_topic_at(t, e164, i) && nobodys_number(t, e164) && solid(e164) && normalized(
        e164,
        region,
    ) == Ok::<Seq<char>, NormalizeErrorView>(e164) {
        let none = Seq::<char>::empty();
        assert(none + e164 + none =~= e164);
        law_trimming_keeps_the_core(none, e164, none);
        let topic = t.topics[i].topic;
        let one = seq![e164];
        assert(one.drop_last() =~= Seq::<Seq<char>>::empty());
        reveal_with_fuel(crate::telegram::parse::number_lines, 2);
        assert(crate::telegram::parse::number_lines(topic.default_e164, one) =~= "\n"@ + e164
            + " (default)"@);
        assert(topic.title + ("\n"@ + e164 + " (default)"@) =~= topic.title + "\n"@ + e164
            + " (default)"@);
    }
}

} // verus!
