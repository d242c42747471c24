//! Which forum thread a message belongs to, and which number a thread writes to.
use vstd::prelude::*;

use crate::db::{Db, DbError, DbErrorView};
use crate::db::laws::{law_default_comes_back, law_first_topic_is_found};
use crate::rows::{find, lemma_find, lemma_find_is, opt_view, res_opt, res_view, views};
use crate::tables::{
    about_contact, contact_by_e164, default_put, defaulting, holding, in_thread, is_ignored,
    numbers_of, topic_by_contact, topic_by_e164, topic_by_thread, topic_put, Tables, TopicView,
};
use crate::text::{cat3, chars_of, digits, digits_of, opt_eq, string_of};

verus! {

/// The thread of the General topic.
pub const GENERAL_THREAD: i32 = 1;

pub enum InboundDest {
    ExistingTopic { thread_id: i32, note_switch_to: Option<String> },
    CreateContactTopic { contact_id: i64, title: String, default_e164: String },
    General { e164: String },
}

pub enum InboundDestView {
    ExistingTopic { thread_id: i32, note_switch_to: Option<Seq<char>> },
    CreateContactTopic { contact_id: i64, title: Seq<char>, default_e164: Seq<char> },
    General { e164: Seq<char> },
}

impl View for InboundDest {
    type V = InboundDestView;

    open spec fn view(&self) -> InboundDestView {
        match self {
            InboundDest::ExistingTopic { thread_id, note_switch_to } =>
                InboundDestView::ExistingTopic {
                thread_id: *thread_id,
                note_switch_to: opt_view(*note_switch_to),
            },
            InboundDest::CreateContactTopic { contact_id, title, default_e164 } =>
                InboundDestView::CreateContactTopic {
                contact_id: *contact_id,
                title: title@,
                default_e164: default_e164@,
            },
            InboundDest::General { e164 } => InboundDestView::General { e164: e164@ },
        }
    }
}

pub enum OutboundPlan {
    NotSms,
    Send { e164: String },
    AskWhichNumber { contact_id: i64, numbers: Vec<String> },
    UnknownTopic,
}

pub enum OutboundPlanView {
    NotSms,
    Send { e164: Seq<char> },
    AskWhichNumber { contact_id: i64, numbers: Seq<Seq<char>> },
    UnknownTopic,
}

impl View for OutboundPlan {
    type V = OutboundPlanView;

    open spec fn view(&self) -> OutboundPlanView {
        match self {
            OutboundPlan::NotSms => OutboundPlanView::NotSms,
            OutboundPlan::Send { e164 } => OutboundPlanView::Send { e164: e164@ },
            OutboundPlan::AskWhichNumber { contact_id, numbers } =>
                OutboundPlanView::AskWhichNumber {
                contact_id: *contact_id,
                numbers: views(numbers@),
            },
            OutboundPlan::UnknownTopic => OutboundPlanView::UnknownTopic,
        }
    }
}

/// The name of a contact and the last four digits of a number.
pub open spec fn titled(name: Seq<char>, e164: Seq<char>) -> Seq<char> {
    let d = digits_of(e164);
    let last4 = if d.len() >= 4 { d.skip(d.len() - 4) } else { d };
    name + " ("@ + last4 + ")"@
}

/// The topic that a number writes in: the one whose default it is, and else
/// the one of its contact.
pub open spec fn topic_for(t: Tables, e164: Seq<char>) -> Option<TopicView> {
    match topic_by_e164(t, e164) {
        Some(topic) => Some(topic),
        None => match contact_by_e164(t, e164) {
            Some(c) => topic_by_contact(t, c.id),
            None => None,
        },
    }
}

/// The topic of the contact that a number belongs to.
pub open spec fn contact_topic(t: Tables, e164: Seq<char>) -> Option<TopicView> {
    match contact_by_e164(t, e164) {
        Some(c) => topic_by_contact(t, c.id),
        None => None,
    }
}

/// The contact writes from a number other than the default one of its topic.
pub open spec fn switched(t: Tables, e164: Seq<char>) -> Option<Seq<char>> {
    match contact_topic(t, e164) {
        Some(topic) => match topic.default_e164 {
            Some(current) => if current != e164 {
                Some(e164)
            } else {
                None
            },
            None => None,
        },
        None => None,
    }
}

/// The number that a contact wrote from becomes the default one of its topic.
pub open spec fn default_followed(t: Tables, e164: Seq<char>) -> Tables {
    match contact_topic(t, e164) {
        Some(topic) => default_put(t, topic.thread_id, e164),
        None => t,
    }
}

/// Where a message of a number goes. An ignored or unknown number goes to
/// General; a contact without a topic gets one.
pub open spec fn routed(t: Tables, e164: Seq<char>, follow: bool) -> InboundDestView {
    if is_ignored(t, e164) {
        InboundDestView::General { e164 }
    } else {
        match topic_for(t, e164) {
            Some(topic) => InboundDestView::ExistingTopic {
                thread_id: topic.thread_id,
                note_switch_to: if follow {
                    switched(t, e164)
                } else {
                    None
                },
            },
            None => match contact_by_e164(t, e164) {
                Some(c) => InboundDestView::CreateContactTopic {
                    contact_id: c.id,
                    title: titled(c.display_name, e164),
                    default_e164: e164,
                },
                None => InboundDestView::General { e164 },
            },
        }
    }
}

/// What receiving a message of a number changes.
pub open spec fn received_from(t: Tables, e164: Seq<char>) -> Tables {
    if !is_ignored(t, e164) && topic_for(t, e164) is Some {
        default_followed(t, e164)
    } else {
        t
    }
}

pub fn topic_title(name: &str, e164: &str) -> (r: String)
    ensures
        r@ == titled(name@, e164@),
{
    let d = chars_of(digits(e164).as_str());
    let from: usize = if d.len() >= 4 { d.len() - 4 } else { 0 };
    let last4 = string_of(&d, from, d.len());
    assert(last4@ =~= d@.skip(from as int));
    assert(d@.skip(0) =~= d@);
    cat3(name, " (", last4.as_str()).concat(")")
}

/// Where a received message goes; the number that a contact wrote from becomes
/// the default one of its topic.
pub fn route_inbound(db: &mut Db, e164: &str) -> (r: Result<InboundDest, DbError>)
    requires
        old(db)@.wf(),
    ensures
        final(db)@.wf(),
        final(db)@ == received_from(old(db)@, e164@),
        res_view(r) == Ok::<InboundDestView, DbErrorView>(routed(old(db)@, e164@, true)),
{
    let dest = route_for_send(db, e164)?;
    match dest {
        InboundDest::ExistingTopic { thread_id, note_switch_to: _ } => {
            let note_switch_to = apply_incoming_default(db, e164)?;
            Ok(InboundDest::ExistingTopic { thread_id, note_switch_to })
        },
        other => Ok(other),
    }
}

/// Where a message to a number belongs. Nothing changes.
pub fn route_for_send(db: &Db, e164: &str) -> (r: Result<InboundDest, DbError>)
    ensures
        res_view(r) == Ok::<InboundDestView, DbErrorView>(routed(db@, e164@, false)),
{
    if db.is_ignored(e164)? {
        return Ok(InboundDest::General { e164: e164.to_owned() });
    }
    let contact = db.find_contact_by_e164(e164)?;
    let topic = match db.get_topic_by_e164(e164)? {
        Some(topic) => Some(topic),
        None => match &contact {
            Some(c) => db.get_topic_by_contact(c.id)?,
            None => None,
        },
    };
    if let Some(topic) = topic {
        return Ok(
            InboundDest::ExistingTopic { thread_id: topic.thread_id, note_switch_to: None },
        );
    }
    match contact {
        Some(contact) => Ok(
            InboundDest::CreateContactTopic {
                contact_id: contact.id,
                title: topic_title(contact.display_name.as_str(), e164),
                default_e164: e164.to_owned(),
            },
        ),
        None => Ok(InboundDest::General { e164: e164.to_owned() }),
    }
}

/// Makes the number that a contact wrote from the default one of its topic,
/// and gives it back if another was the default before.
pub fn apply_incoming_default(db: &mut Db, e164: &str) -> (r: Result<Option<String>, DbError>)
    requires
        old(db)@.wf(),
    ensures
        final(db)@.wf(),
        final(db)@ == default_followed(old(db)@, e164@),
        res_opt(r) == Ok::<Option<Seq<char>>, DbErrorView>(switched(old(db)@, e164@)),
{
    let contact = match db.find_contact_by_e164(e164)? {
        Some(c) => c,
        None => {
            return Ok(None);
        },
    };
    let topic = match db.get_topic_by_contact(contact.id)? {
        Some(topic) => topic,
        None => {
            return Ok(None);
        },
    };
    let changed = topic.default_e164.is_some() && !opt_eq(&topic.default_e164, e164);
    db.set_default_number(topic.thread_id, e164)?;
    if changed {
        Ok(Some(e164.to_owned()))
    } else {
        Ok(None)
    }
}

/// What a text typed in a thread is: nothing to send in General or in a thread
/// that writes to nobody; a message to the default number; or a message to the
/// only number of the contact, or to one that is still to be chosen.
pub open spec fn planned(t: Tables, thread_id: i32) -> OutboundPlanView {
    if thread_id == GENERAL_THREAD {
        OutboundPlanView::NotSms
    } else {
        match topic_by_thread(t, thread_id) {
            None => OutboundPlanView::UnknownTopic,
            Some(topic) => match topic.default_e164 {
                Some(e164) => OutboundPlanView::Send { e164 },
                None => match topic.contact_id {
                    None => OutboundPlanView::UnknownTopic,
                    Some(c) => {
                        let numbers = numbers_of(t, c);
                        if numbers.len() >= 2 {
                            OutboundPlanView::AskWhichNumber { contact_id: c, numbers }
                        } else if numbers.len() == 1 {
                            OutboundPlanView::Send { e164: numbers[0] }
                        } else {
                            OutboundPlanView::UnknownTopic
                        }
                    },
                },
            },
        }
    }
}

/// Planning makes the only number of a contact the default one.
pub open spec fn plan_kept(t: Tables, thread_id: i32) -> Tables {
    match planned(t, thread_id) {
        OutboundPlanView::Send { e164 } => match topic_by_thread(t, thread_id) {
            Some(topic) => if topic.default_e164 is None {
                default_put(t, thread_id, e164)
            } else {
                t
            },
            None => t,
        },
        _ => t,
    }
}

/// Decides what a text typed in a thread is.
pub fn plan_outbound(db: &mut Db, thread_id: i32) -> (r: Result<OutboundPlan, DbError>)
    requires
        old(db)@.wf(),
    ensures
        final(db)@.wf(),
        final(db)@ == plan_kept(old(db)@, thread_id),
        res_view(r) == Ok::<OutboundPlanView, DbErrorView>(planned(old(db)@, thread_id)),
{
    if thread_id == GENERAL_THREAD {
        return Ok(OutboundPlan::NotSms);
    }
    let topic = match db.get_topic_by_thread(thread_id)? {
        Some(topic) => topic,
        None => {
            return Ok(OutboundPlan::UnknownTopic);
        },
    };
    if let Some(e164) = topic.default_e164 {
        return Ok(OutboundPlan::Send { e164 });
    }
    if let Some(contact_id) = topic.contact_id {
        let numbers = db.contact_numbers(contact_id)?;
        if numbers.len() >= 2 {
            return Ok(OutboundPlan::AskWhichNumber { contact_id, numbers });
        }
        if numbers.len() == 1 {
            let e164 = numbers[0].clone();
            assert(views(numbers@)[0] == e164@);
            db.set_default_number(thread_id, e164.as_str())?;
            return Ok(OutboundPlan::Send { e164 });
        }
    }
    Ok(OutboundPlan::UnknownTopic)
}

// ---------------------------------------------------------------------------
// Laws
// ---------------------------------------------------------------------------

/// Messages of an ignored number go to General and change nothing.
pub proof fn law_ignored_goes_to_general(t: Tables, e164: Seq<char>, follow: bool)
    requires
        is_ignored(t, e164),
    ensures
        routed(t, e164, follow) == (InboundDestView::General { e164 }),
        received_from(t, e164) == t,
{
}

/// Sending to a number and receiving from it happen in the same place.
pub proof fn law_both_ways_meet(t: Tables, e164: Seq<char>)
    ensures
        routed(t, e164, true) is ExistingTopic <==> routed(t, e164, false) is ExistingTopic,
        !(routed(t, e164, true) is ExistingTopic) ==> routed(t, e164, true) == routed(
            t,
            e164,
            false,
        ),
        routed(t, e164, true) is ExistingTopic ==> routed(t, e164, true)->thread_id == routed(
            t,
            e164,
            false,
        )->thread_id,
{
}

/// What the topics of a contact are does not depend on their default numbers.
proof fn lemma_contact_topic_kept(t: Tables, thread_id: i32, e164: Seq<char>, id: i64)
    ensures
        topic_by_contact(default_put(t, thread_id, e164), id) == match topic_by_contact(t, id) {
            Some(topic) => Some(
                if topic.thread_id == thread_id {
                    TopicView { default_e164: Some(e164), ..topic }
                } else {
                    topic
                },
            ),
            None => None,
        },
{
    let f = defaulting(thread_id, e164);
    let p = about_contact(id);
    let new = t.topics.map_values(f);
    let i = find(t.topics, p);
    lemma_find(t.topics, p);
    assert forall|j: int| 0 <= j < i implies !p(#[trigger] new[j]) by {
        assert(new[j] == f(t.topics[j]));
        assert(!p(t.topics[j]));
    }
    if i < new.len() {
        assert(new[i] == f(t.topics[i]));
    }
    lemma_find_is(new, p, i);
}

proof fn lemma_contact_kept(t: Tables, thread_id: i32, default: Seq<char>, e164: Seq<char>)
    ensures
        contact_by_e164(default_put(t, thread_id, default), e164) == contact_by_e164(t, e164),
{
    let new = default_put(t, thread_id, default);
    assert(holding(new, e164) =~= holding(t, e164));
}

/// A contact is answered on the number that it last wrote from: once a message
/// of that number has come in, a text typed in the contact's topic goes there.
pub proof fn law_answers_follow_the_contact(t: Tables, e164: Seq<char>)
    requires
        t.wf(),
        !is_ignored(t, e164),
        contact_topic(t, e164) is Some,
        contact_topic(t, e164)->0.thread_id != GENERAL_THREAD,
    ensures
        planned(received_from(t, e164), contact_topic(t, e164)->0.thread_id) == (
        OutboundPlanView::Send { e164 }),
{
    let topic = contact_topic(t, e164)->0;
    let p = about_contact(contact_by_e164(t, e164)->0.id);
    let i = find(t.topics, p);
    lemma_find(t.topics, p);
    let q = in_thread(topic.thread_id);
    assert forall|j: int| 0 <= j < i implies !q(#[trigger] t.topics[j]) by {
        assert(t.topics[j].topic.thread_id < t.topics[i].topic.thread_id);
    }
    lemma_find_is(t.topics, q, i);
    law_default_comes_back(t, topic.thread_id, e164, topic.thread_id);
}

/// That a contact writes from another number is noted once: the next message
/// of that number finds it the default one.
pub proof fn law_switch_is_noted_once(t: Tables, e164: Seq<char>)
    ensures
        switched(default_followed(t, e164), e164) is None,
        default_followed(default_followed(t, e164), e164) == default_followed(t, e164),
{
    if let Some(topic) = contact_topic(t, e164) {
        let id = contact_by_e164(t, e164)->0.id;
        let after = default_followed(t, e164);
        lemma_contact_kept(t, topic.thread_id, e164, e164);
        lemma_contact_topic_kept(t, topic.thread_id, e164, id);
        let twice = default_followed(after, e164);
        assert(twice.topics =~= after.topics);
    }
}

/// Planning settles: a text typed again in the same thread goes the same way,
/// and the second plan changes nothing.
pub proof fn law_plan_is_settled(t: Tables, thread_id: i32)
    ensures
        planned(plan_kept(t, thread_id), thread_id) == planned(t, thread_id),
        plan_kept(plan_kept(t, thread_id), thread_id) == plan_kept(t, thread_id),
{
    if let OutboundPlanView::Send { e164 } = planned(t, thread_id) {
        law_default_comes_back(t, thread_id, e164, thread_id);
    }
}

/// A topic that was created for a number is the one that its messages go to
/// from then on, both ways: no second one is created.
pub proof fn law_created_topic_is_used(t: Tables, e164: Seq<char>, topic: TopicView, follow: bool)
    requires
        !is_ignored(t, e164),
        topic_for(t, e164) is None,
        topic.default_e164 == Some(e164),
        topic.contact_id matches Some(c) ==> contact_by_e164(t, e164) matches Some(found)
            && found.id == c,
    ensures
        routed(topic_put(t, topic), e164, follow) == (InboundDestView::ExistingTopic {
            thread_id: topic.thread_id,
            note_switch_to: None,
        }),
{
    let id = match contact_by_e164(t, e164) {
        Some(c) => c.id,
        None => 0,
    };
    law_first_topic_is_found(t, topic, id, e164);
}

/// Nothing typed in General is a message.
pub proof fn law_general_sends_nothing(t: Tables)
    ensures
        planned(t, GENERAL_THREAD) is NotSms,
        plan_kept(t, GENERAL_THREAD) == t,
{
}

} // verus!
