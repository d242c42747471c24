//! Opening the topic of a contact or of a number.
use vstd::prelude::*;

use crate::actions::identity::{
    contact_ids, contact_of_number, named_contact, named_topic, one, resolution, resolve, Identity,
    IdentityView, ResolveMode, Resolved, ResolvedView,
};
use crate::actions::{ActionError, ActionErrorView};
use crate::app::effect::{Effect, EffectView, Outcome, OutcomeView, Step, StepView};
use crate::db::laws::law_first_topic_is_found;
use crate::db::{clone_opt, Contact, Db, DbErrorView, Topic};
use crate::normalize::normalized;
use crate::route::{titled, topic_title};
use crate::rows::{lemma_find, opt_view, res_view, views};
use crate::tables::{holding, topic_fits, topic_put, with_id, ContactView, Tables, TopicView};
use crate::text::nonblank;

verus! {

/// A topic that is there now.
#[derive(Debug)]
pub struct Opened {
    pub contact_id: Option<i64>,
    pub thread_id: i32,
    pub title: String,
    pub created: bool,
}

pub struct OpenedView {
    pub contact_id: Option<i64>,
    pub thread_id: i32,
    pub title: Seq<char>,
    pub created: bool,
}

impl View for Opened {
    type V = OpenedView;

    open spec fn view(&self) -> OpenedView {
        OpenedView {
            contact_id: self.contact_id,
            thread_id: self.thread_id,
            title: self.title@,
            created: self.created,
        }
    }
}

/// A topic that is being created.
#[derive(Debug)]
pub struct Opening {
    pub contact_id: Option<i64>,
    pub default_e164: Option<String>,
    pub title: String,
}

pub struct OpeningView {
    pub contact_id: Option<i64>,
    pub default_e164: Option<Seq<char>>,
    pub title: Seq<char>,
}

impl View for Opening {
    type V = OpeningView;

    open spec fn view(&self) -> OpeningView {
        OpeningView {
            contact_id: self.contact_id,
            default_e164: opt_view(self.default_e164),
            title: self.title@,
        }
    }
}

pub type OpenStep = Step<Opening, Result<Opened, ActionError>>;

pub type OpenStepView = StepView<OpeningView, Result<OpenedView, ActionErrorView>>;

pub open spec fn open_step_view(s: OpenStep) -> OpenStepView {
    match s {
        Step::Do(e, k) => StepView::Do(e@, k@),
        Step::End(r) => StepView::End(res_view(r)),
    }
}

/// The topic for a contact that has none: its only number is the default one
/// and stands in the title; among several the choice is left open.
pub open spec fn opening_for_contact(c: ContactView) -> OpeningView {
    if c.numbers.len() == 1 {
        OpeningView {
            contact_id: Some(c.id),
            default_e164: Some(c.numbers[0]),
            title: titled(c.display_name, c.numbers[0]),
        }
    } else {
        OpeningView { contact_id: Some(c.id), default_e164: None, title: c.display_name }
    }
}

/// The topic for a number of nobody.
pub open spec fn opening_for_number(e164: Seq<char>) -> OpeningView {
    OpeningView { contact_id: None, default_e164: Some(e164), title: e164 }
}

pub open spec fn open_do(o: OpeningView) -> OpenStepView {
    StepView::Do(EffectView::CreateTopic { title: o.title }, o)
}

/// How opening a resolved topic begins. One that is there is not created again.
pub open spec fn open_for(r: ResolvedView) -> OpenStepView {
    match r.topic {
        Some(topic) => StepView::End(
            Ok(
                OpenedView {
                    contact_id: topic.contact_id,
                    thread_id: topic.thread_id,
                    title: topic.title,
                    created: false,
                },
            ),
        ),
        None => match r.contact {
            Some(c) => open_do(opening_for_contact(c)),
            None => match r.e164 {
                Some(e164) => open_do(opening_for_number(e164)),
                None => StepView::End(Err(ActionErrorView::MissingIdentity)),
            },
        },
    }
}

/// How opening a topic begins. The thread among the fields plays no part.
pub open spec fn open_begun(t: Tables, region: Seq<char>, id: IdentityView) -> OpenStepView {
    match resolution(t, region, (IdentityView { thread_id: None, ..id }), ResolveMode::Open) {
        Err(e) => StepView::End(Err(e)),
        Ok(r) => open_for(r),
    }
}

/// The row of a created topic.
pub open spec fn opening_topic(o: OpeningView, thread_id: i32) -> TopicView {
    TopicView {
        thread_id,
        contact_id: o.contact_id,
        default_e164: o.default_e164,
        title: o.title,
        ignored: false,
    }
}

pub open spec fn not_stored() -> ActionErrorView {
    ActionErrorView::Db(DbErrorView::Sqlite("FOREIGN KEY constraint failed"@))
}

/// How opening ends.
pub open spec fn open_next(t: Tables, o: OpeningView, outcome: OutcomeView) -> OpenStepView {
    match outcome {
        OutcomeView::TelegramFailed(e) => StepView::End(
            Err(ActionErrorView::TelegramFailed { sent: false, message: e.words() }),
        ),
        OutcomeView::Created(thread_id) => if topic_fits(t, opening_topic(o, thread_id)) {
            StepView::End(
                Ok(
                    OpenedView {
                        contact_id: o.contact_id,
                        thread_id,
                        title: o.title,
                        created: true,
                    },
                ),
            )
        } else {
            StepView::End(Err(not_stored()))
        },
        _ => StepView::End(Err(ActionErrorView::MissingIdentity)),
    }
}

/// The created topic is stored.
pub open spec fn open_after(t: Tables, o: OpeningView, outcome: OutcomeView) -> Tables {
    match outcome {
        OutcomeView::Created(thread_id) => if topic_fits(t, opening_topic(o, thread_id)) {
            topic_put(t, opening_topic(o, thread_id))
        } else {
            t
        },
        _ => t,
    }
}

pub open spec fn open_awaits(o: OutcomeView) -> bool {
    o is Created || o is TelegramFailed
}

pub(crate) fn opening_of_contact(c: &Contact) -> (r: Opening)
    ensures
        r@ == opening_for_contact(c@),
{
    if c.numbers.len() == 1 {
        assert(views(c.numbers@)[0] == c.numbers@[0]@);
        Opening {
            contact_id: Some(c.id),
            default_e164: Some(c.numbers[0].clone()),
            title: topic_title(c.display_name.as_str(), c.numbers[0].as_str()),
        }
    } else {
        Opening { contact_id: Some(c.id), default_e164: None, title: c.display_name.clone() }
    }
}

pub(crate) fn opening_of_number(e164: String) -> (r: Opening)
    ensures
        r@ == opening_for_number(e164@),
{
    Opening { contact_id: None, default_e164: Some(e164.clone()), title: e164 }
}

fn creating(o: Opening) -> (r: OpenStep)
    ensures
        open_step_view(r) == open_do(o@),
{
    let effect = Effect::CreateTopic { title: o.title.clone() };
    Step::Do(effect, o)
}

/// Begins to open a resolved topic.
pub fn open_resolved(resolved: Resolved) -> (r: OpenStep)
    ensures
        open_step_view(r) == open_for(resolved@),
{
    match resolved.topic {
        Some(topic) => Step::End(
            Ok(
                Opened {
                    contact_id: topic.contact_id,
                    thread_id: topic.thread_id,
                    title: topic.title,
                    created: false,
                },
            ),
        ),
        None => match &resolved.contact {
            Some(c) => creating(opening_of_contact(c)),
            None => match resolved.e164 {
                Some(e164) => creating(opening_of_number(e164)),
                None => Step::End(Err(ActionError::MissingIdentity)),
            },
        },
    }
}

/// Begins to open the topic of a contact or of a number.
pub fn open_topic(db: &Db, region: &str, id: &Identity) -> (r: OpenStep)
    ensures
        open_step_view(r) == open_begun(db@, region@, id@),
{
    let whom = Identity {
        number: clone_opt(&id.number),
        contact_id: id.contact_id,
        thread_id: None,
    };
    match resolve(db, region, &whom, ResolveMode::Open) {
        Err(e) => Step::End(Err(e)),
        Ok(resolved) => open_resolved(resolved),
    }
}

impl Opening {
    /// Ends with what came of creating the topic.
    pub fn next(self, db: &mut Db, outcome: Outcome) -> (r: OpenStep)
        requires
            old(db)@.wf(),
            open_awaits(outcome@),
        ensures
            final(db)@.wf(),
            final(db)@ == open_after(old(db)@, self@, outcome@),
            open_step_view(r) == open_next(old(db)@, self@, outcome@),
    {
        match outcome {
            Outcome::TelegramFailed(e) => Step::End(
                Err(ActionError::TelegramFailed { sent: false, message: e.message() }),
            ),
            Outcome::Created(thread_id) => {
                let topic = Topic {
                    thread_id,
                    contact_id: self.contact_id,
                    default_e164: self.default_e164,
                    title: self.title,
                    ignored: false,
                };
                match db.upsert_topic(&topic) {
                    Err(e) => Step::End(Err(ActionError::Db(e))),
                    Ok(_) => Step::End(
                        Ok(
                            Opened {
                                contact_id: topic.contact_id,
                                thread_id,
                                title: topic.title,
                                created: true,
                            },
                        ),
                    ),
                }
            },
            _ => Step::End(Err(ActionError::MissingIdentity)),
        }
    }
}

/// A topic is opened once: after it was created and stored, opening it again
/// gives the same one back and creates none.
pub proof fn law_opened_once(
    t: Tables,
    region: Seq<char>,
    id: IdentityView,
    opening: OpeningView,
    thread_id: i32,
)
    requires
        t.wf(),
        open_begun(t, region, id) == open_do(opening),
    ensures
        ({
            let created = OutcomeView::Created(thread_id);
            let opened = OpenedView {
                contact_id: opening.contact_id,
                thread_id,
                title: opening.title,
                created: true,
            };
            let after = open_after(t, opening, created);
            &&& open_next(t, opening, created) == OpenStepView::End(Ok(opened))
            &&& open_begun(after, region, id) == OpenStepView::End(
                Ok(OpenedView { created: false, ..opened }),
            )
        }),
{
    let whom = IdentityView { thread_id: None, ..id };
    let topic = opening_topic(opening, thread_id);
    let e164 = match nonblank(id.number) {
        Some(raw) => match normalized(raw, region) {
            Ok(e164) => Some(e164),
            Err(_) => None,
        },
        None => None,
    };
    let contact = named_contact(t, whom, e164);
    let number = match e164 {
        Some(e) => e,
        None => Seq::empty(),
    };
    if let Some(c) = contact {
        lemma_find(t.contacts, with_id(c.id));
        lemma_find(t.contacts, holding(t, number));
        if let Some(cid) = id.contact_id {
            lemma_find(t.contacts, with_id(cid));
        }
        law_first_topic_is_found(t, topic, c.id, number);
    }
    if let Some(cid) = id.contact_id {
        law_first_topic_is_found(t, topic, cid, number);
    }
    law_first_topic_is_found(t, topic, 0, number);
    let after = topic_put(t, topic);
    assert(named_contact(after, whom, e164) == contact);
    assert(topic_fits(t, topic));
    assert(named_topic(after, whom, e164) == Some(topic));
    let before = contact_ids(t, whom, e164);
    let ids = contact_ids(after, whom, e164);
    assert(ids =~= before + one(opening.contact_id));
    assert forall|i: int| 0 <= i < before.len() implies Some(#[trigger] before[i])
        == opening.contact_id by {
        let by_number = contact_of_number(t, e164);
        if by_number is Some {
            assert(before.last() == by_number->0.id);
        } else {
            assert(before[0] == contact->0.id);
        }
        assert(before[i] == before.last() && before[i] == before[0]);
    }
    assert forall|i: int| 0 <= i < ids.len() implies Some(#[trigger] ids[i])
        == opening.contact_id by {
        assert(i < before.len() ==> ids[i] == before[i]);
    }
}

} // verus!
