//! Whom an action is about.
use vstd::prelude::*;

use crate::actions::{ActionError, ActionErrorView};
use crate::db::{clone_opt, Contact, Db, Topic};
use crate::normalize::{complaint, normalize_e164, normalized};
use crate::route::GENERAL_THREAD;
use crate::rows::{find, lemma_find, lemma_find_is, opt_view, res_view};
use crate::tables::{
    about_contact, contact_by_e164, contact_by_id, first_topic, in_thread, topic_by_contact,
    topic_by_e164, topic_by_thread, with_default, with_id, ContactView, Tables, TopicRowView,
    TopicView,
};
use crate::text::{nonblank, trim};

verus! {

/// Up to three ways to say whom an action is about.
#[derive(Debug)]
pub struct Identity {
    pub number: Option<String>,
    pub contact_id: Option<i64>,
    pub thread_id: Option<i32>,
}

pub struct IdentityView {
    pub number: Option<Seq<char>>,
    pub contact_id: Option<i64>,
    pub thread_id: Option<i32>,
}

impl View for Identity {
    type V = IdentityView;

    open spec fn view(&self) -> IdentityView {
        IdentityView {
            number: opt_view(self.number),
            contact_id: self.contact_id,
            thread_id: self.thread_id,
        }
    }
}

impl Default for Identity {
    fn default() -> (r: Self)
        ensures
            r@ == (IdentityView { number: None, contact_id: None, thread_id: None }),
    {
        Identity { number: None, contact_id: None, thread_id: None }
    }
}

impl Clone for Identity {
    fn clone(&self) -> (r: Self)
        ensures
            r@ == self@,
    {
        Identity {
            number: clone_opt(&self.number),
            contact_id: self.contact_id,
            thread_id: self.thread_id,
        }
    }
}

#[derive(Debug, Clone, Copy, PartialEq, Eq, Structural)]
pub enum ResolveMode {
    /// who / number: need a real topic
    RequireTopic,
    /// sms / ignore: unknown E.164 allowed
    AllowBareNumber,
    /// open: unknown number allowed (caller may create topic)
    Open,
}

#[derive(Debug)]
pub struct Resolved {
    pub contact: Option<Contact>,
    pub topic: Option<Topic>,
    pub e164: Option<String>,
}

pub struct ResolvedView {
    pub contact: Option<ContactView>,
    pub topic: Option<TopicView>,
    pub e164: Option<Seq<char>>,
}

impl View for Resolved {
    type V = ResolvedView;

    open spec fn view(&self) -> ResolvedView {
        ResolvedView {
            contact: opt_view(self.contact),
            topic: opt_view(self.topic),
            e164: opt_view(self.e164),
        }
    }
}

pub open spec fn one<A>(o: Option<A>) -> Seq<A> {
    match o {
        Some(a) => seq![a],
        None => Seq::empty(),
    }
}

/// All the same.
pub open spec fn agree<A>(s: Seq<A>) -> bool {
    forall|i: int, j: int| 0 <= i < s.len() && 0 <= j < s.len() ==> #[trigger] s[i] == #[trigger] s[j]
}

pub open spec fn id_of(c: Option<ContactView>) -> Option<i64> {
    match c {
        Some(c) => Some(c.id),
        None => None,
    }
}

pub open spec fn thread_of(t: Option<TopicView>) -> Option<i32> {
    match t {
        Some(t) => Some(t.thread_id),
        None => None,
    }
}

pub open spec fn owner_of(t: Option<TopicView>) -> Option<i64> {
    match t {
        Some(t) => t.contact_id,
        None => None,
    }
}

pub open spec fn either<A>(a: Option<A>, b: Option<A>) -> Option<A> {
    if a is Some {
        a
    } else {
        b
    }
}

pub open spec fn contact_of_id(t: Tables, id: Option<i64>) -> Option<ContactView> {
    match id {
        Some(id) => contact_by_id(t, id),
        None => None,
    }
}

pub open spec fn contact_of_number(t: Tables, e164: Option<Seq<char>>) -> Option<ContactView> {
    match e164 {
        Some(e164) => contact_by_e164(t, e164),
        None => None,
    }
}

pub open spec fn topic_of_thread(t: Tables, thread_id: Option<i32>) -> Option<TopicView> {
    match thread_id {
        Some(id) => topic_by_thread(t, id),
        None => None,
    }
}

pub open spec fn topic_of_contact(t: Tables, c: Option<ContactView>) -> Option<TopicView> {
    match c {
        Some(c) => topic_by_contact(t, c.id),
        None => None,
    }
}

/// The contact that the fields name: the one of the number, and else the one
/// of the id.
pub open spec fn named_contact(t: Tables, id: IdentityView, e164: Option<Seq<char>>) -> Option<
    ContactView,
> {
    either(contact_of_number(t, e164), contact_of_id(t, id.contact_id))
}

/// The topic that the number leads to: the one whose default it is, and else
/// the one of the contact.
pub open spec fn number_topic(t: Tables, id: IdentityView, e164: Option<Seq<char>>) -> Option<
    TopicView,
> {
    match e164 {
        Some(e) => either(topic_by_e164(t, e), topic_of_contact(t, named_contact(t, id, e164))),
        None => None,
    }
}

/// The topic that the fields name.
pub open spec fn named_topic(t: Tables, id: IdentityView, e164: Option<Seq<char>>) -> Option<
    TopicView,
> {
    either(
        number_topic(t, id, e164),
        either(
            topic_of_thread(t, id.thread_id),
            topic_of_contact(t, named_contact(t, id, e164)),
        ),
    )
}

/// Every contact that some field leads to.
pub open spec fn contact_ids(t: Tables, id: IdentityView, e164: Option<Seq<char>>) -> Seq<i64> {
    one(id_of(contact_of_id(t, id.contact_id))) + one(id_of(contact_of_number(t, e164))) + one(
        owner_of(named_topic(t, id, e164)),
    )
}

/// Every topic that some field leads to.
pub open spec fn topic_ids(t: Tables, id: IdentityView, e164: Option<Seq<char>>) -> Seq<i32> {
    one(thread_of(topic_of_thread(t, id.thread_id))) + one(
        thread_of(number_topic(t, id, e164)),
    ) + one(thread_of(topic_of_contact(t, named_contact(t, id, e164))))
}

/// The fields do not lead to one contact and one topic.
pub open spec fn conflicting(t: Tables, id: IdentityView, e164: Option<Seq<char>>) -> bool {
    ||| !agree(contact_ids(t, id, e164))
    ||| !agree(topic_ids(t, id, e164))
    ||| id.thread_id is Some && named_topic(t, id, e164) is Some && id.thread_id != thread_of(
        named_topic(t, id, e164),
    )
}

/// A topic is needed and the thread given is none.
pub open spec fn thread_unusable(t: Tables, id: IdentityView, mode: ResolveMode) -> bool {
    mode == ResolveMode::RequireTopic && (id.thread_id matches Some(tid) && (tid == GENERAL_THREAD
        || topic_by_thread(t, tid) is None))
}

/// Whom the fields mean, given the E.164 form of the number among them.
pub open spec fn resolved_with(
    t: Tables,
    id: IdentityView,
    e164: Option<Seq<char>>,
    mode: ResolveMode,
) -> Result<ResolvedView, ActionErrorView> {
    let topic = named_topic(t, id, e164);
    if e164 is None && id.contact_id is None {
        Err(ActionErrorView::MissingIdentity)
    } else if id.contact_id is Some && contact_of_id(t, id.contact_id) is None {
        Err(ActionErrorView::NotFound("unknown contact"@))
    } else if thread_unusable(t, id, mode) {
        Err(ActionErrorView::NotFound("unknown topic"@))
    } else if conflicting(t, id, e164) {
        Err(ActionErrorView::IdentityConflict)
    } else if mode == ResolveMode::RequireTopic && topic is None {
        Err(ActionErrorView::NotFound("unknown topic"@))
    } else {
        Ok(
            ResolvedView {
                contact: either(named_contact(t, id, e164), contact_of_id(t, owner_of(topic))),
                topic,
                e164,
            },
        )
    }
}

/// Whom the fields mean, or why that cannot be said.
pub open spec fn resolution(
    t: Tables,
    region: Seq<char>,
    id: IdentityView,
    mode: ResolveMode,
) -> Result<ResolvedView, ActionErrorView> {
    match nonblank(id.number) {
        Some(raw) => match normalized(raw, region) {
            Ok(e164) => resolved_with(t, id, Some(e164), mode),
            Err(e) => Err(ActionErrorView::InvalidNumber(complaint(e))),
        },
        None => resolved_with(t, id, None, mode),
    }
}

fn all_same_contacts(v: &Vec<i64>) -> (r: bool)
    ensures
        r == agree(v@),
{
    let mut i: usize = 0;
    while i < v.len()
        invariant
            i <= v@.len(),
            forall|j: int| 0 <= j < i ==> #[trigger] v@[j] == v@[0],
        decreases v@.len() - i,
    {
        if v[i] != v[0] {
            assert(v@[i as int] != v@[0]);
            return false;
        }
        i = i + 1;
    }
    true
}

fn all_same_topics(v: &Vec<i32>) -> (r: bool)
    ensures
        r == agree(v@),
{
    let mut i: usize = 0;
    while i < v.len()
        invariant
            i <= v@.len(),
            forall|j: int| 0 <= j < i ==> #[trigger] v@[j] == v@[0],
        decreases v@.len() - i,
    {
        if v[i] != v[0] {
            assert(v@[i as int] != v@[0]);
            return false;
        }
        i = i + 1;
    }
    true
}

fn not_found(what: &str) -> (r: ActionError)
    ensures
        r@ == ActionErrorView::NotFound(what@),
{
    ActionError::NotFound(what.to_owned())
}

/// Finds whom the fields mean, the number already in E.164 form.
pub fn resolve_with(db: &Db, id: &Identity, e164: Option<String>, mode: ResolveMode) -> (r: Result<
    Resolved,
    ActionError,
>)
    ensures
        res_view(r) == resolved_with(db@, id@, opt_view(e164), mode),
{
    let ghost t = db@;
    let ghost e = opt_view(e164);
    if e164.is_none() && id.contact_id.is_none() {
        return Err(ActionError::MissingIdentity);
    }
    let mut contact: Option<Contact> = None;
    let mut topic: Option<Topic> = None;
    let mut contact_ids: Vec<i64> = Vec::new();
    let mut topic_ids: Vec<i32> = Vec::new();

    if let Some(cid) = id.contact_id {
        match db.get_contact(cid) {
            Ok(Some(c)) => {
                contact_ids.push(c.id);
                contact = Some(c);
            },
            Ok(None) => {
                return Err(not_found("unknown contact"));
            },
            Err(e) => {
                return Err(ActionError::Db(e));
            },
        }
    }
    assert(contact_ids@ =~= one(id_of(contact_of_id(t, id.contact_id))));
    assert(opt_view(contact) == contact_of_id(t, id.contact_id));

    if let Some(tid) = id.thread_id {
        if tid == GENERAL_THREAD && mode == ResolveMode::RequireTopic {
            return Err(not_found("unknown topic"));
        }
        match db.get_topic_by_thread(tid) {
            Ok(Some(found)) => {
                topic_ids.push(found.thread_id);
                topic = Some(found);
            },
            Ok(None) => {
                if mode == ResolveMode::RequireTopic {
                    return Err(not_found("unknown topic"));
                }
            },
            Err(e) => {
                return Err(ActionError::Db(e));
            },
        }
    }
    assert(topic_ids@ =~= one(thread_of(topic_of_thread(t, id.thread_id))));
    assert(opt_view(topic) == topic_of_thread(t, id.thread_id));

    if let Some(number) = &e164 {
        match db.find_contact_by_e164(number.as_str()) {
            Ok(Some(c)) => {
                contact_ids.push(c.id);
                contact = Some(c);
            },
            Ok(None) => {},
            Err(e) => {
                return Err(ActionError::Db(e));
            },
        }
        assert(opt_view(contact) == named_contact(t, id@, e));
        let by_number = match db.get_topic_by_e164(number.as_str()) {
            Ok(Some(found)) => Some(found),
            Ok(None) => match &contact {
                Some(c) => match db.get_topic_by_contact(c.id) {
                    Ok(found) => found,
                    Err(e) => {
                        return Err(ActionError::Db(e));
                    },
                },
                None => None,
            },
            Err(e) => {
                return Err(ActionError::Db(e));
            },
        };
        assert(opt_view(by_number) == number_topic(t, id@, e));
        if let Some(found) = by_number {
            topic_ids.push(found.thread_id);
            topic = Some(found);
        }
    }
    assert(contact_ids@ =~= one(id_of(contact_of_id(t, id.contact_id))) + one(
        id_of(contact_of_number(t, e)),
    ));
    assert(topic_ids@ =~= one(thread_of(topic_of_thread(t, id.thread_id))) + one(
        thread_of(number_topic(t, id@, e)),
    ));

    if let Some(c) = &contact {
        match db.get_topic_by_contact(c.id) {
            Ok(Some(found)) => {
                topic_ids.push(found.thread_id);
                if topic.is_none() {
                    topic = Some(found);
                }
            },
            Ok(None) => {},
            Err(e) => {
                return Err(ActionError::Db(e));
            },
        }
    }
    assert(opt_view(topic) == named_topic(t, id@, e));
    assert(topic_ids@ =~= crate::actions::identity::topic_ids(t, id@, e));

    if let Some(found) = &topic {
        if let Some(cid) = found.contact_id {
            contact_ids.push(cid);
        }
    }
    assert(contact_ids@ =~= crate::actions::identity::contact_ids(t, id@, e));

    if !all_same_contacts(&contact_ids) {
        return Err(ActionError::IdentityConflict);
    }
    if !all_same_topics(&topic_ids) {
        return Err(ActionError::IdentityConflict);
    }
    if let Some(provided) = id.thread_id {
        if let Some(found) = &topic {
            if provided != found.thread_id {
                return Err(ActionError::IdentityConflict);
            }
        }
    }
    if contact.is_none() {
        if let Some(found) = &topic {
            if let Some(cid) = found.contact_id {
                match db.get_contact(cid) {
                    Ok(c) => {
                        contact = c;
                    },
                    Err(e) => {
                        return Err(ActionError::Db(e));
                    },
                }
            }
        }
    }
    if mode == ResolveMode::RequireTopic && topic.is_none() {
        return Err(not_found("unknown topic"));
    }
    Ok(Resolved { contact, topic, e164 })
}

/// Finds whom the fields mean.
pub fn resolve(db: &Db, region: &str, id: &Identity, mode: ResolveMode) -> (r: Result<
    Resolved,
    ActionError,
>)
    ensures
        res_view(r) == resolution(db@, region@, id@, mode),
{
    let raw = match &id.number {
        Some(n) => trim(n.as_str()),
        None => String::new(),
    };
    if raw.as_str().is_empty() {
        return resolve_with(db, id, None, mode);
    }
    match normalize_e164(raw.as_str(), region) {
        Ok(e164) => resolve_with(db, id, Some(e164), mode),
        Err(e) => Err(ActionError::InvalidNumber(e.message())),
    }
}

/// Whom the fields mean where a thread alone will do: the topic of the thread.
pub open spec fn resolution_here(
    t: Tables,
    region: Seq<char>,
    id: IdentityView,
    mode: ResolveMode,
) -> Result<ResolvedView, ActionErrorView> {
    if nonblank(id.number) is None && id.contact_id is None && id.thread_id is Some {
        match topic_of_thread(t, id.thread_id) {
            Some(topic) => Ok(
                ResolvedView {
                    contact: contact_of_id(t, topic.contact_id),
                    topic: Some(topic),
                    e164: None,
                },
            ),
            None => Err(ActionErrorView::NotFound("unknown topic"@)),
        }
    } else {
        resolution(t, region, id, mode)
    }
}

/// Finds whom the fields mean, a thread alone being enough.
pub fn resolve_here(db: &Db, region: &str, id: &Identity, mode: ResolveMode) -> (r: Result<
    Resolved,
    ActionError,
>)
    ensures
        res_view(r) == resolution_here(db@, region@, id@, mode),
{
    if id.contact_id.is_none() && !has_number(id) {
        if let Some(thread_id) = id.thread_id {
            return match db.get_topic_by_thread(thread_id) {
                Ok(Some(topic)) => {
                    let contact = match topic.contact_id {
                        Some(cid) => match db.get_contact(cid) {
                            Ok(c) => c,
                            Err(e) => {
                                return Err(ActionError::Db(e));
                            },
                        },
                        None => None,
                    };
                    Ok(Resolved { contact, topic: Some(topic), e164: None })
                },
                Ok(None) => Err(not_found("unknown topic")),
                Err(e) => Err(ActionError::Db(e)),
            };
        }
    }
    resolve(db, region, id, mode)
}

/// A number is among the fields, and is more than white space.
pub fn has_number(id: &Identity) -> (r: bool)
    ensures
        r == (nonblank(id@.number) is Some),
{
    match &id.number {
        Some(n) => !trim(n.as_str()).as_str().is_empty(),
        None => false,
    }
}

/// A topic that was found is the one of its thread.
proof fn lemma_found_in_thread(t: Tables, p: spec_fn(TopicRowView) -> bool)
    requires
        t.wf(),
    ensures
        first_topic(t, p) matches Some(topic) ==> topic_by_thread(t, topic.thread_id) == Some(topic),
{
    let i = find(t.topics, p);
    lemma_find(t.topics, p);
    if i < t.topics.len() {
        let q = in_thread(t.topics[i].topic.thread_id);
        assert forall|j: int| 0 <= j < i implies !q(#[trigger] t.topics[j]) by {
            assert(t.topics[j].topic.thread_id < t.topics[i].topic.thread_id);
        }
        lemma_find_is(t.topics, q, i);
    }
}

/// The topic that an identity means is one that the tables hold, and it is the
/// one of its thread.
pub proof fn law_resolved_topic_is_there(
    t: Tables,
    region: Seq<char>,
    id: IdentityView,
    mode: ResolveMode,
)
    requires
        t.wf(),
    ensures
        resolution_here(t, region, id, mode) matches Ok(r) ==> (r.topic matches Some(topic)
            ==> topic_by_thread(t, topic.thread_id) == Some(topic)),
        resolution(t, region, id, mode) matches Ok(r) ==> (r.topic matches Some(topic)
            ==> topic_by_thread(t, topic.thread_id) == Some(topic)),
{
    let e164 = match nonblank(id.number) {
        Some(raw) => match normalized(raw, region) {
            Ok(e164) => Some(e164),
            Err(_) => None,
        },
        None => None,
    };
    if let Some(e) = e164 {
        lemma_found_in_thread(t, with_default(e));
    }
    if let Some(c) = named_contact(t, id, e164) {
        lemma_found_in_thread(t, about_contact(c.id));
    }
    if let Some(thread_id) = id.thread_id {
        lemma_found_in_thread(t, in_thread(thread_id));
    }
}

/// Fields that lead to different contacts or different topics are refused: what
/// an identity is found to mean agrees with every field of it.
pub proof fn law_resolved_agrees(
    t: Tables,
    id: IdentityView,
    e164: Option<Seq<char>>,
    mode: ResolveMode,
)
    ensures
        resolved_with(t, id, e164, mode) matches Ok(r) ==> {
            &&& r.e164 == e164
            &&& id.contact_id matches Some(c) ==> id_of(r.contact) == Some(c)
            &&& id.thread_id matches Some(th) ==> (r.topic matches Some(topic) ==> topic.thread_id
                == th)
            &&& mode == ResolveMode::RequireTopic ==> r.topic is Some
        },
{
    if resolved_with(t, id, e164, mode) is Ok {
        if let Some(c) = id.contact_id {
            lemma_find(t.contacts, with_id(c));
            let ids = contact_ids(t, id, e164);
            let own = contact_of_id(t, id.contact_id);
            assert(ids[0] == c);
            if contact_of_number(t, e164) is Some {
                assert(ids[1] == contact_of_number(t, e164)->0.id);
                assert(ids[0] == ids[1]);
            }
        }
    }
}

} // verus!
