//! The tables of the gateway as mathematical values: what they hold, what
//! every state of them keeps, and what each query and each change means.
use vstd::prelude::*;

use crate::collate::{at_most, below, like};
use crate::rows::{count, find, first};

verus! {

pub struct ContactView {
    pub id: i64,
    pub google_resource: Seq<char>,
    pub display_name: Seq<char>,
    pub numbers: Seq<Seq<char>>,
    pub ambiguous: bool,
}

pub struct TopicView {
    pub thread_id: i32,
    pub contact_id: Option<i64>,
    pub default_e164: Option<Seq<char>>,
    pub title: Seq<char>,
    pub ignored: bool,
}

pub struct ContactRowView {
    pub id: i64,
    pub google_resource: Seq<char>,
    pub display_name: Seq<char>,
    pub last_synced: Seq<char>,
}

pub struct NumberRowView {
    pub contact_id: i64,
    pub e164: Seq<char>,
    pub last_seen_incoming: Option<Seq<char>>,
}

pub struct TopicRowView {
    pub topic: TopicView,
    pub pending_outbound: Option<Seq<char>>,
    pub pending_reply_to: Option<i32>,
}

pub struct InboundRowView {
    pub id: i64,
    pub mm_path: Seq<char>,
    pub e164: Seq<char>,
    pub body: Seq<char>,
    pub tg_msg: Option<i32>,
    pub created_at: Seq<char>,
    pub sms_ts: Option<Seq<char>>,
    pub thread_id: Option<i32>,
}

pub struct OutboundRowView {
    pub id: i64,
    pub e164: Seq<char>,
    pub body: Seq<char>,
    pub result: Seq<char>,
    pub created_at: Seq<char>,
    pub thread_id: Option<i32>,
}

/// What the owner is to type next while choosing where calls go.
#[derive(Debug, Clone, Copy, PartialEq, Eq, Structural)]
pub enum PendingForwardMode {
    Search,
    Number,
}

/// A forwarding dialogue that waits for a text, and the message that shows it.
#[derive(Debug, Clone, Copy, PartialEq, Eq, Structural)]
pub struct PendingForward {
    pub mode: PendingForwardMode,
    pub edit_chat_id: i64,
    pub edit_message_id: i32,
}

/// All tables at one moment. Contacts, inbound and outbound messages stand in
/// the order of their ids, topics in the order of their threads, numbers in the
/// order in which they were stored.
pub struct Tables {
    pub contacts: Seq<ContactRowView>,
    pub numbers: Seq<NumberRowView>,
    pub topics: Seq<TopicRowView>,
    pub ignored: Seq<Seq<char>>,
    pub inbound: Seq<InboundRowView>,
    pub outbound: Seq<OutboundRowView>,
    pub forwards: Seq<(i32, PendingForward)>,
    pub contacts_available: bool,
}

// ---------------------------------------------------------------------------
// What every state keeps
// ---------------------------------------------------------------------------

pub open spec fn contacts_ok(s: Seq<ContactRowView>) -> bool {
    &&& forall|i: int, j: int| 0 <= i < j < s.len() ==> (#[trigger] s[i]).id < (#[trigger] s[j]).id
    &&& forall|i: int, j: int|
        0 <= i < j < s.len() ==> (#[trigger] s[i]).google_resource != (
        #[trigger] s[j]).google_resource
}

pub open spec fn numbers_ok(s: Seq<NumberRowView>, contacts: Seq<ContactRowView>) -> bool {
    &&& forall|i: int, j: int|
        0 <= i < j < s.len() ==> (#[trigger] s[i]).contact_id != (#[trigger] s[j]).contact_id
            || s[i].e164 != s[j].e164
    &&& forall|i: int| 0 <= i < s.len() ==> known_contact(contacts, (#[trigger] s[i]).contact_id)
}

pub open spec fn topics_ok(s: Seq<TopicRowView>, contacts: Seq<ContactRowView>) -> bool {
    &&& forall|i: int, j: int|
        0 <= i < j < s.len() ==> (#[trigger] s[i]).topic.thread_id < (
        #[trigger] s[j]).topic.thread_id
    &&& forall|i: int|
        0 <= i < s.len() ==> ((#[trigger] s[i]).topic.contact_id matches Some(c) ==> known_contact(
            contacts,
            c,
        ))
}

pub open spec fn inbound_ok(s: Seq<InboundRowView>) -> bool {
    &&& forall|i: int, j: int| 0 <= i < j < s.len() ==> (#[trigger] s[i]).id < (#[trigger] s[j]).id
    &&& forall|i: int, j: int|
        0 <= i < j < s.len() ==> (#[trigger] s[i]).mm_path != (#[trigger] s[j]).mm_path
}

pub open spec fn outbound_ok(s: Seq<OutboundRowView>) -> bool {
    forall|i: int, j: int| 0 <= i < j < s.len() ==> (#[trigger] s[i]).id < (#[trigger] s[j]).id
}

pub open spec fn forwards_ok(s: Seq<(i32, PendingForward)>) -> bool {
    forall|i: int, j: int| 0 <= i < j < s.len() ==> (#[trigger] s[i]).0 != (#[trigger] s[j]).0
}

pub open spec fn known_contact(contacts: Seq<ContactRowView>, id: i64) -> bool {
    exists|i: int| 0 <= i < contacts.len() && (#[trigger] contacts[i]).id == id
}

impl Tables {
    /// Keys are unique and in order, and what refers to a contact refers to one
    /// that is there.
    pub open spec fn wf(self) -> bool {
        &&& contacts_ok(self.contacts)
        &&& numbers_ok(self.numbers, self.contacts)
        &&& topics_ok(self.topics, self.contacts)
        &&& inbound_ok(self.inbound)
        &&& outbound_ok(self.outbound)
        &&& forwards_ok(self.forwards)
        &&& self.ignored.no_duplicates()
    }
}

/// No table holds anything, and contacts count as available.
pub open spec fn empty_tables() -> Tables {
    Tables {
        contacts: Seq::empty(),
        numbers: Seq::empty(),
        topics: Seq::empty(),
        ignored: Seq::empty(),
        inbound: Seq::empty(),
        outbound: Seq::empty(),
        forwards: Seq::empty(),
        contacts_available: true,
    }
}

// ---------------------------------------------------------------------------
// Contacts and their numbers
// ---------------------------------------------------------------------------

pub open spec fn with_id(id: i64) -> spec_fn(ContactRowView) -> bool {
    |c: ContactRowView| c.id == id
}

pub open spec fn with_resource(resource: Seq<char>) -> spec_fn(ContactRowView) -> bool {
    |c: ContactRowView| c.google_resource == resource
}

pub open spec fn of_contact(id: i64) -> spec_fn(NumberRowView) -> bool {
    |n: NumberRowView| n.contact_id == id
}

pub open spec fn not_of_contact(id: i64) -> spec_fn(NumberRowView) -> bool {
    |n: NumberRowView| n.contact_id != id
}

pub open spec fn e164_of() -> spec_fn(NumberRowView) -> Seq<char> {
    |n: NumberRowView| n.e164
}

/// The numbers of a contact, in the order in which they were stored.
pub open spec fn numbers_of(t: Tables, id: i64) -> Seq<Seq<char>> {
    t.numbers.filter(of_contact(id)).map_values(e164_of())
}

pub open spec fn has_number(t: Tables, id: i64, e164: Seq<char>) -> bool {
    exists|i: int|
        0 <= i < t.numbers.len() && (#[trigger] t.numbers[i]).contact_id == id && t.numbers[i].e164
            == e164
}

pub open spec fn holding(t: Tables, e164: Seq<char>) -> spec_fn(ContactRowView) -> bool {
    |c: ContactRowView| has_number(t, c.id, e164)
}

/// A contact as the queries show it.
pub open spec fn shown(t: Tables, c: ContactRowView, ambiguous: bool) -> ContactView {
    ContactView {
        id: c.id,
        google_resource: c.google_resource,
        display_name: c.display_name,
        numbers: numbers_of(t, c.id),
        ambiguous,
    }
}

pub open spec fn contact_by_id(t: Tables, id: i64) -> Option<ContactView> {
    match first(t.contacts, with_id(id)) {
        Some(c) => Some(shown(t, c, false)),
        None => None,
    }
}

/// The contact with the least id that has the number; ambiguous if another
/// contact has it too.
pub open spec fn contact_by_e164(t: Tables, e164: Seq<char>) -> Option<ContactView> {
    match first(t.contacts, holding(t, e164)) {
        Some(c) => Some(shown(t, c, count(t.contacts, holding(t, e164)) > 1)),
        None => None,
    }
}

pub open spec fn named_like(query: Seq<char>) -> spec_fn(ContactRowView) -> bool {
    |c: ContactRowView| like("%"@ + query + "%"@, c.display_name)
}

pub open spec fn showing(t: Tables) -> spec_fn(ContactRowView) -> ContactView {
    |c: ContactRowView| shown(t, c, false)
}

/// The contacts whose name holds the query, in the order of their ids.
pub open spec fn contacts_like(t: Tables, query: Seq<char>) -> Seq<ContactView> {
    t.contacts.filter(named_like(query)).map_values(showing(t))
}

pub open spec fn next_contact_id(t: Tables) -> int {
    if t.contacts.len() == 0 {
        1
    } else {
        t.contacts.last().id + 1
    }
}

/// The id that a contact of that resource has, or would get.
pub open spec fn contact_id_for(t: Tables, resource: Seq<char>) -> int {
    match first(t.contacts, with_resource(resource)) {
        Some(c) => c.id as int,
        None => next_contact_id(t),
    }
}

/// A contact of the address book is stored: its name is refreshed where the
/// resource is known, and it is a new contact otherwise.
pub open spec fn contact_put(
    t: Tables,
    resource: Seq<char>,
    name: Seq<char>,
    now: Seq<char>,
) -> Tables {
    let i = find(t.contacts, with_resource(resource));
    let row = ContactRowView {
        id: contact_id_for(t, resource) as i64,
        google_resource: resource,
        display_name: name,
        last_synced: now,
    };
    if i < t.contacts.len() {
        Tables { contacts: t.contacts.update(i, row), ..t }
    } else {
        Tables { contacts: t.contacts.push(row), ..t }
    }
}

pub open spec fn fresh_number(id: i64) -> spec_fn(Seq<char>) -> NumberRowView {
    |e: Seq<char>| NumberRowView { contact_id: id, e164: e, last_seen_incoming: None }
}

/// The numbers of a contact can be replaced by these.
pub open spec fn numbers_fit(t: Tables, id: i64, e164s: Seq<Seq<char>>) -> bool {
    (e164s.len() == 0 || known_contact(t.contacts, id)) && e164s.no_duplicates()
}

/// The numbers of a contact are replaced.
pub open spec fn numbers_put(t: Tables, id: i64, e164s: Seq<Seq<char>>) -> Tables {
    Tables {
        numbers: t.numbers.filter(not_of_contact(id)) + e164s.map_values(fresh_number(id)),
        ..t
    }
}

pub open spec fn seen_now(e164: Seq<char>, now: Seq<char>) -> spec_fn(
    NumberRowView,
) -> NumberRowView {
    |n: NumberRowView|
        if n.e164 == e164 {
            NumberRowView { last_seen_incoming: Some(now), ..n }
        } else {
            n
        }
}

/// A number sent something just now.
pub open spec fn incoming_marked(t: Tables, e164: Seq<char>, now: Seq<char>) -> Tables {
    Tables { numbers: t.numbers.map_values(seen_now(e164, now)), ..t }
}

// ---------------------------------------------------------------------------
// Topics
// ---------------------------------------------------------------------------

pub open spec fn in_thread(thread_id: i32) -> spec_fn(TopicRowView) -> bool {
    |r: TopicRowView| r.topic.thread_id == thread_id
}

pub open spec fn from_thread_on(thread_id: i32) -> spec_fn(TopicRowView) -> bool {
    |r: TopicRowView| r.topic.thread_id >= thread_id
}

pub open spec fn about_contact(id: i64) -> spec_fn(TopicRowView) -> bool {
    |r: TopicRowView| r.topic.contact_id == Some(id)
}

pub open spec fn with_default(e164: Seq<char>) -> spec_fn(TopicRowView) -> bool {
    |r: TopicRowView| r.topic.default_e164 == Some(e164)
}

pub open spec fn first_topic(t: Tables, p: spec_fn(TopicRowView) -> bool) -> Option<TopicView> {
    match first(t.topics, p) {
        Some(r) => Some(r.topic),
        None => None,
    }
}

pub open spec fn topic_by_thread(t: Tables, thread_id: i32) -> Option<TopicView> {
    first_topic(t, in_thread(thread_id))
}

/// The topic of a contact, the one with the least thread if there are several.
pub open spec fn topic_by_contact(t: Tables, id: i64) -> Option<TopicView> {
    first_topic(t, about_contact(id))
}

/// The topic whose default number this is, the one with the least thread if
/// there are several.
pub open spec fn topic_by_e164(t: Tables, e164: Seq<char>) -> Option<TopicView> {
    first_topic(t, with_default(e164))
}

/// The contact that a topic names is there.
pub open spec fn topic_fits(t: Tables, topic: TopicView) -> bool {
    topic.contact_id matches Some(c) ==> known_contact(t.contacts, c)
}

/// A topic is stored under its thread; a text that waits there stays.
pub open spec fn topic_put(t: Tables, topic: TopicView) -> Tables {
    let i = find(t.topics, from_thread_on(topic.thread_id));
    if i < t.topics.len() && t.topics[i].topic.thread_id == topic.thread_id {
        Tables { topics: t.topics.update(i, TopicRowView { topic, ..t.topics[i] }), ..t }
    } else {
        Tables {
            topics: t.topics.insert(
                i,
                TopicRowView { topic, pending_outbound: None, pending_reply_to: None },
            ),
            ..t
        }
    }
}

pub open spec fn defaulting(thread_id: i32, e164: Seq<char>) -> spec_fn(
    TopicRowView,
) -> TopicRowView {
    |r: TopicRowView|
        if r.topic.thread_id == thread_id {
            TopicRowView { topic: TopicView { default_e164: Some(e164), ..r.topic }, ..r }
        } else {
            r
        }
}

/// The default number of a topic is set.
pub open spec fn default_put(t: Tables, thread_id: i32, e164: Seq<char>) -> Tables {
    Tables { topics: t.topics.map_values(defaulting(thread_id, e164)), ..t }
}

pub open spec fn awaiting(
    thread_id: i32,
    text: Option<Seq<char>>,
    reply_to: Option<i32>,
) -> spec_fn(TopicRowView) -> TopicRowView {
    |r: TopicRowView|
        if r.topic.thread_id == thread_id {
            TopicRowView { pending_outbound: text, pending_reply_to: reply_to, ..r }
        } else {
            r
        }
}

/// What waits in a topic for its number to be chosen is set.
pub open spec fn pending_put(
    t: Tables,
    thread_id: i32,
    text: Option<Seq<char>>,
    reply_to: Option<i32>,
) -> Tables {
    Tables { topics: t.topics.map_values(awaiting(thread_id, text, reply_to)), ..t }
}

/// The text that waits in a topic, and the message it came from.
pub open spec fn pending_in(t: Tables, thread_id: i32) -> Option<(Seq<char>, Option<i32>)> {
    match first(t.topics, in_thread(thread_id)) {
        Some(r) => match r.pending_outbound {
            Some(text) => Some((text, r.pending_reply_to)),
            None => None,
        },
        None => None,
    }
}

// ---------------------------------------------------------------------------
// Ignored numbers and forwarding dialogues
// ---------------------------------------------------------------------------

pub open spec fn is_ignored(t: Tables, e164: Seq<char>) -> bool {
    t.ignored.contains(e164)
}

/// A number is ignored from now on.
pub open spec fn ignored_put(t: Tables, e164: Seq<char>) -> Tables {
    if t.ignored.contains(e164) {
        t
    } else {
        Tables { ignored: t.ignored.push(e164), ..t }
    }
}

pub open spec fn dialogue_in(thread_id: i32) -> spec_fn((i32, PendingForward)) -> bool {
    |f: (i32, PendingForward)| f.0 == thread_id
}

pub open spec fn dialogue_elsewhere(thread_id: i32) -> spec_fn((i32, PendingForward)) -> bool {
    |f: (i32, PendingForward)| f.0 != thread_id
}

pub open spec fn forward_in(t: Tables, thread_id: i32) -> Option<PendingForward> {
    match first(t.forwards, dialogue_in(thread_id)) {
        Some(f) => Some(f.1),
        None => None,
    }
}

pub open spec fn forward_dropped(t: Tables, thread_id: i32) -> Tables {
    Tables { forwards: t.forwards.filter(dialogue_elsewhere(thread_id)), ..t }
}

/// A forwarding dialogue of a thread waits for a text, and takes the place of
/// an earlier one.
pub open spec fn forward_put(t: Tables, thread_id: i32, pending: PendingForward) -> Tables {
    Tables {
        forwards: t.forwards.filter(dialogue_elsewhere(thread_id)).push((thread_id, pending)),
        ..t
    }
}

// ---------------------------------------------------------------------------
// The message logs
// ---------------------------------------------------------------------------

pub open spec fn at_path(path: Seq<char>) -> spec_fn(InboundRowView) -> bool {
    |r: InboundRowView| r.mm_path == path
}

/// The row is the record of a message: number, text and time agree, and, where
/// the modem gave it no time, the path does too.
pub open spec fn record_of(
    path: Seq<char>,
    e164: Seq<char>,
    body: Seq<char>,
    sms_ts: Seq<char>,
) -> spec_fn(InboundRowView) -> bool {
    |r: InboundRowView|
        {
            &&& r.e164 == e164
            &&& r.body == body
            &&& r.sms_ts == Some(sms_ts)
            &&& sms_ts.len() > 0 || r.mm_path == path
        }
}

pub open spec fn path_seen(t: Tables, path: Seq<char>) -> bool {
    first(t.inbound, at_path(path)) is Some
}

/// A message was recorded before. The modem gives its paths out again, so that
/// a path alone says nothing: number, text and time tell messages apart.
pub open spec fn sms_seen(
    t: Tables,
    path: Seq<char>,
    e164: Seq<char>,
    body: Seq<char>,
    sms_ts: Seq<char>,
) -> bool {
    first(t.inbound, record_of(path, e164, body, sms_ts)) is Some
}

pub open spec fn next_inbound_id(t: Tables) -> int {
    if t.inbound.len() == 0 {
        1
    } else {
        t.inbound.last().id + 1
    }
}

pub open spec fn next_outbound_id(t: Tables) -> int {
    if t.outbound.len() == 0 {
        1
    } else {
        t.outbound.last().id + 1
    }
}

/// A received message is recorded. The path of the modem is a slot: a message
/// in a slot that another held before takes that row over, under its id.
pub open spec fn inbound_put(t: Tables, row: InboundRowView) -> Tables {
    let i = find(t.inbound, at_path(row.mm_path));
    if i < t.inbound.len() {
        Tables {
            inbound: t.inbound.update(i, InboundRowView { id: t.inbound[i].id, ..row }),
            ..t
        }
    } else {
        Tables {
            inbound: t.inbound.push(InboundRowView { id: next_inbound_id(t) as i64, ..row }),
            ..t
        }
    }
}

/// A sent message is recorded.
pub open spec fn outbound_put(t: Tables, row: OutboundRowView) -> Tables {
    Tables {
        outbound: t.outbound.push(OutboundRowView { id: next_outbound_id(t) as i64, ..row }),
        ..t
    }
}

pub open spec fn received_since(since: Seq<char>) -> spec_fn(InboundRowView) -> bool {
    |r: InboundRowView| at_most(since, r.created_at)
}

pub open spec fn sent_since(since: Seq<char>) -> spec_fn(OutboundRowView) -> bool {
    |r: OutboundRowView| at_most(since, r.created_at) && r.result == "ok"@
}

pub open spec fn failed_since(since: Seq<char>) -> spec_fn(OutboundRowView) -> bool {
    |r: OutboundRowView| at_most(since, r.created_at) && r.result != "ok"@
}

pub open spec fn sent_ok() -> spec_fn(OutboundRowView) -> bool {
    |r: OutboundRowView| r.result == "ok"@
}

/// The last received message: the one stamped latest, and of equals the one
/// recorded last.
pub open spec fn latest_inbound(s: Seq<InboundRowView>) -> Option<InboundRowView>
    decreases s.len(),
{
    if s.len() == 0 {
        None
    } else {
        match latest_inbound(s.drop_last()) {
            Some(best) => if below(s.last().created_at, best.created_at) {
                Some(best)
            } else {
                Some(s.last())
            },
            None => Some(s.last()),
        }
    }
}

/// The last sent message of some kind, found in the same way.
pub open spec fn latest_outbound(
    s: Seq<OutboundRowView>,
    p: spec_fn(OutboundRowView) -> bool,
) -> Option<OutboundRowView>
    decreases s.len(),
{
    if s.len() == 0 {
        None
    } else {
        let best = latest_outbound(s.drop_last(), p);
        if p(s.last()) && !(best matches Some(b) && below(s.last().created_at, b.created_at)) {
            Some(s.last())
        } else {
            best
        }
    }
}

} // verus!
