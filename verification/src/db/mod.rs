//! The store of the gateway: contacts, topics, ignored numbers, forwarding
//! dialogues and the message logs.
pub mod contacts;
pub mod history;
pub mod laws;
pub mod load;
pub mod log;
pub mod paging;
pub mod topics;

pub use crate::tables::{PendingForward, PendingForwardMode};
pub use history::{ChatSummary, MessageRow};

use vstd::prelude::*;

use crate::rows::{opt_view, views};
use crate::tables::{
    empty_tables, ContactRowView, ContactView, InboundRowView, NumberRowView, OutboundRowView,
    Tables, TopicRowView, TopicView,
};
use crate::text::cat;

verus! {

#[derive(Debug)]
pub enum DbError {
    Sqlite(String),
    Poisoned,
    ContactsUnavailable,
}

pub enum DbErrorView {
    Sqlite(Seq<char>),
    Poisoned,
    ContactsUnavailable,
}

impl View for DbError {
    type V = DbErrorView;

    open spec fn view(&self) -> DbErrorView {
        match self {
            DbError::Sqlite(message) => DbErrorView::Sqlite(message@),
            DbError::Poisoned => DbErrorView::Poisoned,
            DbError::ContactsUnavailable => DbErrorView::ContactsUnavailable,
        }
    }
}

impl DbErrorView {
    pub open spec fn words(self) -> Seq<char> {
        match self {
            DbErrorView::Sqlite(message) => "sqlite: "@ + message,
            DbErrorView::Poisoned => "database lock poisoned"@,
            DbErrorView::ContactsUnavailable => "contacts unavailable"@,
        }
    }
}

impl DbError {
    /// The error in words.
    pub fn message(&self) -> (r: String)
        ensures
            r@ == self@.words(),
    {
        match self {
            DbError::Sqlite(message) => cat("sqlite: ", message.as_str()),
            DbError::Poisoned => "database lock poisoned".to_owned(),
            DbError::ContactsUnavailable => "contacts unavailable".to_owned(),
        }
    }
}

#[derive(Debug)]
pub struct Contact {
    pub id: i64,
    pub google_resource: String,
    pub display_name: String,
    pub numbers: Vec<String>,
    pub ambiguous: bool,
}

#[derive(Debug)]
pub struct Topic {
    pub thread_id: i32,
    pub contact_id: Option<i64>,
    pub default_e164: Option<String>,
    pub title: String,
    pub ignored: bool,
}

#[derive(Debug, Clone, Copy, PartialEq, Eq, Structural)]
pub struct TodaySmsCounts {
    pub inbound: u32,
    pub sent_ok: u32,
    pub sent_fail: u32,
}

pub struct ContactRow {
    pub id: i64,
    pub google_resource: String,
    pub display_name: String,
    pub last_synced: String,
}

pub struct NumberRow {
    pub contact_id: i64,
    pub e164: String,
    pub last_seen_incoming: Option<String>,
}

pub struct TopicRow {
    pub topic: Topic,
    pub pending_outbound: Option<String>,
    pub pending_reply_to: Option<i32>,
}

pub struct InboundRow {
    pub id: i64,
    pub mm_path: String,
    pub e164: String,
    pub body: String,
    pub tg_msg: Option<i32>,
    pub created_at: String,
    pub sms_ts: Option<String>,
    pub thread_id: Option<i32>,
}

pub struct OutboundRow {
    pub id: i64,
    pub e164: String,
    pub body: String,
    pub result: String,
    pub created_at: String,
    pub thread_id: Option<i32>,
}

impl View for Contact {
    type V = ContactView;

    open spec fn view(&self) -> ContactView {
        ContactView {
            id: self.id,
            google_resource: self.google_resource@,
            display_name: self.display_name@,
            numbers: views(self.numbers@),
            ambiguous: self.ambiguous,
        }
    }
}

impl View for Topic {
    type V = TopicView;

    open spec fn view(&self) -> TopicView {
        TopicView {
            thread_id: self.thread_id,
            contact_id: self.contact_id,
            default_e164: opt_view(self.default_e164),
            title: self.title@,
            ignored: self.ignored,
        }
    }
}

impl View for ContactRow {
    type V = ContactRowView;

    open spec fn view(&self) -> ContactRowView {
        ContactRowView {
            id: self.id,
            google_resource: self.google_resource@,
            display_name: self.display_name@,
            last_synced: self.last_synced@,
        }
    }
}

impl View for NumberRow {
    type V = NumberRowView;

    open spec fn view(&self) -> NumberRowView {
        NumberRowView {
            contact_id: self.contact_id,
            e164: self.e164@,
            last_seen_incoming: opt_view(self.last_seen_incoming),
        }
    }
}

impl View for TopicRow {
    type V = TopicRowView;

    open spec fn view(&self) -> TopicRowView {
        TopicRowView {
            topic: self.topic@,
            pending_outbound: opt_view(self.pending_outbound),
            pending_reply_to: self.pending_reply_to,
        }
    }
}

impl View for InboundRow {
    type V = InboundRowView;

    open spec fn view(&self) -> InboundRowView {
        InboundRowView {
            id: self.id,
            mm_path: self.mm_path@,
            e164: self.e164@,
            body: self.body@,
            tg_msg: self.tg_msg,
            created_at: self.created_at@,
            sms_ts: opt_view(self.sms_ts),
            thread_id: self.thread_id,
        }
    }
}

impl View for OutboundRow {
    type V = OutboundRowView;

    open spec fn view(&self) -> OutboundRowView {
        OutboundRowView {
            id: self.id,
            e164: self.e164@,
            body: self.body@,
            result: self.result@,
            created_at: self.created_at@,
            thread_id: self.thread_id,
        }
    }
}

pub(crate) fn clone_opt(s: &Option<String>) -> (r: Option<String>)
    ensures
        opt_view(r) == opt_view(*s),
{
    match s {
        Some(t) => Some(t.clone()),
        None => None,
    }
}

pub(crate) fn clone_all(v: &Vec<String>) -> (r: Vec<String>)
    ensures
        views(r@) == views(v@),
{
    let mut out: Vec<String> = Vec::new();
    let mut i: usize = 0;
    while i < v.len()
        invariant
            i <= v@.len(),
            views(out@) == views(v@).take(i as int),
        decreases v@.len() - i,
    {
        let ghost before = out@;
        out.push(v[i].clone());
        assert(views(out@) =~= views(before).push(v@[i as int]@));
        i = i + 1;
    }
    assert(views(v@).take(i as int) =~= views(v@));
    out
}

impl Clone for Contact {
    fn clone(&self) -> (r: Self)
        ensures
            r@ == self@,
    {
        Contact {
            id: self.id,
            google_resource: self.google_resource.clone(),
            display_name: self.display_name.clone(),
            numbers: clone_all(&self.numbers),
            ambiguous: self.ambiguous,
        }
    }
}

impl Clone for Topic {
    fn clone(&self) -> (r: Self)
        ensures
            r@ == self@,
    {
        Topic {
            thread_id: self.thread_id,
            contact_id: self.contact_id,
            default_e164: clone_opt(&self.default_e164),
            title: self.title.clone(),
            ignored: self.ignored,
        }
    }
}

/// The store. Its tables are private; every change goes through a method.
pub struct Db {
    contacts: Vec<ContactRow>,
    numbers: Vec<NumberRow>,
    topics: Vec<TopicRow>,
    ignored: Vec<String>,
    inbound: Vec<InboundRow>,
    outbound: Vec<OutboundRow>,
    forwards: Vec<(i32, PendingForward)>,
    contacts_available: bool,
}

impl View for Db {
    type V = Tables;

    closed spec fn view(&self) -> Tables {
        Tables {
            contacts: views(self.contacts@),
            numbers: views(self.numbers@),
            topics: views(self.topics@),
            ignored: views(self.ignored@),
            inbound: views(self.inbound@),
            outbound: views(self.outbound@),
            forwards: self.forwards@,
            contacts_available: self.contacts_available,
        }
    }
}

impl Db {
    /// A store that holds nothing.
    pub fn open_in_memory() -> (r: Result<Db, DbError>)
        ensures
            r matches Ok(db) && db@ == empty_tables() && db@.wf(),
    {
        let db = Db {
            contacts: Vec::new(),
            numbers: Vec::new(),
            topics: Vec::new(),
            ignored: Vec::new(),
            inbound: Vec::new(),
            outbound: Vec::new(),
            forwards: Vec::new(),
            contacts_available: true,
        };
        assert(db@.contacts =~= Seq::empty());
        assert(db@.numbers =~= Seq::empty());
        assert(db@.topics =~= Seq::empty());
        assert(db@.ignored =~= Seq::empty());
        assert(db@.inbound =~= Seq::empty());
        assert(db@.outbound =~= Seq::empty());
        Ok(db)
    }

    pub fn set_contacts_available(&mut self, available: bool)
        ensures
            final(self)@ == (Tables { contacts_available: available, ..old(self)@ }),
            old(self)@.wf() ==> final(self)@.wf(),
    {
        self.contacts_available = available;
    }

    pub fn contacts_available(&self) -> (r: bool)
        ensures
            r == self@.contacts_available,
    {
        self.contacts_available
    }
}

} // verus!
