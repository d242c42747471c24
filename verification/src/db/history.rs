//! The message logs read as chats: one time line per forum thread.
use vstd::prelude::*;

use crate::collate::{below, text_at_most};
use crate::db::{clone_opt, Db, DbError, DbErrorView, InboundRow, OutboundRow};
use crate::decimal::{i64_text, int_text};
use crate::route::GENERAL_THREAD;
use crate::rows::{find, first, lemma_filter_take, lemma_find_is, opt_view, res_views, views};
use crate::tables::{
    contact_by_id, has_number, inbound_ok, outbound_ok, topic_by_e164, topic_by_thread,
    InboundRowView, OutboundRowView, Tables, TopicRowView,
};
use crate::text::{cat, str_eq};

verus! {

#[derive(Debug)]
pub struct MessageRow {
    pub id: String,
    pub direction: String,
    pub e164: String,
    pub body: String,
    pub timestamp: String,
    pub sms_ts: Option<String>,
    pub status: String,
}

pub struct MessageRowView {
    pub id: Seq<char>,
    pub direction: Seq<char>,
    pub e164: Seq<char>,
    pub body: Seq<char>,
    pub timestamp: Seq<char>,
    pub sms_ts: Option<Seq<char>>,
    pub status: Seq<char>,
}

impl View for MessageRow {
    type V = MessageRowView;

    open spec fn view(&self) -> MessageRowView {
        MessageRowView {
            id: self.id@,
            direction: self.direction@,
            e164: self.e164@,
            body: self.body@,
            timestamp: self.timestamp@,
            sms_ts: opt_view(self.sms_ts),
            status: self.status@,
        }
    }
}

#[derive(Debug)]
pub struct ChatSummary {
    pub thread_id: i32,
    pub title: String,
    pub contact_id: Option<i64>,
    pub display_name: Option<String>,
    pub default_e164: Option<String>,
    pub last_message_at: String,
    pub last_message_preview: String,
    pub last_message_direction: String,
}

pub struct ChatSummaryView {
    pub thread_id: i32,
    pub title: Seq<char>,
    pub contact_id: Option<i64>,
    pub display_name: Option<Seq<char>>,
    pub default_e164: Option<Seq<char>>,
    pub last_message_at: Seq<char>,
    pub last_message_preview: Seq<char>,
    pub last_message_direction: Seq<char>,
}

impl View for ChatSummary {
    type V = ChatSummaryView;

    open spec fn view(&self) -> ChatSummaryView {
        ChatSummaryView {
            thread_id: self.thread_id,
            title: self.title@,
            contact_id: self.contact_id,
            display_name: opt_view(self.display_name),
            default_e164: opt_view(self.default_e164),
            last_message_at: self.last_message_at@,
            last_message_preview: self.last_message_preview@,
            last_message_direction: self.last_message_direction@,
        }
    }
}

/// A message of either log.
pub struct Entry {
    pub received: bool,
    pub id: i64,
    pub e164: String,
    pub body: String,
    pub timestamp: String,
    pub sms_ts: Option<String>,
    pub ok: bool,
    pub thread_id: i32,
}

pub struct EntryView {
    pub received: bool,
    pub id: i64,
    pub e164: Seq<char>,
    pub body: Seq<char>,
    pub timestamp: Seq<char>,
    pub sms_ts: Option<Seq<char>>,
    pub ok: bool,
    pub thread_id: i32,
}

impl View for Entry {
    type V = EntryView;

    open spec fn view(&self) -> EntryView {
        EntryView {
            received: self.received,
            id: self.id,
            e164: self.e164@,
            body: self.body@,
            timestamp: self.timestamp@,
            sms_ts: opt_view(self.sms_ts),
            ok: self.ok,
            thread_id: self.thread_id,
        }
    }
}

// ---------------------------------------------------------------------------
// The time line
// ---------------------------------------------------------------------------

/// A message without a thread counts as one of General.
pub open spec fn thread_or_general(thread_id: Option<i32>) -> i32 {
    match thread_id {
        Some(id) => id,
        None => GENERAL_THREAD,
    }
}

/// The time that the modem gave, if it gave one.
pub open spec fn given_time(sms_ts: Option<Seq<char>>) -> Option<Seq<char>> {
    match sms_ts {
        Some(ts) => if ts.len() == 0 {
            None
        } else {
            Some(ts)
        },
        None => None,
    }
}

pub open spec fn received_entry() -> spec_fn(InboundRowView) -> EntryView {
    |r: InboundRowView|
        EntryView {
            received: true,
            id: r.id,
            e164: r.e164,
            body: r.body,
            timestamp: r.created_at,
            sms_ts: given_time(r.sms_ts),
            ok: true,
            thread_id: thread_or_general(r.thread_id),
        }
}

pub open spec fn sent_entry() -> spec_fn(OutboundRowView) -> EntryView {
    |r: OutboundRowView|
        EntryView {
            received: false,
            id: r.id,
            e164: r.e164,
            body: r.body,
            timestamp: r.created_at,
            sms_ts: None,
            ok: r.result == "ok"@,
            thread_id: thread_or_general(r.thread_id),
        }
}

/// All messages of both logs.
pub open spec fn all_entries(t: Tables) -> Seq<EntryView> {
    t.inbound.map_values(received_entry()) + t.outbound.map_values(sent_entry())
}

/// The newer message comes first, and of equally old ones the one with the
/// greater id.
pub open spec fn newer(a: EntryView, b: EntryView) -> bool {
    below(b.timestamp, a.timestamp) || (a.timestamp == b.timestamp && a.id > b.id)
}

pub open spec fn older_than(e: EntryView) -> spec_fn(EntryView) -> bool {
    |x: EntryView| newer(e, x)
}

/// A message put in its place in a time line.
pub open spec fn placed(s: Seq<EntryView>, e: EntryView) -> Seq<EntryView> {
    s.insert(find(s, older_than(e)), e)
}

/// The time line of some messages, newest first.
pub open spec fn time_line(s: Seq<EntryView>) -> Seq<EntryView>
    decreases s.len(),
{
    if s.len() == 0 {
        Seq::empty()
    } else {
        placed(time_line(s.drop_last()), s.last())
    }
}

/// Within the cursors: strictly before the one and strictly after the other.
pub open spec fn within(
    stamp: Seq<char>,
    before: Option<Seq<char>>,
    after: Option<Seq<char>>,
) -> bool {
    &&& before matches Some(b) ==> below(stamp, b)
    &&& after matches Some(a) ==> below(a, stamp)
}

pub open spec fn in_chat(
    thread_id: i32,
    before: Option<Seq<char>>,
    after: Option<Seq<char>>,
) -> spec_fn(EntryView) -> bool {
    |e: EntryView| e.thread_id == thread_id && within(e.timestamp, before, after)
}

pub open spec fn direction_word(e: EntryView) -> Seq<char> {
    if e.received {
        "in"@
    } else {
        "out"@
    }
}

pub open spec fn message_shown() -> spec_fn(EntryView) -> MessageRowView {
    |e: EntryView|
        MessageRowView {
            id: direction_word(e) + ":"@ + int_text(e.id as int),
            direction: direction_word(e),
            e164: e.e164,
            body: e.body,
            timestamp: e.timestamp,
            sms_ts: e.sms_ts,
            status: if e.ok {
                "ok"@
            } else {
                "failed"@
            },
        }
}

/// At most so many of the first items; a negative limit is none.
pub open spec fn limited<A>(s: Seq<A>, limit: int) -> Seq<A> {
    if limit < 0 || s.len() <= limit {
        s
    } else {
        s.take(limit)
    }
}

/// A page of the messages of a thread, newest first.
pub open spec fn messages_of(
    t: Tables,
    thread_id: i32,
    limit: int,
    before: Option<Seq<char>>,
    after: Option<Seq<char>>,
) -> Seq<MessageRowView> {
    limited(
        time_line(all_entries(t).filter(in_chat(thread_id, before, after))),
        limit,
    ).map_values(message_shown())
}

// ---------------------------------------------------------------------------
// The list of chats
// ---------------------------------------------------------------------------

pub open spec fn of_thread(thread_id: i32) -> spec_fn(EntryView) -> bool {
    |e: EntryView| e.thread_id == thread_id
}

/// The newest message of each thread.
pub open spec fn heads(s: Seq<EntryView>) -> Seq<EntryView>
    decreases s.len(),
{
    if s.len() == 0 {
        Seq::empty()
    } else if first(s.drop_last(), of_thread(s.last().thread_id)) is Some {
        heads(s.drop_last())
    } else {
        heads(s.drop_last()).push(s.last())
    }
}

/// A chat that is listed: General, or a thread with a topic, whose newest
/// message lies within the cursors.
pub open spec fn listed(t: Tables, before: Option<Seq<char>>, after: Option<Seq<char>>) -> spec_fn(
    EntryView,
) -> bool {
    |e: EntryView|
        (e.thread_id == GENERAL_THREAD || topic_by_thread(t, e.thread_id) is Some) && within(
            e.timestamp,
            before,
            after,
        )
}

pub open spec fn contact_name(t: Tables, contact_id: Option<i64>) -> Option<Seq<char>> {
    match contact_id {
        Some(id) => match contact_by_id(t, id) {
            Some(c) => Some(c.display_name),
            None => None,
        },
        None => None,
    }
}

pub open spec fn chat_shown(t: Tables) -> spec_fn(EntryView) -> ChatSummaryView {
    |e: EntryView|
        match topic_by_thread(t, e.thread_id) {
            Some(topic) => ChatSummaryView {
                thread_id: e.thread_id,
                title: topic.title,
                contact_id: topic.contact_id,
                display_name: contact_name(t, topic.contact_id),
                default_e164: topic.default_e164,
                last_message_at: e.timestamp,
                last_message_preview: e.body,
                last_message_direction: direction_word(e),
            },
            None => ChatSummaryView {
                thread_id: e.thread_id,
                title: "General"@,
                contact_id: None,
                display_name: None,
                default_e164: None,
                last_message_at: e.timestamp,
                last_message_preview: e.body,
                last_message_direction: direction_word(e),
            },
        }
}

/// A page of the chats, the one with the newest message first.
pub open spec fn chats_of(
    t: Tables,
    limit: int,
    before: Option<Seq<char>>,
    after: Option<Seq<char>>,
) -> Seq<ChatSummaryView> {
    limited(
        heads(time_line(all_entries(t))).filter(listed(t, before, after)),
        limit,
    ).map_values(chat_shown(t))
}

// ---------------------------------------------------------------------------
// Threads found again for old messages
// ---------------------------------------------------------------------------

pub open spec fn knows_number(t: Tables, e164: Seq<char>) -> spec_fn(TopicRowView) -> bool {
    |r: TopicRowView| r.topic.contact_id matches Some(c) && has_number(t, c, e164)
}

/// The thread of a number: of the topic whose default it is, or else of the
/// topic of a contact that has it.
pub open spec fn thread_of_number(t: Tables, e164: Seq<char>) -> Option<i32> {
    match topic_by_e164(t, e164) {
        Some(topic) => Some(topic.thread_id),
        None => match first(t.topics, knows_number(t, e164)) {
            Some(r) => Some(r.topic.thread_id),
            None => None,
        },
    }
}

pub open spec fn inbound_filled(t: Tables) -> spec_fn(InboundRowView) -> InboundRowView {
    |r: InboundRowView|
        if r.thread_id is None {
            InboundRowView { thread_id: thread_of_number(t, r.e164), ..r }
        } else {
            r
        }
}

pub open spec fn outbound_filled(t: Tables) -> spec_fn(OutboundRowView) -> OutboundRowView {
    |r: OutboundRowView|
        if r.thread_id is None {
            OutboundRowView { thread_id: thread_of_number(t, r.e164), ..r }
        } else {
            r
        }
}

/// Messages without a thread get the one of their number.
pub open spec fn threads_filled(t: Tables) -> Tables {
    Tables {
        inbound: t.inbound.map_values(inbound_filled(t)),
        outbound: t.outbound.map_values(outbound_filled(t)),
        ..t
    }
}

fn in_window(stamp: &str, before: &Option<String>, after: &Option<String>) -> (r: bool)
    ensures
        r == within(stamp@, opt_view(*before), opt_view(*after)),
{
    let below_before = match before {
        Some(b) => !text_at_most(b.as_str(), stamp),
        None => true,
    };
    let above_after = match after {
        Some(a) => !text_at_most(stamp, a.as_str()),
        None => true,
    };
    below_before && above_after
}

fn is_newer(a: &Entry, b: &Entry) -> (r: bool)
    ensures
        r == newer(a@, b@),
{
    if !text_at_most(a.timestamp.as_str(), b.timestamp.as_str()) {
        return true;
    }
    str_eq(a.timestamp.as_str(), b.timestamp.as_str()) && a.id > b.id
}

fn place(line: &mut Vec<Entry>, e: Entry)
    ensures
        views(final(line)@) == placed(views(old(line)@), e@),
{
    let ghost s = views(line@);
    let mut i: usize = 0;
    while i < line.len() && !is_newer(&e, &line[i])
        invariant
            i <= line@.len(),
            s == views(line@),
            forall|j: int| 0 <= j < i ==> !newer(e@, #[trigger] s[j]),
        decreases line@.len() - i,
    {
        assert(s[i as int] == line@[i as int]@);
        i = i + 1;
    }
    proof {
        if i < s.len() {
            assert(s[i as int] == line@[i as int]@);
        }
        lemma_find_is(s, older_than(e@), i as int);
    }
    let ghost given = e@;
    line.insert(i, e);
    assert(views(line@) =~= s.insert(i as int, given));
}

fn message(e: &Entry) -> (r: MessageRow)
    ensures
        r@ == message_shown()(e@),
{
    let direction = if e.received { "in" } else { "out" };
    let id = cat(direction, ":").concat(i64_text(e.id).as_str());
    MessageRow {
        id,
        direction: direction.to_owned(),
        e164: e.e164.clone(),
        body: e.body.clone(),
        timestamp: e.timestamp.clone(),
        sms_ts: clone_opt(&e.sms_ts),
        status: if e.ok {
            "ok".to_owned()
        } else {
            "failed".to_owned()
        },
    }
}

fn page_length(n: usize, limit: i64) -> (r: usize)
    ensures
        r <= n,
        limit < 0 || n <= limit ==> r == n,
        0 <= limit < n ==> r == limit,
{
    if limit < 0 || n as u64 <= limit as u64 {
        n
    } else {
        limit as usize
    }
}

impl Db {
    fn received_at(&self, i: usize) -> (r: Entry)
        requires
            i < self@.inbound.len(),
        ensures
            r@ == received_entry()(self@.inbound[i as int]),
    {
        let row = &self.inbound[i];
        assert(self@.inbound[i as int] == row@);
        Entry {
            received: true,
            id: row.id,
            e164: row.e164.clone(),
            body: row.body.clone(),
            timestamp: row.created_at.clone(),
            sms_ts: match &row.sms_ts {
                Some(ts) => if ts.as_str().is_empty() {
                    None
                } else {
                    Some(ts.clone())
                },
                None => None,
            },
            ok: true,
            thread_id: match row.thread_id {
                Some(id) => id,
                None => GENERAL_THREAD,
            },
        }
    }

    fn sent_at(&self, i: usize) -> (r: Entry)
        requires
            i < self@.outbound.len(),
        ensures
            r@ == sent_entry()(self@.outbound[i as int]),
    {
        let row = &self.outbound[i];
        assert(self@.outbound[i as int] == row@);
        Entry {
            received: false,
            id: row.id,
            e164: row.e164.clone(),
            body: row.body.clone(),
            timestamp: row.created_at.clone(),
            sms_ts: None,
            ok: str_eq(row.result.as_str(), "ok"),
            thread_id: match row.thread_id {
                Some(id) => id,
                None => GENERAL_THREAD,
            },
        }
    }

    /// All messages of both logs.
    fn entries(&self) -> (r: Vec<Entry>)
        ensures
            views(r@) == all_entries(self@),
    {
        let ghost received = self@.inbound.map_values(received_entry());
        let ghost sent = self@.outbound.map_values(sent_entry());
        let mut out: Vec<Entry> = Vec::new();
        let mut i: usize = 0;
        while i < self.inbound.len()
            invariant
                i <= self.inbound@.len(),
                received == self@.inbound.map_values(received_entry()),
                received.len() == self.inbound@.len(),
                views(out@) == received.take(i as int),
            decreases self.inbound@.len() - i,
        {
            let ghost so_far = out@;
            out.push(self.received_at(i));
            assert(views(out@) =~= views(so_far).push(received[i as int]));
            i = i + 1;
        }
        let mut k: usize = 0;
        assert(received.take(i as int) =~= received + sent.take(0));
        while k < self.outbound.len()
            invariant
                k <= self.outbound@.len(),
                sent == self@.outbound.map_values(sent_entry()),
                sent.len() == self.outbound@.len(),
                views(out@) == received + sent.take(k as int),
            decreases self.outbound@.len() - k,
        {
            let ghost so_far = out@;
            out.push(self.sent_at(k));
            assert(views(out@) =~= views(so_far).push(sent[k as int]));
            assert((received + sent.take(k as int)).push(sent[k as int]) =~= received + sent.take(
                k + 1,
            ));
            k = k + 1;
        }
        assert(sent.take(k as int) =~= sent);
        out
    }

    /// A page of the messages of a thread.
    pub fn messages_for_thread(
        &self,
        thread_id: i32,
        limit: i64,
        before: &Option<String>,
        after: &Option<String>,
    ) -> (r: Result<Vec<MessageRow>, DbError>)
        ensures
            res_views(r) == Ok::<Seq<MessageRowView>, DbErrorView>(
                messages_of(self@, thread_id, limit as int, opt_view(*before), opt_view(*after)),
            ),
    {
        let ghost all = all_entries(self@);
        let ghost p = in_chat(thread_id, opt_view(*before), opt_view(*after));
        let entries = self.entries();
        let mut line: Vec<Entry> = Vec::new();
        let mut i: usize = 0;
        proof {
            reveal(Seq::filter);
            assert(time_line(all.take(0).filter(p)) =~= views(line@));
        }
        while i < entries.len()
            invariant
                i <= entries@.len(),
                all == views(entries@),
                p == in_chat(thread_id, opt_view(*before), opt_view(*after)),
                views(line@) == time_line(all.take(i as int).filter(p)),
            decreases entries@.len() - i,
        {
            let e = entries[i].copied();
            assert(all[i as int] == entries@[i as int]@);
            proof {
                lemma_filter_take(all, p, i as int);
            }
            if e.thread_id == thread_id && in_window(e.timestamp.as_str(), before, after) {
                proof {
                    let kept = all.take(i as int).filter(p);
                    assert(kept.push(all[i as int]).drop_last() =~= kept);
                }
                place(&mut line, e);
            }
            i = i + 1;
        }
        assert(all.take(i as int) =~= all);
        let ghost sorted = views(line@);
        let m = page_length(line.len(), limit);
        let mut out: Vec<MessageRow> = Vec::new();
        let mut k: usize = 0;
        let ghost page = limited(sorted, limit as int);
        assert(page.len() == m);
        while k < m
            invariant
                k <= m <= line@.len(),
                page.len() == m,
                sorted == views(line@),
                page == limited(sorted, limit as int),
                views(out@) == page.map_values(message_shown()).take(k as int),
            decreases m - k,
        {
            let ghost so_far = out@;
            out.push(message(&line[k]));
            assert(page[k as int] == line@[k as int]@);
            assert(views(out@) =~= views(so_far).push(message_shown()(page[k as int])));
            assert(page.map_values(message_shown()).take(k + 1) =~= page.map_values(
                message_shown(),
            ).take(k as int).push(message_shown()(page[k as int])));
            k = k + 1;
        }
        assert(page.map_values(message_shown()).take(k as int) =~= page.map_values(
            message_shown(),
        ));
        Ok(out)
    }

    fn summary(&self, e: &Entry) -> (r: ChatSummary)
        ensures
            r@ == chat_shown(self@)(e@),
    {
        let direction = if e.received { "in" } else { "out" };
        match self.get_topic_by_thread(e.thread_id) {
            Ok(Some(topic)) => {
                let display_name = match topic.contact_id {
                    Some(id) => match self.get_contact(id) {
                        Ok(Some(c)) => Some(c.display_name),
                        _ => None,
                    },
                    None => None,
                };
                ChatSummary {
                    thread_id: e.thread_id,
                    title: topic.title,
                    contact_id: topic.contact_id,
                    display_name,
                    default_e164: topic.default_e164,
                    last_message_at: e.timestamp.clone(),
                    last_message_preview: e.body.clone(),
                    last_message_direction: direction.to_owned(),
                }
            },
            _ => ChatSummary {
                thread_id: e.thread_id,
                title: "General".to_owned(),
                contact_id: None,
                display_name: None,
                default_e164: None,
                last_message_at: e.timestamp.clone(),
                last_message_preview: e.body.clone(),
                last_message_direction: direction.to_owned(),
            },
        }
    }

    fn is_listed(&self, e: &Entry, before: &Option<String>, after: &Option<String>) -> (r: bool)
        ensures
            r == listed(self@, opt_view(*before), opt_view(*after))(e@),
    {
        let known = if e.thread_id == GENERAL_THREAD {
            true
        } else {
            match self.get_topic_by_thread(e.thread_id) {
                Ok(Some(_)) => true,
                _ => false,
            }
        };
        known && in_window(e.timestamp.as_str(), before, after)
    }

    /// A page of the chats with messages.
    pub fn chats_with_activity(
        &self,
        limit: i64,
        before: &Option<String>,
        after: &Option<String>,
    ) -> (r: Result<Vec<ChatSummary>, DbError>)
        ensures
            res_views(r) == Ok::<Seq<ChatSummaryView>, DbErrorView>(
                chats_of(self@, limit as int, opt_view(*before), opt_view(*after)),
            ),
    {
        let ghost all = all_entries(self@);
        let entries = self.entries();
        let mut line: Vec<Entry> = Vec::new();
        let mut i: usize = 0;
        assert(time_line(all.take(0)) =~= views(line@));
        while i < entries.len()
            invariant
                i <= entries@.len(),
                all == views(entries@),
                views(line@) == time_line(all.take(i as int)),
            decreases entries@.len() - i,
        {
            let e = entries[i].copied();
            assert(all[i as int] == entries@[i as int]@);
            assert(all.take(i + 1).drop_last() =~= all.take(i as int));
            place(&mut line, e);
            i = i + 1;
        }
        assert(all.take(i as int) =~= all);
        let ghost sorted = views(line@);
        let ghost p = listed(self@, opt_view(*before), opt_view(*after));
        let ghost f = chat_shown(self@);
        let mut out: Vec<ChatSummary> = Vec::new();
        let mut k: usize = 0;
        proof {
            reveal(Seq::filter);
            assert(heads(sorted.take(0)).filter(p).map_values(f) =~= views(out@));
        }
        while k < line.len()
            invariant
                k <= line@.len(),
                sorted == views(line@),
                p == listed(self@, opt_view(*before), opt_view(*after)),
                f == chat_shown(self@),
                views(out@) == heads(sorted.take(k as int)).filter(p).map_values(f),
            decreases line@.len() - k,
        {
            let ghost so_far = out@;
            let ghost earlier = sorted.take(k as int);
            assert(sorted.take(k + 1).drop_last() =~= earlier);
            assert(sorted[k as int] == line@[k as int]@);
            let mut j: usize = 0;
            while j < k && line[j].thread_id != line[k].thread_id
                invariant
                    j <= k < line@.len(),
                    sorted == views(line@),
                    earlier == sorted.take(k as int),
                    forall|m: int|
                        0 <= m < j ==> (#[trigger] earlier[m]).thread_id
                            != sorted[k as int].thread_id,
                decreases k - j,
            {
                assert(earlier[j as int] == line@[j as int]@);
                assert(sorted[k as int] == line@[k as int]@);
                j = j + 1;
            }
            proof {
                if j < k {
                    assert(earlier[j as int] == line@[j as int]@);
                }
                lemma_find_is(earlier, of_thread(sorted[k as int].thread_id), j as int);
                let h = heads(earlier);
                if j == k {
                    assert(h.push(sorted[k as int]).drop_last() =~= h);
                    reveal(Seq::filter);
                }
            }
            if j == k && self.is_listed(&line[k], before, after) {
                out.push(self.summary(&line[k]));
                proof {
                    let h = heads(earlier);
                    assert(views(out@) =~= views(so_far).push(f(sorted[k as int])));
                    assert(h.push(sorted[k as int]).filter(p) == h.filter(p).push(
                        sorted[k as int],
                    ));
                    assert(h.filter(p).push(sorted[k as int]).map_values(f) =~= views(out@));
                }
            }
            k = k + 1;
        }
        assert(sorted.take(k as int) =~= sorted);
        let ghost whole = views(out@);
        let m = page_length(out.len(), limit);
        out.truncate(m);
        proof {
            let kept = heads(sorted).filter(p);
            assert(whole.len() == kept.len());
            assert(views(out@) =~= whole.take(m as int));
            assert(whole.take(m as int) =~= limited(kept, limit as int).map_values(f));
        }
        Ok(out)
    }

    fn number_thread(&self, e164: &str) -> (r: Option<i32>)
        ensures
            r == thread_of_number(self@, e164@),
    {
        match self.get_topic_by_e164(e164) {
            Ok(Some(topic)) => {
                return Some(topic.thread_id);
            },
            _ => {},
        }
        let ghost rows = self@.topics;
        let ghost p = knows_number(self@, e164@);
        let mut i: usize = 0;
        while i < self.topics.len()
            invariant
                i <= self.topics@.len(),
                rows == self@.topics,
                rows.len() == self.topics@.len(),
                p == knows_number(self@, e164@),
                topic_by_e164(self@, e164@) is None,
                forall|j: int| 0 <= j < i ==> !p(#[trigger] rows[j]),
            decreases self.topics@.len() - i,
        {
            assert(rows[i as int] == self.topics@[i as int]@);
            let known = match self.topics[i].topic.contact_id {
                Some(c) => self.holds_number(c, e164),
                None => false,
            };
            if known {
                proof {
                    lemma_find_is(rows, p, i as int);
                }
                return Some(self.topics[i].topic.thread_id);
            }
            i = i + 1;
        }
        proof {
            lemma_find_is(rows, p, i as int);
        }
        None
    }

    /// Gives messages without a thread the one of their number.
    pub fn backfill_thread_ids(&mut self) -> (r: Result<(), DbError>)
        requires
            old(self)@.wf(),
        ensures
            r is Ok,
            final(self)@.wf(),
            final(self)@ == threads_filled(old(self)@),
    {
        let ghost t = self@;
        let ghost f = inbound_filled(t);
        let ghost g = outbound_filled(t);
        let mut inbound: Vec<InboundRow> = Vec::new();
        let mut i: usize = 0;
        while i < self.inbound.len()
            invariant
                i <= self.inbound@.len(),
                self@ == t,
                t.inbound.len() == self.inbound@.len(),
                f == inbound_filled(t),
                views(inbound@) == t.inbound.map_values(f).take(i as int),
            decreases self.inbound@.len() - i,
        {
            let ghost so_far = inbound@;
            assert(t.inbound[i as int] == self.inbound@[i as int]@);
            let mut row = self.inbound[i].copied();
            if row.thread_id.is_none() {
                row.thread_id = self.number_thread(row.e164.as_str());
            }
            assert(row@ == f(t.inbound[i as int]));
            inbound.push(row);
            assert(views(inbound@) =~= views(so_far).push(f(t.inbound[i as int])));
            i = i + 1;
        }
        assert(t.inbound.map_values(f).take(i as int) =~= t.inbound.map_values(f));
        let mut outbound: Vec<OutboundRow> = Vec::new();
        let mut k: usize = 0;
        while k < self.outbound.len()
            invariant
                k <= self.outbound@.len(),
                self@ == t,
                t.outbound.len() == self.outbound@.len(),
                g == outbound_filled(t),
                views(outbound@) == t.outbound.map_values(g).take(k as int),
            decreases self.outbound@.len() - k,
        {
            let ghost so_far = outbound@;
            assert(t.outbound[k as int] == self.outbound@[k as int]@);
            let mut row = self.outbound[k].copied();
            if row.thread_id.is_none() {
                row.thread_id = self.number_thread(row.e164.as_str());
            }
            assert(row@ == g(t.outbound[k as int]));
            outbound.push(row);
            assert(views(outbound@) =~= views(so_far).push(g(t.outbound[k as int])));
            k = k + 1;
        }
        assert(t.outbound.map_values(g).take(k as int) =~= t.outbound.map_values(g));
        self.inbound = inbound;
        self.outbound = outbound;
        proof {
            let a = t.inbound.map_values(f);
            let b = t.outbound.map_values(g);
            assert forall|x: int| 0 <= x < a.len() implies (#[trigger] a[x]).id == t.inbound[x].id
                && a[x].mm_path == t.inbound[x].mm_path by {}
            assert forall|x: int| 0 <= x < b.len() implies (#[trigger] b[x]).id
                == t.outbound[x].id by {}
            assert(inbound_ok(a));
            assert(outbound_ok(b));
        }
        Ok(())
    }
}

impl Entry {
    fn copied(&self) -> (r: Entry)
        ensures
            r@ == self@,
    {
        Entry {
            received: self.received,
            id: self.id,
            e164: self.e164.clone(),
            body: self.body.clone(),
            timestamp: self.timestamp.clone(),
            sms_ts: clone_opt(&self.sms_ts),
            ok: self.ok,
            thread_id: self.thread_id,
        }
    }
}

impl InboundRow {
    pub(crate) fn copied(&self) -> (r: InboundRow)
        ensures
            r@ == self@,
    {
        InboundRow {
            id: self.id,
            mm_path: self.mm_path.clone(),
            e164: self.e164.clone(),
            body: self.body.clone(),
            tg_msg: self.tg_msg,
            created_at: self.created_at.clone(),
            sms_ts: clone_opt(&self.sms_ts),
            thread_id: self.thread_id,
        }
    }
}

impl OutboundRow {
    pub(crate) fn copied(&self) -> (r: OutboundRow)
        ensures
            r@ == self@,
    {
        OutboundRow {
            id: self.id,
            e164: self.e164.clone(),
            body: self.body.clone(),
            result: self.result.clone(),
            created_at: self.created_at.clone(),
            thread_id: self.thread_id,
        }
    }
}

} // verus!
