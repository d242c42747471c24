//! The chats and messages of the past, page by page.
use vstd::prelude::*;

use crate::actions::{ActionError, ActionErrorView};
use crate::clock::{earlier, is_earlier, parse_rfc3339, rfc3339_time, UtcTime};
use crate::db::history::{
    chats_of, messages_of, ChatSummary, ChatSummaryView, MessageRow, MessageRowView,
};
use crate::db::{Db, Topic};
use crate::normalize::{
    complaint, normalize_e164, normalized, result_view, NormalizeError, NormalizeErrorView,
};
use crate::route::GENERAL_THREAD;
use crate::rows::{opt_view, res_opt, res_plain, res_view, views};
use crate::tables::{has_number, topic_by_thread, Tables, TopicView};
use crate::text::{nonblank, opt_eq, trim};

verus! {

/// A page of chats. Where the next page begins is said only if this one is full.
#[derive(Debug)]
pub struct ChatList {
    pub chats: Vec<ChatSummary>,
    pub next_before: Option<String>,
}

pub struct ChatListView {
    pub chats: Seq<ChatSummaryView>,
    pub next_before: Option<Seq<char>>,
}

impl View for ChatList {
    type V = ChatListView;

    open spec fn view(&self) -> ChatListView {
        ChatListView { chats: views(self.chats@), next_before: opt_view(self.next_before) }
    }
}

/// A page of the messages of a thread.
#[derive(Debug)]
pub struct MessageList {
    pub thread_id: i32,
    pub title: String,
    pub contact_id: Option<i64>,
    pub messages: Vec<MessageRow>,
    pub next_before: Option<String>,
}

pub struct MessageListView {
    pub thread_id: i32,
    pub title: Seq<char>,
    pub contact_id: Option<i64>,
    pub messages: Seq<MessageRowView>,
    pub next_before: Option<Seq<char>>,
}

impl View for MessageList {
    type V = MessageListView;

    open spec fn view(&self) -> MessageListView {
        MessageListView {
            thread_id: self.thread_id,
            title: self.title@,
            contact_id: self.contact_id,
            messages: views(self.messages@),
            next_before: opt_view(self.next_before),
        }
    }
}

// ---------------------------------------------------------------------------
// Pages
// ---------------------------------------------------------------------------

/// How many items a page has: between 1 and 100, and 50 where nothing is said.
pub open spec fn page_size(limit: Option<i64>) -> Result<i64, ActionErrorView> {
    match limit {
        None => Ok(50),
        Some(n) => if 1 <= n <= 100 {
            Ok(n)
        } else {
            Err(ActionErrorView::Validation("limit must be 1..=100"@))
        },
    }
}

pub fn history_limit(limit: Option<i64>) -> (r: Result<i64, ActionError>)
    ensures
        res_plain(r) == page_size(limit),
{
    let n: i64 = match limit {
        Some(n) => n,
        None => 50,
    };
    if n < 1 || n > 100 {
        Err(ActionError::Validation("limit must be 1..=100".to_owned()))
    } else {
        Ok(n)
    }
}

/// A point in time that a page begins or ends at, as it was written, given what
/// it reads as.
pub open spec fn cursor_read(raw: Option<Seq<char>>, time: Option<UtcTime>) -> Result<
    Option<Seq<char>>,
    ActionErrorView,
> {
    match nonblank(raw) {
        None => Ok(None),
        Some(s) => if time is Some {
            Ok(Some(s))
        } else {
            Err(ActionErrorView::Validation("invalid cursor timestamp"@))
        },
    }
}

pub open spec fn opt_time(s: Option<Seq<char>>) -> Option<UtcTime> {
    match s {
        Some(s) => rfc3339_time(s),
        None => None,
    }
}

/// A point in time that a page begins or ends at, as it was written.
pub open spec fn cursor(raw: Option<Seq<char>>) -> Result<Option<Seq<char>>, ActionErrorView> {
    cursor_read(raw, opt_time(nonblank(raw)))
}

/// Accepts a cursor that reads as a point in time.
pub fn accept_cursor(raw: &Option<String>, time: Option<UtcTime>) -> (r: Result<
    Option<String>,
    ActionError,
>)
    ensures
        res_opt(r) == cursor_read(opt_view(*raw), time),
{
    match raw {
        None => Ok(None),
        Some(raw) => {
            let s = trim(raw.as_str());
            if s.as_str().is_empty() {
                Ok(None)
            } else if time.is_some() {
                Ok(Some(s))
            } else {
                Err(ActionError::Validation("invalid cursor timestamp".to_owned()))
            }
        },
    }
}

pub fn parse_cursor(raw: &Option<String>) -> (r: Result<Option<String>, ActionError>)
    ensures
        res_opt(r) == cursor(opt_view(*raw)),
{
    let time = match raw {
        None => None,
        Some(raw) => parse_rfc3339(trim(raw.as_str()).as_str()),
    };
    accept_cursor(raw, time)
}

/// A page that ends before it begins is refused.
pub open spec fn cursors_fit(before: Option<UtcTime>, after: Option<UtcTime>) -> bool {
    match (before, after) {
        (Some(b), Some(a)) => earlier(a, b),
        _ => true,
    }
}

/// Whether a page can lie between two points in time.
pub fn cursors_in_order(before: Option<UtcTime>, after: Option<UtcTime>) -> (r: bool)
    ensures
        r == cursors_fit(before, after),
{
    match (before, after) {
        (Some(b), Some(a)) => is_earlier(a, b),
        _ => true,
    }
}

fn time_of(s: &Option<String>) -> (r: Option<UtcTime>)
    ensures
        r == opt_time(opt_view(*s)),
{
    match s {
        Some(s) => parse_rfc3339(s.as_str()),
        None => None,
    }
}

pub struct PageView {
    pub limit: i64,
    pub before: Option<Seq<char>>,
    pub after: Option<Seq<char>>,
}

/// A page that is asked for.
pub struct Page {
    pub limit: i64,
    pub before: Option<String>,
    pub after: Option<String>,
}

impl View for Page {
    type V = PageView;

    open spec fn view(&self) -> PageView {
        PageView {
            limit: self.limit,
            before: opt_view(self.before),
            after: opt_view(self.after),
        }
    }
}

/// The page that is asked for, or what is wrong with it.
pub open spec fn page_asked(
    limit: Option<i64>,
    before: Option<Seq<char>>,
    after: Option<Seq<char>>,
) -> Result<PageView, ActionErrorView> {
    match page_size(limit) {
        Err(e) => Err(e),
        Ok(n) => match cursor(before) {
            Err(e) => Err(e),
            Ok(b) => match cursor(after) {
                Err(e) => Err(e),
                Ok(a) => if cursors_fit(opt_time(b), opt_time(a)) {
                    Ok(PageView { limit: n, before: b, after: a })
                } else {
                    Err(ActionErrorView::Validation("before must be greater than after"@))
                },
            },
        },
    }
}

fn page_of(limit: Option<i64>, before: &Option<String>, after: &Option<String>) -> (r: Result<
    Page,
    ActionError,
>)
    ensures
        res_view(r) == page_asked(limit, opt_view(*before), opt_view(*after)),
{
    let limit = history_limit(limit)?;
    let before = parse_cursor(before)?;
    let after = parse_cursor(after)?;
    if !cursors_in_order(time_of(&before), time_of(&after)) {
        return Err(ActionError::Validation("before must be greater than after".to_owned()));
    }
    Ok(Page { limit, before, after })
}

// ---------------------------------------------------------------------------
// Chats
// ---------------------------------------------------------------------------

/// The time of the last chat of a full page.
pub open spec fn chats_next(chats: Seq<ChatSummaryView>, limit: int) -> Option<Seq<char>> {
    if chats.len() == limit && chats.len() > 0 {
        Some(chats.last().last_message_at)
    } else {
        None
    }
}

/// A page of the chats.
pub open spec fn chats_page_of(t: Tables, page: PageView) -> ChatListView {
    let chats = chats_of(t, page.limit as int, page.before, page.after);
    ChatListView { chats, next_before: chats_next(chats, page.limit as int) }
}

/// What `list_chats` answers.
pub open spec fn chats_result(
    t: Tables,
    limit: Option<i64>,
    before: Option<Seq<char>>,
    after: Option<Seq<char>>,
) -> Result<ChatListView, ActionErrorView> {
    match page_asked(limit, before, after) {
        Err(e) => Err(e),
        Ok(page) => Ok(chats_page_of(t, page)),
    }
}

/// Shows a page of the chats with messages, the latest first.
pub fn chats_page(db: &Db, page: &Page) -> (r: Result<ChatList, ActionError>)
    ensures
        res_view(r) == Ok::<ChatListView, ActionErrorView>(chats_page_of(db@, page@)),
{
    match db.chats_with_activity(page.limit, &page.before, &page.after) {
        Err(e) => Err(ActionError::Db(e)),
        Ok(chats) => {
            let n = chats.len();
            let next_before = if n > 0 && page.limit > 0 && n as u64 == page.limit as u64 {
                assert(views(chats@).last() == chats@[n - 1]@);
                Some(chats[n - 1].last_message_at.clone())
            } else {
                None
            };
            Ok(ChatList { chats, next_before })
        },
    }
}

/// A page of the chats with messages, the latest first.
pub fn list_chats(
    db: &Db,
    limit: Option<i64>,
    before: &Option<String>,
    after: &Option<String>,
) -> (r: Result<ChatList, ActionError>)
    ensures
        res_view(r) == chats_result(db@, limit, opt_view(*before), opt_view(*after)),
{
    let page = page_of(limit, before, after)?;
    chats_page(db, &page)
}

// ---------------------------------------------------------------------------
// Messages
// ---------------------------------------------------------------------------

/// The number is one that the topic writes to.
pub open spec fn topic_has_number(t: Tables, topic: TopicView, e164: Seq<char>) -> bool {
    ||| topic.default_e164 == Some(e164)
    ||| topic.contact_id matches Some(c) && has_number(t, c, e164)
}

/// What is wrong with the number and the contact given along with a thread, if
/// anything: they must be those of its topic. General has no contact.
pub open spec fn mismatch(
    t: Tables,
    topic: Option<TopicView>,
    number: Option<Result<Seq<char>, NormalizeErrorView>>,
    contact_id: Option<i64>,
) -> Option<ActionErrorView> {
    let owner = match topic {
        Some(topic) => topic.contact_id,
        None => None,
    };
    if contact_id is Some && contact_id != owner {
        Some(ActionErrorView::IdentityConflict)
    } else {
        match number {
            None => None,
            Some(Err(e)) => Some(ActionErrorView::InvalidNumber(complaint(e))),
            Some(Ok(e164)) => match topic {
                Some(topic) => if topic_has_number(t, topic, e164) {
                    None
                } else {
                    Some(ActionErrorView::IdentityConflict)
                },
                None => None,
            },
        }
    }
}

/// The number that is given, in E.164 form if it can be read.
pub open spec fn number_given(number: Option<Seq<char>>, region: Seq<char>) -> Option<
    Result<Seq<char>, NormalizeErrorView>,
> {
    match nonblank(number) {
        None => None,
        Some(raw) => Some(normalized(raw, region)),
    }
}

pub open spec fn number_view(number: Option<Result<String, NormalizeError>>) -> Option<
    Result<Seq<char>, NormalizeErrorView>,
> {
    match number {
        Some(n) => Some(result_view(n)),
        None => None,
    }
}

pub open spec fn messages_next(messages: Seq<MessageRowView>, limit: int) -> Option<Seq<char>> {
    if messages.len() == limit && messages.len() > 0 {
        Some(messages.last().timestamp)
    } else {
        None
    }
}

/// The topic of a thread; General has none.
pub open spec fn topic_listed(t: Tables, thread_id: i32) -> Option<TopicView> {
    if thread_id == GENERAL_THREAD {
        None
    } else {
        topic_by_thread(t, thread_id)
    }
}

/// A page of the messages of a thread.
pub open spec fn messages_page_of(
    t: Tables,
    thread_id: i32,
    page: PageView,
    number: Option<Result<Seq<char>, NormalizeErrorView>>,
    contact_id: Option<i64>,
) -> Result<MessageListView, ActionErrorView> {
    let topic = topic_listed(t, thread_id);
    if thread_id != GENERAL_THREAD && topic is None {
        Err(ActionErrorView::NotFound("unknown thread"@))
    } else {
        match mismatch(t, topic, number, contact_id) {
            Some(e) => Err(e),
            None => {
                let messages = messages_of(
                    t,
                    thread_id,
                    page.limit as int,
                    page.before,
                    page.after,
                );
                Ok(
                    MessageListView {
                        thread_id,
                        title: match topic {
                            Some(topic) => topic.title,
                            None => "General"@,
                        },
                        contact_id: match topic {
                            Some(topic) => topic.contact_id,
                            None => None,
                        },
                        messages,
                        next_before: messages_next(messages, page.limit as int),
                    },
                )
            },
        }
    }
}

/// What `list_messages` answers.
pub open spec fn messages_result(
    t: Tables,
    region: Seq<char>,
    thread_id: i32,
    limit: Option<i64>,
    before: Option<Seq<char>>,
    after: Option<Seq<char>>,
    number: Option<Seq<char>>,
    contact_id: Option<i64>,
) -> Result<MessageListView, ActionErrorView> {
    match page_asked(limit, before, after) {
        Err(e) => Err(e),
        Ok(page) => messages_page_of(t, thread_id, page, number_given(number, region), contact_id),
    }
}

fn find_mismatch(
    db: &Db,
    topic: &Option<Topic>,
    number: Option<Result<String, NormalizeError>>,
    contact_id: Option<i64>,
) -> (r: Option<ActionError>)
    ensures
        opt_view(r) == mismatch(db@, opt_view(*topic), number_view(number), contact_id),
{
    let owner = match topic {
        Some(topic) => topic.contact_id,
        None => None,
    };
    if let Some(c) = contact_id {
        if owner != Some(c) {
            return Some(ActionError::IdentityConflict);
        }
    }
    let e164 = match number {
        None => {
            return None;
        },
        Some(Err(e)) => {
            return Some(ActionError::InvalidNumber(e.message()));
        },
        Some(Ok(e164)) => e164,
    };
    match topic {
        None => None,
        Some(topic) => {
            if opt_eq(&topic.default_e164, e164.as_str()) {
                return None;
            }
            if let Some(c) = topic.contact_id {
                if db.holds_number(c, e164.as_str()) {
                    return None;
                }
            }
            Some(ActionError::IdentityConflict)
        },
    }
}

/// Shows a page of the messages of a thread, the latest first.
pub fn messages_page(
    db: &Db,
    thread_id: i32,
    page: &Page,
    number: Option<Result<String, NormalizeError>>,
    contact_id: Option<i64>,
) -> (r: Result<MessageList, ActionError>)
    ensures
        res_view(r) == messages_page_of(db@, thread_id, page@, number_view(number), contact_id),
{
    let topic = if thread_id == GENERAL_THREAD {
        None
    } else {
        match db.get_topic_by_thread(thread_id) {
            Err(e) => {
                return Err(ActionError::Db(e));
            },
            Ok(None) => {
                return Err(ActionError::NotFound("unknown thread".to_owned()));
            },
            Ok(topic) => topic,
        }
    };
    if let Some(e) = find_mismatch(db, &topic, number, contact_id) {
        return Err(e);
    }
    match db.messages_for_thread(thread_id, page.limit, &page.before, &page.after) {
        Err(e) => Err(ActionError::Db(e)),
        Ok(messages) => {
            let n = messages.len();
            let next_before = if n > 0 && page.limit > 0 && n as u64 == page.limit as u64 {
                assert(views(messages@).last() == messages@[n - 1]@);
                Some(messages[n - 1].timestamp.clone())
            } else {
                None
            };
            match topic {
                Some(topic) => Ok(
                    MessageList {
                        thread_id,
                        title: topic.title,
                        contact_id: topic.contact_id,
                        messages,
                        next_before,
                    },
                ),
                None => Ok(
                    MessageList {
                        thread_id,
                        title: "General".to_owned(),
                        contact_id: None,
                        messages,
                        next_before,
                    },
                ),
            }
        },
    }
}

fn read_number(number: &Option<String>, region: &str) -> (r: Option<Result<String, NormalizeError>>)
    ensures
        number_view(r) == number_given(opt_view(*number), region@),
{
    match number {
        None => None,
        Some(n) => {
            let raw = trim(n.as_str());
            if raw.as_str().is_empty() {
                None
            } else {
                Some(normalize_e164(raw.as_str(), region))
            }
        },
    }
}

/// A page of the messages of a thread, the latest first. A number and a contact
/// given along with the thread must be those of its topic.
pub fn list_messages(
    db: &Db,
    region: &str,
    thread_id: i32,
    limit: Option<i64>,
    before: &Option<String>,
    after: &Option<String>,
    number: &Option<String>,
    contact_id: Option<i64>,
) -> (r: Result<MessageList, ActionError>)
    ensures
        res_view(r) == messages_result(
            db@,
            region@,
            thread_id,
            limit,
            opt_view(*before),
            opt_view(*after),
            opt_view(*number),
            contact_id,
        ),
{
    let page = page_of(limit, before, after)?;
    messages_page(db, thread_id, &page, read_number(number, region), contact_id)
}

} // verus!
