//! What the owner can ask for, from the forum and over HTTP alike.
pub mod forward;
pub mod history;
pub mod identity;
pub mod numbers;
pub mod open;
pub mod search;
pub mod sms;

pub use forward::{forward_answer, get_call_forward, put_call_forward, ForwardRequest};
pub use history::{list_chats, list_messages, ChatList, MessageList};
pub use identity::{resolve, Identity, ResolveMode, Resolved};
pub use numbers::{ignore, list_numbers, set_default_number, who, NumberState, Who};
pub use open::{open_topic, Opened};
pub use search::search_contacts;
pub use sms::{send_sms, SmsSent};

use vstd::prelude::*;

use crate::app::{AppError, AppErrorView};
use crate::db::{DbError, DbErrorView};
use crate::rows::views;

verus! {

#[derive(Debug)]
pub enum ActionError {
    Validation(String),
    MissingIdentity,
    InvalidNumber(String),
    NotFound(String),
    IdentityConflict,
    NeedDefaultNumber { numbers: Vec<String> },
    ContactsUnavailable,
    ModemFailed(String),
    TelegramFailed { sent: bool, message: String },
    ModemUnavailable(String),
    ForwardFailed(String),
    Db(DbError),
    App(AppError),
}

pub enum ActionErrorView {
    Validation(Seq<char>),
    MissingIdentity,
    InvalidNumber(Seq<char>),
    NotFound(Seq<char>),
    IdentityConflict,
    NeedDefaultNumber { numbers: Seq<Seq<char>> },
    ContactsUnavailable,
    ModemFailed(Seq<char>),
    TelegramFailed { sent: bool, message: Seq<char> },
    ModemUnavailable(Seq<char>),
    ForwardFailed(Seq<char>),
    Db(DbErrorView),
    App(AppErrorView),
}

impl View for ActionError {
    type V = ActionErrorView;

    open spec fn view(&self) -> ActionErrorView {
        match self {
            ActionError::Validation(s) => ActionErrorView::Validation(s@),
            ActionError::MissingIdentity => ActionErrorView::MissingIdentity,
            ActionError::InvalidNumber(s) => ActionErrorView::InvalidNumber(s@),
            ActionError::NotFound(s) => ActionErrorView::NotFound(s@),
            ActionError::IdentityConflict => ActionErrorView::IdentityConflict,
            ActionError::NeedDefaultNumber { numbers } => ActionErrorView::NeedDefaultNumber {
                numbers: views(numbers@),
            },
            ActionError::ContactsUnavailable => ActionErrorView::ContactsUnavailable,
            ActionError::ModemFailed(s) => ActionErrorView::ModemFailed(s@),
            ActionError::TelegramFailed { sent, message } => ActionErrorView::TelegramFailed {
                sent: *sent,
                message: message@,
            },
            ActionError::ModemUnavailable(s) => ActionErrorView::ModemUnavailable(s@),
            ActionError::ForwardFailed(s) => ActionErrorView::ForwardFailed(s@),
            ActionError::Db(e) => ActionErrorView::Db(e@),
            ActionError::App(e) => ActionErrorView::App(e@),
        }
    }
}

impl ActionErrorView {
    pub open spec fn words(self) -> Seq<char> {
        match self {
            ActionErrorView::Validation(s) => s,
            ActionErrorView::MissingIdentity => "missing identity"@,
            ActionErrorView::InvalidNumber(s) => s,
            ActionErrorView::NotFound(s) => s,
            ActionErrorView::IdentityConflict => "identity fields disagree"@,
            ActionErrorView::NeedDefaultNumber { numbers } => "need default number"@,
            ActionErrorView::ContactsUnavailable => "contacts unavailable"@,
            ActionErrorView::ModemFailed(s) => s,
            ActionErrorView::TelegramFailed { sent, message } => message,
            ActionErrorView::ModemUnavailable(s) => s,
            ActionErrorView::ForwardFailed(s) => s,
            ActionErrorView::Db(e) => e.words(),
            ActionErrorView::App(e) => e.words(),
        }
    }
}

impl ActionError {
    /// The error in words.
    pub fn message(&self) -> (r: String)
        ensures
            r@ == self@.words(),
    {
        match self {
            ActionError::Validation(s) => s.clone(),
            ActionError::MissingIdentity => "missing identity".to_owned(),
            ActionError::InvalidNumber(s) => s.clone(),
            ActionError::NotFound(s) => s.clone(),
            ActionError::IdentityConflict => "identity fields disagree".to_owned(),
            ActionError::NeedDefaultNumber { numbers: _ } => "need default number".to_owned(),
            ActionError::ContactsUnavailable => "contacts unavailable".to_owned(),
            ActionError::ModemFailed(s) => s.clone(),
            ActionError::TelegramFailed { sent: _, message } => message.clone(),
            ActionError::ModemUnavailable(s) => s.clone(),
            ActionError::ForwardFailed(s) => s.clone(),
            ActionError::Db(e) => e.message(),
            ActionError::App(e) => e.message(),
        }
    }
}

} // verus!
