//! The flows of the gateway: receiving, sending, watching and sweeping.
pub mod effect;
pub mod fake;
pub mod incoming;
pub mod owner;
pub mod presence;
pub mod send;
pub mod sweep;

pub use effect::{Effect, Outcome, Step};
pub use fake::FakeTg;
pub use incoming::{handle_incoming, handle_incoming_then_delete};
pub use owner::{handle_owner_text, OwnerTextOutcome};
pub use presence::{watch_inbox, Presence, PresenceEvent};
pub use send::{maybe_delete, send_and_ack};
pub use sweep::{sweep_action, sweep_old_sms, SweepAction};

use vstd::prelude::*;

use crate::db::{DbError, DbErrorView};
use crate::modem::{ModemError, ModemErrorView};
use crate::text::cat;

verus! {

/// The mark of a message that is under way.
pub const SEND_PENDING: &'static str = "👀";

/// The answer to a message that was sent, where there is none to mark.
pub const SEND_ACK: &'static str = "✅";

/// The mark of a message that was sent.
pub const SEND_REACT_OK: &'static str = "👍";

/// The mark of a message that was not sent.
pub const SEND_FAIL: &'static str = "👎";

#[derive(Debug)]
pub enum AppError {
    Db(DbError),
    Modem(ModemError),
    Telegram(String),
}

pub enum AppErrorView {
    Db(DbErrorView),
    Modem(ModemErrorView),
    Telegram(Seq<char>),
}

impl View for AppError {
    type V = AppErrorView;

    open spec fn view(&self) -> AppErrorView {
        match self {
            AppError::Db(e) => AppErrorView::Db(e@),
            AppError::Modem(e) => AppErrorView::Modem(e@),
            AppError::Telegram(s) => AppErrorView::Telegram(s@),
        }
    }
}

impl AppErrorView {
    pub open spec fn words(self) -> Seq<char> {
        match self {
            AppErrorView::Db(e) => e.words(),
            AppErrorView::Modem(e) => e.words(),
            AppErrorView::Telegram(s) => "telegram: "@ + s,
        }
    }
}

impl AppError {
    /// The error in words.
    pub fn message(&self) -> (r: String)
        ensures
            r@ == self@.words(),
    {
        match self {
            AppError::Db(e) => e.message(),
            AppError::Modem(e) => e.message(),
            AppError::Telegram(s) => cat("telegram: ", s.as_str()),
        }
    }
}

} // verus!
