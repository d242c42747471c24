//! What a flow asks the outside world to do, and what comes back.
use vstd::prelude::*;

use crate::app::{AppError, AppErrorView};
use crate::modem::{ModemError, ModemErrorView};

verus! {

/// Something to be done by Telegram or by the modem.
#[derive(Debug)]
pub enum Effect {
    Post { thread_id: i32, text: String },
    Reply { thread_id: i32, text: String, reply_to: i32 },
    React { message_id: i32, emoji: String },
    CreateTopic { title: String },
    SendSms { e164: String, text: String },
    DeleteSms { path: String },
}

pub enum EffectView {
    Post { thread_id: i32, text: Seq<char> },
    Reply { thread_id: i32, text: Seq<char>, reply_to: i32 },
    React { message_id: i32, emoji: Seq<char> },
    CreateTopic { title: Seq<char> },
    SendSms { e164: Seq<char>, text: Seq<char> },
    DeleteSms { path: Seq<char> },
}

impl View for Effect {
    type V = EffectView;

    open spec fn view(&self) -> EffectView {
        match self {
            Effect::Post { thread_id, text } => EffectView::Post {
                thread_id: *thread_id,
                text: text@,
            },
            Effect::Reply { thread_id, text, reply_to } => EffectView::Reply {
                thread_id: *thread_id,
                text: text@,
                reply_to: *reply_to,
            },
            Effect::React { message_id, emoji } => EffectView::React {
                message_id: *message_id,
                emoji: emoji@,
            },
            Effect::CreateTopic { title } => EffectView::CreateTopic { title: title@ },
            Effect::SendSms { e164, text } => EffectView::SendSms { e164: e164@, text: text@ },
            Effect::DeleteSms { path } => EffectView::DeleteSms { path: path@ },
        }
    }
}

/// What came of an effect.
#[derive(Debug)]
pub enum Outcome {
    /// It was done.
    Done,
    /// The topic was created, with this thread.
    Created(i32),
    /// The modem took the message, under this path.
    Sent(String),
    /// Telegram refused.
    TelegramFailed(AppError),
    /// The modem refused.
    ModemFailed(ModemError),
}

pub enum OutcomeView {
    Done,
    Created(i32),
    Sent(Seq<char>),
    TelegramFailed(AppErrorView),
    ModemFailed(ModemErrorView),
}

impl View for Outcome {
    type V = OutcomeView;

    open spec fn view(&self) -> OutcomeView {
        match self {
            Outcome::Done => OutcomeView::Done,
            Outcome::Created(id) => OutcomeView::Created(*id),
            Outcome::Sent(path) => OutcomeView::Sent(path@),
            Outcome::TelegramFailed(e) => OutcomeView::TelegramFailed(e@),
            Outcome::ModemFailed(e) => OutcomeView::ModemFailed(e@),
        }
    }
}

/// The outcome is one that the effect can have.
pub open spec fn answers(e: EffectView, o: OutcomeView) -> bool {
    match e {
        EffectView::Post { .. } => o is Done || o is TelegramFailed,
        EffectView::Reply { .. } => o is Done || o is TelegramFailed,
        EffectView::React { .. } => o is Done || o is TelegramFailed,
        EffectView::CreateTopic { .. } => o is Created || o is TelegramFailed,
        EffectView::SendSms { .. } => o is Sent || o is ModemFailed,
        EffectView::DeleteSms { .. } => o is Done || o is ModemFailed,
    }
}

/// One step of a flow: do something and go on with what comes of it, or end.
#[derive(Debug)]
pub enum Step<K, R> {
    Do(Effect, K),
    End(R),
}

pub enum StepView<K, R> {
    Do(EffectView, K),
    End(R),
}

pub fn post(thread_id: i32, text: &str) -> (r: Effect)
    ensures
        r@ == (EffectView::Post { thread_id, text: text@ }),
{
    Effect::Post { thread_id, text: text.to_owned() }
}

pub fn react(message_id: i32, emoji: &str) -> (r: Effect)
    ensures
        r@ == (EffectView::React { message_id, emoji: emoji@ }),
{
    Effect::React { message_id, emoji: emoji.to_owned() }
}

} // verus!
