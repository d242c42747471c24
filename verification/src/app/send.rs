//! Sending a message and showing the owner how it went.
use vstd::prelude::*;

use crate::actions::{ActionError, ActionErrorView};
use crate::app::effect::{
    answers, post, react, Effect, EffectView, Outcome, OutcomeView, Step, StepView,
};
use crate::app::{AppErrorView, SEND_ACK, SEND_FAIL, SEND_PENDING, SEND_REACT_OK};
use crate::db::log::{outbound_after, outbound_row, outbound_verdict};
use crate::db::Db;
use crate::rows::res_plain;
use crate::tables::Tables;

verus! {

/// A message to be sent: from a thread, perhaps in answer to a message there
/// that shows how it goes.
#[derive(Debug)]
pub struct SendJob {
    pub e164: String,
    pub text: String,
    pub thread_id: i32,
    pub reply_to: Option<i32>,
    pub delete_enabled: bool,
}

pub struct SendJobView {
    pub e164: Seq<char>,
    pub text: Seq<char>,
    pub thread_id: i32,
    pub reply_to: Option<i32>,
    pub delete_enabled: bool,
}

impl View for SendJob {
    type V = SendJobView;

    open spec fn view(&self) -> SendJobView {
        SendJobView {
            e164: self.e164@,
            text: self.text@,
            thread_id: self.thread_id,
            reply_to: self.reply_to,
            delete_enabled: self.delete_enabled,
        }
    }
}

/// How far a message is.
#[derive(Debug)]
pub enum SendAt {
    /// The owner's message is being marked as under way.
    Marking,
    /// The modem is sending.
    Sending,
    /// The success is being shown.
    Acking { path: String },
    /// The sent message is being deleted from the modem.
    Deleting { path: String },
    /// The owner's message is being marked as failed.
    Regretting { error: String },
    /// The error is being told.
    Telling { error: String },
}

pub enum SendAtView {
    Marking,
    Sending,
    Acking { path: Seq<char> },
    Deleting { path: Seq<char> },
    Regretting { error: Seq<char> },
    Telling { error: Seq<char> },
}

impl View for SendAt {
    type V = SendAtView;

    open spec fn view(&self) -> SendAtView {
        match self {
            SendAt::Marking => SendAtView::Marking,
            SendAt::Sending => SendAtView::Sending,
            SendAt::Acking { path } => SendAtView::Acking { path: path@ },
            SendAt::Deleting { path } => SendAtView::Deleting { path: path@ },
            SendAt::Regretting { error } => SendAtView::Regretting { error: error@ },
            SendAt::Telling { error } => SendAtView::Telling { error: error@ },
        }
    }
}

#[derive(Debug)]
pub struct SendFlow {
    pub job: SendJob,
    pub at: SendAt,
}

pub struct SendFlowView {
    pub job: SendJobView,
    pub at: SendAtView,
}

impl View for SendFlow {
    type V = SendFlowView;

    open spec fn view(&self) -> SendFlowView {
        SendFlowView { job: self.job@, at: self.at@ }
    }
}

pub type SendStep = Step<SendFlow, Result<(), ActionError>>;

pub type SendStepView = StepView<SendFlowView, Result<(), ActionErrorView>>;

pub open spec fn send_step_view(s: SendStep) -> SendStepView {
    match s {
        Step::Do(e, k) => StepView::Do(e@, k@),
        Step::End(r) => StepView::End(res_plain(r)),
    }
}

/// What is under way at each point.
pub open spec fn send_effect(s: SendFlowView) -> EffectView {
    let job = s.job;
    match s.at {
        SendAtView::Marking => EffectView::React {
            message_id: job.reply_to->0,
            emoji: SEND_PENDING@,
        },
        SendAtView::Sending => EffectView::SendSms { e164: job.e164, text: job.text },
        SendAtView::Acking { path } => match job.reply_to {
            Some(id) => EffectView::React { message_id: id, emoji: SEND_REACT_OK@ },
            None => EffectView::Post { thread_id: job.thread_id, text: SEND_ACK@ },
        },
        SendAtView::Deleting { path } => EffectView::DeleteSms { path },
        SendAtView::Regretting { error } => EffectView::React {
            message_id: job.reply_to->0,
            emoji: SEND_FAIL@,
        },
        SendAtView::Telling { error } => match job.reply_to {
            Some(id) => EffectView::Reply { thread_id: job.thread_id, text: error, reply_to: id },
            None => EffectView::Post { thread_id: job.thread_id, text: error },
        },
    }
}

pub open spec fn send_do(job: SendJobView, at: SendAtView) -> SendStepView {
    let s = SendFlowView { job, at };
    StepView::Do(send_effect(s), s)
}

/// A message from the owner is marked as under way before anything is sent.
pub open spec fn send_begun(job: SendJobView) -> SendStepView {
    match job.reply_to {
        Some(_) => send_do(job, SendAtView::Marking),
        None => send_do(job, SendAtView::Sending),
    }
}

/// The record of a message with its result.
pub open spec fn send_record(t: Tables, job: SendJobView, result: Seq<char>, now: Seq<char>) -> Tables {
    outbound_after(t, outbound_row(job.e164, job.text, result, now, Some(job.thread_id)))
}

/// What a step records: the result of sending, once it is known.
pub open spec fn send_after(t: Tables, s: SendFlowView, o: OutcomeView, now: Seq<char>) -> Tables {
    match (s.at, o) {
        (SendAtView::Sending, OutcomeView::Sent(_)) => send_record(t, s.job, "ok"@, now),
        (SendAtView::Sending, OutcomeView::ModemFailed(e)) => send_record(t, s.job, e.words(), now),
        _ => t,
    }
}

/// How a message goes on. If it cannot be marked it is not sent. If it was sent
/// but the success cannot be shown, that is an error that says it was sent. The
/// modem's copy is deleted only after all went well. A failure is shown and
/// told, and how that goes does not matter.
pub open spec fn send_next(t: Tables, s: SendFlowView, o: OutcomeView) -> SendStepView {
    let job = s.job;
    match (s.at, o) {
        (SendAtView::Marking, OutcomeView::TelegramFailed(e)) => StepView::End(
            Err(ActionErrorView::TelegramFailed { sent: false, message: e.words() }),
        ),
        (SendAtView::Marking, _) => send_do(job, SendAtView::Sending),
        (SendAtView::Sending, OutcomeView::ModemFailed(e)) => match outbound_verdict(t) {
            Err(e) => StepView::End(Err(ActionErrorView::Db(e))),
            Ok(_) => if job.reply_to is Some {
                send_do(job, SendAtView::Regretting { error: e.words() })
            } else {
                send_do(job, SendAtView::Telling { error: e.words() })
            },
        },
        (SendAtView::Sending, OutcomeView::Sent(path)) => match outbound_verdict(t) {
            Err(e) => StepView::End(Err(ActionErrorView::Db(e))),
            Ok(_) => send_do(job, SendAtView::Acking { path }),
        },
        (SendAtView::Acking { path }, OutcomeView::TelegramFailed(e)) => StepView::End(
            Err(ActionErrorView::TelegramFailed { sent: true, message: e.words() }),
        ),
        (SendAtView::Acking { path }, _) => if job.delete_enabled && path.len() > 0 {
            send_do(job, SendAtView::Deleting { path })
        } else {
            StepView::End(Ok(()))
        },
        (SendAtView::Regretting { error }, _) => send_do(job, SendAtView::Telling { error }),
        (SendAtView::Telling { error }, _) => StepView::End(
            Err(ActionErrorView::ModemFailed(error)),
        ),
        _ => StepView::End(Ok(())),
    }
}

/// The flow waits for something that its point can answer to.
pub open spec fn send_awaits(s: SendFlowView, o: OutcomeView) -> bool {
    answers(send_effect(s), o)
}

fn doing_send(job: SendJob) -> (r: SendStep)
    ensures
        send_step_view(r) == send_do(job@, SendAtView::Sending),
{
    let effect = Effect::SendSms { e164: job.e164.clone(), text: job.text.clone() };
    Step::Do(effect, SendFlow { job, at: SendAt::Sending })
}

fn telling(job: SendJob, error: String) -> (r: SendStep)
    ensures
        send_step_view(r) == send_do(job@, SendAtView::Telling { error: error@ }),
{
    let effect = match job.reply_to {
        Some(id) => Effect::Reply {
            thread_id: job.thread_id,
            text: error.clone(),
            reply_to: id,
        },
        None => post(job.thread_id, error.as_str()),
    };
    Step::Do(effect, SendFlow { job, at: SendAt::Telling { error } })
}

/// Deletes a message from the modem, where that is wanted and it has a path.
pub fn maybe_delete(enabled: bool, path: &str) -> (r: Option<Effect>)
    ensures
        r is Some <==> enabled && path@.len() > 0,
        r matches Some(e) ==> e@ == (EffectView::DeleteSms { path: path@ }),
{
    if !enabled || path.is_empty() {
        None
    } else {
        Some(Effect::DeleteSms { path: path.to_owned() })
    }
}

/// Begins to send a message.
pub fn send_and_ack(job: SendJob) -> (r: SendStep)
    ensures
        send_step_view(r) == send_begun(job@),
{
    match job.reply_to {
        Some(id) => {
            let effect = react(id, SEND_PENDING);
            Step::Do(effect, SendFlow { job, at: SendAt::Marking })
        },
        None => doing_send(job),
    }
}

impl SendFlow {
    /// Goes on with what came of the last effect.
    pub fn next(self, db: &mut Db, outcome: Outcome, now: &str) -> (r: SendStep)
        requires
            old(db)@.wf(),
            send_awaits(self@, outcome@),
        ensures
            final(db)@.wf(),
            final(db)@ == send_after(old(db)@, self@, outcome@, now@),
            send_step_view(r) == send_next(old(db)@, self@, outcome@),
    {
        let SendFlow { job, at } = self;
        match at {
            SendAt::Marking => match outcome {
                Outcome::TelegramFailed(e) => Step::End(
                    Err(ActionError::TelegramFailed { sent: false, message: e.message() }),
                ),
                _ => doing_send(job),
            },
            SendAt::Sending => match outcome {
                Outcome::Sent(path) => {
                    match db.record_outbound_at(
                        job.e164.as_str(),
                        job.text.as_str(),
                        "ok",
                        job.thread_id,
                        now,
                    ) {
                        Err(e) => Step::End(Err(ActionError::Db(e))),
                        Ok(_) => {
                            let effect = match job.reply_to {
                                Some(id) => react(id, SEND_REACT_OK),
                                None => post(job.thread_id, SEND_ACK),
                            };
                            Step::Do(effect, SendFlow { job, at: SendAt::Acking { path } })
                        },
                    }
                },
                Outcome::ModemFailed(e) => {
                    let error = e.message();
                    match db.record_outbound_at(
                        job.e164.as_str(),
                        job.text.as_str(),
                        error.as_str(),
                        job.thread_id,
                        now,
                    ) {
                        Err(e) => Step::End(Err(ActionError::Db(e))),
                        Ok(_) => match job.reply_to {
                            Some(id) => {
                                let effect = react(id, SEND_FAIL);
                                Step::Do(effect, SendFlow { job, at: SendAt::Regretting { error } })
                            },
                            None => telling(job, error),
                        },
                    }
                },
                _ => Step::End(Ok(())),
            },
            SendAt::Acking { path } => match outcome {
                Outcome::TelegramFailed(e) => Step::End(
                    Err(ActionError::TelegramFailed { sent: true, message: e.message() }),
                ),
                _ => match maybe_delete(job.delete_enabled, path.as_str()) {
                    Some(effect) => Step::Do(
                        effect,
                        SendFlow { job, at: SendAt::Deleting { path } },
                    ),
                    None => Step::End(Ok(())),
                },
            },
            SendAt::Deleting { path: _ } => Step::End(Ok(())),
            SendAt::Regretting { error } => telling(job, error),
            SendAt::Telling { error } => Step::End(Err(ActionError::ModemFailed(error))),
        }
    }
}

// ---------------------------------------------------------------------------
// Laws
// ---------------------------------------------------------------------------

/// A message of the owner that cannot be marked as under way is not sent, and
/// nothing is recorded of it.
pub proof fn law_unmarked_is_not_sent(t: Tables, job: SendJobView, e: AppErrorView, now: Seq<char>)
    requires
        job.reply_to is Some,
    ensures
        send_begun(job) == send_do(job, SendAtView::Marking),
        send_next(
            t,
            SendFlowView { job, at: SendAtView::Marking },
            OutcomeView::TelegramFailed(e),
        ) == StepView::<SendFlowView, Result<(), ActionErrorView>>::End(
            Err(ActionErrorView::TelegramFailed { sent: false, message: e.words() }),
        ),
        send_after(
            t,
            SendFlowView { job, at: SendAtView::Marking },
            OutcomeView::TelegramFailed(e),
            now,
        ) == t,
{
}

/// The modem is asked to send only at the beginning, where there is nothing to
/// mark, or right after the mark: no flow sends twice.
pub proof fn law_sent_at_most_once(
    t: Tables,
    s: SendFlowView,
    o: OutcomeView,
    e164: Seq<char>,
    text: Seq<char>,
)
    requires
        send_next(t, s, o) matches StepView::Do(effect, _) && effect == (EffectView::SendSms {
            e164,
            text,
        }),
    ensures
        s.at is Marking,
        e164 == s.job.e164 && text == s.job.text,
        send_next(t, s, o) == send_do(s.job, SendAtView::Sending),
{
}

/// Once the modem answered, the log holds one message more, with its number,
/// text, thread and result: "ok", or why it failed.
pub proof fn law_every_attempt_is_recorded(
    t: Tables,
    s: SendFlowView,
    o: OutcomeView,
    now: Seq<char>,
)
    requires
        s.at is Sending,
        o is Sent || o is ModemFailed,
        outbound_verdict(t) is Ok,
    ensures
        ({
            let after = send_after(t, s, o, now).outbound;
            &&& after.len() == t.outbound.len() + 1
            &&& after.drop_last() == t.outbound
            &&& after.last().e164 == s.job.e164
            &&& after.last().body == s.job.text
            &&& after.last().thread_id == Some(s.job.thread_id)
            &&& after.last().created_at == now
            &&& after.last().result == match o {
                OutcomeView::ModemFailed(e) => e.words(),
                _ => "ok"@,
            }
        }),
{
    assert(send_after(t, s, o, now).outbound.drop_last() =~= t.outbound);
}

/// A flow ends well only after the modem took the message and the success was
/// shown: what comes after that cannot fail it.
pub proof fn law_success_means_shown(t: Tables, s: SendFlowView, o: OutcomeView)
    requires
        send_awaits(s, o),
    ensures
        send_next(t, s, o) == StepView::<SendFlowView, Result<(), ActionErrorView>>::End(Ok(())) ==> (
        s.at is Acking && o is Done) || s.at is Deleting,
        s.at is Deleting ==> send_next(t, s, o) == StepView::<
            SendFlowView,
            Result<(), ActionErrorView>,
        >::End(Ok(())),
        send_next(t, s, o) matches StepView::Do(_, next) && next.at is Acking ==> s.at is Sending
            && o is Sent,
{
}

/// The modem's copy of a message is deleted only where that is wanted, and only
/// after the success was shown.
pub proof fn law_copy_deleted_only_after_success(
    t: Tables,
    s: SendFlowView,
    o: OutcomeView,
    path: Seq<char>,
)
    requires
        send_awaits(s, o),
        send_next(t, s, o) matches StepView::Do(effect, _) && effect == (EffectView::DeleteSms {
            path,
        }),
    ensures
        s.at == (SendAtView::Acking { path }),
        o is Done,
        s.job.delete_enabled && path.len() > 0,
{
}

} // verus!
