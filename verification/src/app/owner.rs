//! A text that the owner types in a thread.
use vstd::prelude::*;

use crate::actions::{ActionError, ActionErrorView};
use crate::app::effect::{Outcome, Step, StepView};
use crate::app::send::{
    send_after, send_and_ack, send_awaits, send_begun, send_next, send_step_view, SendFlow,
    SendFlowView, SendJob, SendJobView, SendStep, SendStepView,
};
use crate::app::{AppError, AppErrorView};
use crate::db::laws::law_pending_comes_back;
use crate::db::Db;
use crate::route::{plan_kept, plan_outbound, planned, OutboundPlan, OutboundPlanView};
use crate::rows::{res_view, views};
use crate::tables::{pending_in, pending_put, Tables};
use crate::text::{begins, starts_with};

verus! {

#[derive(Debug, PartialEq, Eq)]
pub enum OwnerTextOutcome {
    Done,
    NeedNumber(Vec<String>),
}

pub enum OwnerTextOutcomeView {
    Done,
    NeedNumber(Seq<Seq<char>>),
}

impl View for OwnerTextOutcome {
    type V = OwnerTextOutcomeView;

    open spec fn view(&self) -> OwnerTextOutcomeView {
        match self {
            OwnerTextOutcome::Done => OwnerTextOutcomeView::Done,
            OwnerTextOutcome::NeedNumber(numbers) => OwnerTextOutcomeView::NeedNumber(
                views(numbers@),
            ),
        }
    }
}

pub type OwnerStep = Step<SendFlow, Result<OwnerTextOutcome, AppError>>;

pub type OwnerStepView = StepView<SendFlowView, Result<OwnerTextOutcomeView, AppErrorView>>;

pub open spec fn owner_step_view(s: OwnerStep) -> OwnerStepView {
    match s {
        Step::Do(e, k) => StepView::Do(e@, k@),
        Step::End(r) => StepView::End(res_view(r)),
    }
}

/// The end of a text that was sent: that the modem refused it was told in the
/// thread already.
pub open spec fn owner_end(r: Result<(), ActionErrorView>) -> Result<
    OwnerTextOutcomeView,
    AppErrorView,
> {
    match r {
        Ok(_) => Ok(OwnerTextOutcomeView::Done),
        Err(ActionErrorView::ModemFailed(_)) => Ok(OwnerTextOutcomeView::Done),
        Err(ActionErrorView::Db(e)) => Err(AppErrorView::Db(e)),
        Err(e) => Err(AppErrorView::Telegram(e.words())),
    }
}

pub open spec fn owner_step(s: SendStepView) -> OwnerStepView {
    match s {
        StepView::Do(e, k) => StepView::Do(e, k),
        StepView::End(r) => StepView::End(owner_end(r)),
    }
}

/// How a text typed in a thread begins. A command is no message. Where the
/// number is still to be chosen, the text waits for it.
pub open spec fn owner_begun(
    t: Tables,
    thread_id: i32,
    text: Seq<char>,
    reply_to: Option<i32>,
    delete_enabled: bool,
) -> OwnerStepView {
    if begins(text, "/"@) {
        StepView::End(Ok(OwnerTextOutcomeView::Done))
    } else {
        match planned(t, thread_id) {
            OutboundPlanView::AskWhichNumber { contact_id, numbers } => StepView::End(
                Ok(OwnerTextOutcomeView::NeedNumber(numbers)),
            ),
            OutboundPlanView::Send { e164 } => owner_step(
                send_begun(SendJobView { e164, text, thread_id, reply_to, delete_enabled }),
            ),
            _ => StepView::End(Ok(OwnerTextOutcomeView::Done)),
        }
    }
}

/// What the beginning changes.
pub open spec fn owner_began(
    t: Tables,
    thread_id: i32,
    text: Seq<char>,
    reply_to: Option<i32>,
) -> Tables {
    if begins(text, "/"@) {
        t
    } else {
        match planned(t, thread_id) {
            OutboundPlanView::AskWhichNumber { contact_id, numbers } => pending_put(
                t,
                thread_id,
                Some(text),
                reply_to,
            ),
            _ => plan_kept(t, thread_id),
        }
    }
}

fn as_owner_step(s: SendStep) -> (r: OwnerStep)
    ensures
        owner_step_view(r) == owner_step(send_step_view(s)),
{
    match s {
        Step::Do(e, k) => Step::Do(e, k),
        Step::End(Ok(_)) => Step::End(Ok(OwnerTextOutcome::Done)),
        Step::End(Err(ActionError::ModemFailed(_))) => Step::End(Ok(OwnerTextOutcome::Done)),
        Step::End(Err(ActionError::Db(e))) => Step::End(Err(AppError::Db(e))),
        Step::End(Err(e)) => Step::End(Err(AppError::Telegram(e.message()))),
    }
}

/// Begins to handle a text that the owner typed in a thread. The region of the
/// numbers plays no part: the numbers of topics are in E.164 form already.
pub fn handle_owner_text(
    db: &mut Db,
    _region: &str,
    thread_id: i32,
    text: &str,
    reply_to: Option<i32>,
    delete_enabled: bool,
) -> (r: OwnerStep)
    requires
        old(db)@.wf(),
    ensures
        final(db)@.wf(),
        final(db)@ == owner_began(old(db)@, thread_id, text@, reply_to),
        owner_step_view(r) == owner_begun(old(db)@, thread_id, text@, reply_to, delete_enabled),
{
    if starts_with(text, "/") {
        return Step::End(Ok(OwnerTextOutcome::Done));
    }
    match plan_outbound(db, thread_id) {
        Err(e) => Step::End(Err(AppError::Db(e))),
        Ok(OutboundPlan::NotSms) => Step::End(Ok(OwnerTextOutcome::Done)),
        Ok(OutboundPlan::UnknownTopic) => Step::End(Ok(OwnerTextOutcome::Done)),
        Ok(OutboundPlan::AskWhichNumber { contact_id: _, numbers }) => {
            match db.set_pending_outbound(thread_id, text, reply_to) {
                Err(e) => Step::End(Err(AppError::Db(e))),
                Ok(_) => Step::End(Ok(OwnerTextOutcome::NeedNumber(numbers))),
            }
        },
        Ok(OutboundPlan::Send { e164 }) => as_owner_step(
            send_and_ack(
                SendJob { e164, text: text.to_owned(), thread_id, reply_to, delete_enabled },
            ),
        ),
    }
}

/// Goes on with what came of the last effect.
pub fn owner_text_next(flow: SendFlow, db: &mut Db, outcome: Outcome, now: &str) -> (r: OwnerStep)
    requires
        old(db)@.wf(),
        send_awaits(flow@, outcome@),
    ensures
        final(db)@.wf(),
        final(db)@ == send_after(old(db)@, flow@, outcome@, now@),
        owner_step_view(r) == owner_step(send_next(old(db)@, flow@, outcome@)),
{
    as_owner_step(flow.next(db, outcome, now))
}

/// A text typed where the number is still to be chosen waits there, with the
/// message it came from, and the topic itself stays as it was.
pub proof fn law_text_waits_for_its_number(
    t: Tables,
    thread_id: i32,
    text: Seq<char>,
    reply_to: Option<i32>,
)
    requires
        !begins(text, "/"@),
        planned(t, thread_id) is AskWhichNumber,
    ensures
        pending_in(owner_began(t, thread_id, text, reply_to), thread_id) == Some((text, reply_to)),
        planned(owner_began(t, thread_id, text, reply_to), thread_id) == planned(t, thread_id),
{
    law_pending_comes_back(t, thread_id, text, reply_to, thread_id);
}

/// A command is never sent to anybody, and changes nothing.
pub proof fn law_commands_are_not_sent(
    t: Tables,
    thread_id: i32,
    text: Seq<char>,
    reply_to: Option<i32>,
    delete_enabled: bool,
)
    requires
        begins(text, "/"@),
    ensures
        owner_begun(t, thread_id, text, reply_to, delete_enabled) == StepView::<
            SendFlowView,
            Result<OwnerTextOutcomeView, AppErrorView>,
        >::End(Ok(OwnerTextOutcomeView::Done)),
        owner_began(t, thread_id, text, reply_to) == t,
{
}

} // verus!
