//! Sending a message to a number or to a contact.
use vstd::prelude::*;

use crate::actions::identity::{
    resolution, resolve, Identity, IdentityView, ResolveMode, Resolved, ResolvedView,
};
use crate::actions::open::{
    not_stored, open_awaits, opening_for_number, opening_of_number, opening_topic, Opening,
    OpeningView,
};
use crate::actions::{ActionError, ActionErrorView};
use crate::app::effect::{Effect, EffectView, Outcome, OutcomeView, Step, StepView};
use crate::app::send::{
    send_after, send_and_ack, send_awaits, send_begun, send_next, send_step_view, SendFlow,
    SendFlowView, SendJob, SendJobView, SendStep, SendStepView,
};
use crate::db::{Db, Topic};
use crate::route::{
    plan_kept, plan_outbound, planned, route_for_send, routed, InboundDest, InboundDestView,
    OutboundPlan, OutboundPlanView,
};
use crate::rows::{res_view, views};
use crate::tables::{is_ignored, topic_fits, Tables};
use crate::text::{trim, trimmed};

verus! {

/// A message that was sent.
#[derive(Debug)]
pub struct SmsSent {
    pub e164: String,
    pub thread_id: i32,
    pub sent: bool,
}

pub struct SmsSentView {
    pub e164: Seq<char>,
    pub thread_id: i32,
    pub sent: bool,
}

impl View for SmsSent {
    type V = SmsSentView;

    open spec fn view(&self) -> SmsSentView {
        SmsSentView { e164: self.e164@, thread_id: self.thread_id, sent: self.sent }
    }
}

/// How far a message is.
#[derive(Debug)]
pub enum SmsFlow {
    /// The topic that it belongs to is being created; its number is known.
    Creating { opening: Opening, job: SendJob },
    /// It is being sent.
    Sending { flow: SendFlow },
}

pub enum SmsFlowView {
    Creating { opening: OpeningView, job: SendJobView },
    Sending { flow: SendFlowView },
}

impl View for SmsFlow {
    type V = SmsFlowView;

    open spec fn view(&self) -> SmsFlowView {
        match self {
            SmsFlow::Creating { opening, job } => SmsFlowView::Creating {
                opening: opening@,
                job: job@,
            },
            SmsFlow::Sending { flow } => SmsFlowView::Sending { flow: flow@ },
        }
    }
}

pub type SmsStep = Step<SmsFlow, Result<SmsSent, ActionError>>;

pub type SmsStepView = StepView<SmsFlowView, Result<SmsSentView, ActionErrorView>>;

pub open spec fn sms_step_view(s: SmsStep) -> SmsStepView {
    match s {
        Step::Do(e, k) => StepView::Do(e@, k@),
        Step::End(r) => StepView::End(res_view(r)),
    }
}

/// A step of sending, as a step of the whole.
pub open spec fn sms_step(job: SendJobView, s: SendStepView) -> SmsStepView {
    match s {
        StepView::Do(e, k) => StepView::Do(e, SmsFlowView::Sending { flow: k }),
        StepView::End(Ok(_)) => StepView::End(
            Ok(SmsSentView { e164: job.e164, thread_id: job.thread_id, sent: true }),
        ),
        StepView::End(Err(e)) => StepView::End(Err(e)),
    }
}

pub open spec fn sms_creating(opening: OpeningView, job: SendJobView) -> SmsStepView {
    StepView::Do(
        EffectView::CreateTopic { title: opening.title },
        SmsFlowView::Creating { opening, job },
    )
}

/// A message to a number goes through the topic of the number. A contact
/// without a topic gets one, and so does a number of nobody; an ignored number
/// gets none, and its message stays in the thread it came from.
pub open spec fn sms_to_number(t: Tables, job: SendJobView) -> SmsStepView {
    match routed(t, job.e164, false) {
        InboundDestView::ExistingTopic { thread_id, .. } => {
            let there = SendJobView { thread_id, ..job };
            sms_step(there, send_begun(there))
        },
        InboundDestView::CreateContactTopic { contact_id, title, default_e164 } => sms_creating(
            OpeningView {
                contact_id: Some(contact_id),
                default_e164: Some(default_e164),
                title,
            },
            job,
        ),
        InboundDestView::General { .. } => if is_ignored(t, job.e164) {
            sms_step(job, send_begun(job))
        } else {
            sms_creating(opening_for_number(job.e164), job)
        },
    }
}

/// A message to a contact goes to the default number of its topic.
pub open spec fn sms_to_topic(t: Tables, thread_id: i32, job: SendJobView) -> SmsStepView {
    match planned(t, thread_id) {
        OutboundPlanView::Send { e164 } => {
            let there = SendJobView { e164, thread_id, ..job };
            sms_step(there, send_begun(there))
        },
        OutboundPlanView::AskWhichNumber { contact_id, numbers } => StepView::End(
            Err(ActionErrorView::NeedDefaultNumber { numbers }),
        ),
        OutboundPlanView::UnknownTopic => StepView::End(
            Err(ActionErrorView::NeedDefaultNumber { numbers: Seq::empty() }),
        ),
        OutboundPlanView::NotSms => StepView::End(
            Err(ActionErrorView::NotFound("unknown topic"@)),
        ),
    }
}

/// How sending to whom the fields mean begins.
pub open spec fn sms_for(t: Tables, r: ResolvedView, job: SendJobView) -> SmsStepView {
    match r.e164 {
        Some(e164) => sms_to_number(t, SendJobView { e164, ..job }),
        None => match r.topic {
            Some(topic) => sms_to_topic(t, topic.thread_id, job),
            None => StepView::End(Err(ActionErrorView::NotFound("unknown topic"@))),
        },
    }
}

/// What the beginning changes: the only number of a contact becomes the default
/// one when it is written to.
pub open spec fn sms_kept(t: Tables, r: ResolvedView) -> Tables {
    match (r.e164, r.topic) {
        (None, Some(topic)) => plan_kept(t, topic.thread_id),
        _ => t,
    }
}

/// How sending begins.
pub open spec fn sms_begun(
    t: Tables,
    region: Seq<char>,
    id: IdentityView,
    text: Seq<char>,
    reply_thread: i32,
    reply_to: Option<i32>,
    delete_enabled: bool,
) -> SmsStepView {
    if trimmed(text).len() == 0 {
        StepView::End(Err(ActionErrorView::Validation("text is required"@)))
    } else {
        match resolution(t, region, id, ResolveMode::AllowBareNumber) {
            Err(e) => StepView::End(Err(e)),
            Ok(r) => sms_for(
                t,
                r,
                SendJobView {
                    e164: Seq::empty(),
                    text: trimmed(text),
                    thread_id: reply_thread,
                    reply_to,
                    delete_enabled,
                },
            ),
        }
    }
}

pub open spec fn sms_began(t: Tables, region: Seq<char>, id: IdentityView, text: Seq<char>) -> Tables {
    if trimmed(text).len() == 0 {
        t
    } else {
        match resolution(t, region, id, ResolveMode::AllowBareNumber) {
            Err(_) => t,
            Ok(r) => sms_kept(t, r),
        }
    }
}

/// How sending goes on.
pub open spec fn sms_next(t: Tables, s: SmsFlowView, o: OutcomeView) -> SmsStepView {
    match s {
        SmsFlowView::Sending { flow } => sms_step(flow.job, send_next(t, flow, o)),
        SmsFlowView::Creating { opening, job } => match o {
            OutcomeView::Created(thread_id) => if topic_fits(
                t,
                opening_topic(opening, thread_id),
            ) {
                let there = SendJobView { thread_id, ..job };
                sms_step(there, send_begun(there))
            } else {
                StepView::End(Err(not_stored()))
            },
            OutcomeView::TelegramFailed(e) => StepView::End(
                Err(ActionErrorView::TelegramFailed { sent: false, message: e.words() }),
            ),
            _ => StepView::End(Err(ActionErrorView::MissingIdentity)),
        },
    }
}

/// What a step changes.
pub open spec fn sms_after(t: Tables, s: SmsFlowView, o: OutcomeView, now: Seq<char>) -> Tables {
    match s {
        SmsFlowView::Sending { flow } => send_after(t, flow, o, now),
        SmsFlowView::Creating { opening, job } => crate::actions::open::open_after(t, opening, o),
    }
}

pub open spec fn sms_awaits(s: SmsFlowView, o: OutcomeView) -> bool {
    match s {
        SmsFlowView::Sending { flow } => send_awaits(flow, o),
        SmsFlowView::Creating { .. } => open_awaits(o),
    }
}

fn as_sms_step(e164: String, thread_id: i32, s: SendStep) -> (r: SmsStep)
    ensures
        forall|job: SendJobView|
            job.e164 == e164@ && job.thread_id == thread_id ==> sms_step_view(r)
                == #[trigger] sms_step(job, send_step_view(s)),
{
    match s {
        Step::Do(e, k) => Step::Do(e, SmsFlow::Sending { flow: k }),
        Step::End(Ok(_)) => Step::End(Ok(SmsSent { e164, thread_id, sent: true })),
        Step::End(Err(e)) => Step::End(Err(e)),
    }
}

fn begin(job: SendJob) -> (r: SmsStep)
    ensures
        sms_step_view(r) == sms_step(job@, send_begun(job@)),
{
    let e164 = job.e164.clone();
    let thread_id = job.thread_id;
    as_sms_step(e164, thread_id, send_and_ack(job))
}

fn create(opening: Opening, job: SendJob) -> (r: SmsStep)
    ensures
        sms_step_view(r) == sms_creating(opening@, job@),
{
    let effect = Effect::CreateTopic { title: opening.title.clone() };
    Step::Do(effect, SmsFlow::Creating { opening, job })
}

fn to_number(db: &Db, job: SendJob) -> (r: SmsStep)
    ensures
        sms_step_view(r) == sms_to_number(db@, job@),
{
    match route_for_send(db, job.e164.as_str()) {
        Err(e) => Step::End(Err(ActionError::Db(e))),
        Ok(InboundDest::ExistingTopic { thread_id, note_switch_to: _ }) => begin(
            SendJob {
                e164: job.e164,
                text: job.text,
                thread_id,
                reply_to: job.reply_to,
                delete_enabled: job.delete_enabled,
            },
        ),
        Ok(InboundDest::CreateContactTopic { contact_id, title, default_e164 }) => create(
            Opening { contact_id: Some(contact_id), default_e164: Some(default_e164), title },
            job,
        ),
        Ok(InboundDest::General { e164: _ }) => match db.is_ignored(job.e164.as_str()) {
            Err(e) => Step::End(Err(ActionError::Db(e))),
            Ok(true) => begin(job),
            Ok(false) => create(opening_of_number(job.e164.clone()), job),
        },
    }
}

fn to_topic(db: &mut Db, thread_id: i32, job: SendJob) -> (r: SmsStep)
    requires
        old(db)@.wf(),
    ensures
        final(db)@.wf(),
        final(db)@ == plan_kept(old(db)@, thread_id),
        sms_step_view(r) == sms_to_topic(old(db)@, thread_id, job@),
{
    match plan_outbound(db, thread_id) {
        Err(e) => Step::End(Err(ActionError::Db(e))),
        Ok(OutboundPlan::Send { e164 }) => begin(
            SendJob {
                e164,
                text: job.text,
                thread_id,
                reply_to: job.reply_to,
                delete_enabled: job.delete_enabled,
            },
        ),
        Ok(OutboundPlan::AskWhichNumber { contact_id: _, numbers }) => Step::End(
            Err(ActionError::NeedDefaultNumber { numbers }),
        ),
        Ok(OutboundPlan::UnknownTopic) => {
            let numbers: Vec<String> = Vec::new();
            assert(views(numbers@) =~= Seq::empty());
            Step::End(Err(ActionError::NeedDefaultNumber { numbers }))
        },
        Ok(OutboundPlan::NotSms) => Step::End(
            Err(ActionError::NotFound("unknown topic".to_owned())),
        ),
    }
}

/// Begins to send to whom the fields were found to mean. The number of the job
/// plays no part.
pub fn send_resolved(db: &mut Db, resolved: Resolved, job: SendJob) -> (r: SmsStep)
    requires
        old(db)@.wf(),
    ensures
        final(db)@.wf(),
        final(db)@ == sms_kept(old(db)@, resolved@),
        sms_step_view(r) == sms_for(old(db)@, resolved@, job@),
{
    match resolved.e164 {
        Some(e164) => to_number(
            db,
            SendJob {
                e164,
                text: job.text,
                thread_id: job.thread_id,
                reply_to: job.reply_to,
                delete_enabled: job.delete_enabled,
            },
        ),
        None => match &resolved.topic {
            Some(topic) => to_topic(db, topic.thread_id, job),
            None => Step::End(Err(ActionError::NotFound("unknown topic".to_owned()))),
        },
    }
}

/// Begins to send a message to a number, or to the default number of a contact.
pub fn send_sms(
    db: &mut Db,
    region: &str,
    id: &Identity,
    text: &str,
    reply_thread: i32,
    reply_to: Option<i32>,
    delete_enabled: bool,
) -> (r: SmsStep)
    requires
        old(db)@.wf(),
    ensures
        final(db)@.wf(),
        final(db)@ == sms_began(old(db)@, region@, id@, text@),
        sms_step_view(r) == sms_begun(
            old(db)@,
            region@,
            id@,
            text@,
            reply_thread,
            reply_to,
            delete_enabled,
        ),
{
    let text = trim(text);
    if text.as_str().is_empty() {
        return Step::End(Err(ActionError::Validation("text is required".to_owned())));
    }
    match resolve(db, region, id, ResolveMode::AllowBareNumber) {
        Err(e) => Step::End(Err(e)),
        Ok(resolved) => {
            let e164 = String::new();
            assert(e164@ =~= Seq::empty());
            send_resolved(
                db,
                resolved,
                SendJob { e164, text, thread_id: reply_thread, reply_to, delete_enabled },
            )
        },
    }
}

impl SmsFlow {
    /// Goes on with what came of the last effect.
    pub fn next(self, db: &mut Db, outcome: Outcome, now: &str) -> (r: SmsStep)
        requires
            old(db)@.wf(),
            sms_awaits(self@, outcome@),
        ensures
            final(db)@.wf(),
            final(db)@ == sms_after(old(db)@, self@, outcome@, now@),
            sms_step_view(r) == sms_next(old(db)@, self@, outcome@),
    {
        match self {
            SmsFlow::Sending { flow } => {
                let e164 = flow.job.e164.clone();
                let thread_id = flow.job.thread_id;
                as_sms_step(e164, thread_id, flow.next(db, outcome, now))
            },
            SmsFlow::Creating { opening, job } => match outcome {
                Outcome::TelegramFailed(e) => Step::End(
                    Err(ActionError::TelegramFailed { sent: false, message: e.message() }),
                ),
                Outcome::Created(thread_id) => {
                    let topic = Topic {
                        thread_id,
                        contact_id: opening.contact_id,
                        default_e164: opening.default_e164,
                        title: opening.title,
                        ignored: false,
                    };
                    match db.upsert_topic(&topic) {
                        Err(e) => Step::End(Err(ActionError::Db(e))),
                        Ok(_) => begin(
                            SendJob {
                                e164: job.e164,
                                text: job.text,
                                thread_id,
                                reply_to: job.reply_to,
                                delete_enabled: job.delete_enabled,
                            },
                        ),
                    }
                },
                _ => Step::End(Err(ActionError::MissingIdentity)),
            },
        }
    }
}

} // verus!
