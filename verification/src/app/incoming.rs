//! Receiving a message: where it is shown, and when it counts as received.
use vstd::prelude::*;

use crate::app::effect::{post, Effect, EffectView, Outcome, OutcomeView, Step, StepView};
use crate::app::send::maybe_delete;
use crate::app::sweep::{sms_too_old_at, too_old};
use crate::app::{AppError, AppErrorView};
use crate::clock::Moment;
use crate::db::laws::{law_recorded_is_seen, law_reused_path_is_not_seen};
use crate::db::log::{inbound_after, inbound_row, inbound_verdict};
use crate::db::{Db, DbErrorView, Topic};
use crate::modem::{IncomingSms, IncomingSmsView};
use crate::normalize::{
    normalize_e164, normalized, result_view, NormalizeError, NormalizeErrorView,
};
use crate::route::{
    received_from, route_for_send, route_inbound, routed, InboundDest, InboundDestView,
    GENERAL_THREAD,
};
use crate::rows::res_plain;
use crate::tables::{incoming_marked, sms_seen, topic_fits, topic_put, Tables, TopicView};
use crate::text::{cat, cat3};

verus! {

/// How far a received message is.
#[derive(Debug)]
pub enum IncomingAt {
    /// A topic for the contact is being created.
    Creating { e164: String, contact_id: i64, title: String },
    /// The change of the number is being noted in the topic.
    Noting { e164: String, thread_id: i32 },
    /// The text is being shown; the number could be read.
    Showing { e164: String, thread_id: i32 },
    /// The text is being shown in General; the number could not be read.
    ShowingRaw,
    /// The message is being deleted from the modem.
    Deleting,
}

pub enum IncomingAtView {
    Creating { e164: Seq<char>, contact_id: i64, title: Seq<char> },
    Noting { e164: Seq<char>, thread_id: i32 },
    Showing { e164: Seq<char>, thread_id: i32 },
    ShowingRaw,
    Deleting,
}

impl View for IncomingAt {
    type V = IncomingAtView;

    open spec fn view(&self) -> IncomingAtView {
        match self {
            IncomingAt::Creating { e164, contact_id, title } => IncomingAtView::Creating {
                e164: e164@,
                contact_id: *contact_id,
                title: title@,
            },
            IncomingAt::Noting { e164, thread_id } => IncomingAtView::Noting {
                e164: e164@,
                thread_id: *thread_id,
            },
            IncomingAt::Showing { e164, thread_id } => IncomingAtView::Showing {
                e164: e164@,
                thread_id: *thread_id,
            },
            IncomingAt::ShowingRaw => IncomingAtView::ShowingRaw,
            IncomingAt::Deleting => IncomingAtView::Deleting,
        }
    }
}

#[derive(Debug)]
pub struct IncomingFlow {
    pub sms: IncomingSms,
    pub delete: bool,
    pub at: IncomingAt,
}

pub struct IncomingFlowView {
    pub sms: IncomingSmsView,
    pub delete: bool,
    pub at: IncomingAtView,
}

impl View for IncomingFlow {
    type V = IncomingFlowView;

    open spec fn view(&self) -> IncomingFlowView {
        IncomingFlowView { sms: self.sms@, delete: self.delete, at: self.at@ }
    }
}

pub type IncomingStep = Step<IncomingFlow, Result<(), AppError>>;

pub type IncomingStepView = StepView<IncomingFlowView, Result<(), AppErrorView>>;

pub open spec fn incoming_step_view(s: IncomingStep) -> IncomingStepView {
    match s {
        Step::Do(e, k) => StepView::Do(e@, k@),
        Step::End(r) => StepView::End(res_plain(r)),
    }
}

/// A number and a text below it.
pub open spec fn under(e164: Seq<char>, text: Seq<char>) -> Seq<char> {
    e164 + "\n"@ + text
}

/// The number under which a message is known: the one that was read, or the
/// sender as the modem tells it.
pub open spec fn known_number(
    sms: IncomingSmsView,
    number: Result<Seq<char>, NormalizeErrorView>,
) -> Seq<char> {
    match number {
        Ok(e164) => e164,
        Err(_) => sms.e164,
    }
}

/// The number under which a message is known, in E.164 form if it can be read.
pub open spec fn known_as(sms: IncomingSmsView, region: Seq<char>) -> Seq<char> {
    known_number(sms, normalized(sms.e164, region))
}

/// The record of a message.
pub open spec fn sms_record(
    t: Tables,
    sms: IncomingSmsView,
    e164: Seq<char>,
    thread_id: i32,
    now: Seq<char>,
) -> Tables {
    inbound_after(
        t,
        inbound_row(sms.path, e164, sms.text, None, now, Some(sms.timestamp), Some(thread_id)),
    )
}

pub open spec fn sms_recorded(t: Tables, sms: IncomingSmsView) -> Result<(), DbErrorView> {
    inbound_verdict(
        t,
        inbound_row(sms.path, Seq::empty(), Seq::empty(), None, Seq::empty(), None, None),
    )
}

pub open spec fn incoming_do(
    sms: IncomingSmsView,
    delete: bool,
    at: IncomingAtView,
    effect: EffectView,
) -> IncomingStepView {
    StepView::Do(effect, IncomingFlowView { sms, delete, at })
}

/// A message that is dealt with is deleted from the modem, where that is wanted
/// and it has a path.
pub open spec fn dealt_with(sms: IncomingSmsView, delete: bool) -> IncomingStepView {
    if delete && sms.path.len() > 0 {
        incoming_do(
            sms,
            delete,
            IncomingAtView::Deleting,
            EffectView::DeleteSms { path: sms.path },
        )
    } else {
        StepView::End(Ok(()))
    }
}

/// The end of a message that is recorded without being shown, or after it.
pub open spec fn after_record(t: Tables, sms: IncomingSmsView, delete: bool) -> IncomingStepView {
    match sms_recorded(t, sms) {
        Ok(_) => dealt_with(sms, delete),
        Err(e) => StepView::End(Err(AppErrorView::Db(e))),
    }
}

pub open spec fn showing(
    sms: IncomingSmsView,
    delete: bool,
    e164: Seq<char>,
    thread_id: i32,
    text: Seq<char>,
) -> IncomingStepView {
    incoming_do(
        sms,
        delete,
        IncomingAtView::Showing { e164, thread_id },
        EffectView::Post { thread_id, text },
    )
}

/// How a new message is delivered to where it belongs.
pub open spec fn delivery(
    sms: IncomingSmsView,
    delete: bool,
    e164: Seq<char>,
    dest: InboundDestView,
) -> IncomingStepView {
    match dest {
        InboundDestView::CreateContactTopic { contact_id, title, default_e164 } => incoming_do(
            sms,
            delete,
            IncomingAtView::Creating { e164: default_e164, contact_id, title },
            EffectView::CreateTopic { title },
        ),
        InboundDestView::ExistingTopic { thread_id, note_switch_to } => match note_switch_to {
            Some(switched) => incoming_do(
                sms,
                delete,
                IncomingAtView::Noting { e164, thread_id },
                EffectView::Post { thread_id, text: "now using "@ + switched },
            ),
            None => showing(sms, delete, e164, thread_id, sms.text),
        },
        InboundDestView::General { e164: number } => showing(
            sms,
            delete,
            e164,
            GENERAL_THREAD,
            under(number, sms.text),
        ),
    }
}

/// The thread that a message which is not shown is recorded under.
pub open spec fn quiet_thread(t: Tables, e164: Seq<char>) -> i32 {
    match routed(t, e164, false) {
        InboundDestView::ExistingTopic { thread_id, .. } => thread_id,
        _ => GENERAL_THREAD,
    }
}

/// The message is one that is new and not too old.
pub open spec fn is_news(t: Tables, region: Seq<char>, sms: IncomingSmsView, now: Moment) -> bool {
    &&& sms.inbound
    &&& !sms_seen(t, sms.path, known_as(sms, region), sms.text, sms.timestamp)
    &&& !too_old(sms.timestamp, now.time)
}

/// The message is new but too old to be shown.
pub open spec fn is_stale(t: Tables, region: Seq<char>, sms: IncomingSmsView, now: Moment) -> bool {
    &&& sms.inbound
    &&& !sms_seen(t, sms.path, known_as(sms, region), sms.text, sms.timestamp)
    &&& too_old(sms.timestamp, now.time)
}

/// How a received message begins, given its number and whether it is too old.
/// One that the modem itself sent, or that was seen before, is dealt with; a
/// stale one is only recorded; a new one is shown where it belongs, or in
/// General if its number cannot be read.
pub open spec fn receipt(
    t: Tables,
    sms: IncomingSmsView,
    number: Result<Seq<char>, NormalizeErrorView>,
    old_news: bool,
    delete: bool,
) -> IncomingStepView {
    if !sms.inbound || sms_seen(
        t,
        sms.path,
        known_number(sms, number),
        sms.text,
        sms.timestamp,
    ) {
        dealt_with(sms, delete)
    } else if old_news {
        after_record(t, sms, delete)
    } else {
        match number {
            Ok(e164) => delivery(sms, delete, e164, routed(t, e164, true)),
            Err(_) => incoming_do(
                sms,
                delete,
                IncomingAtView::ShowingRaw,
                EffectView::Post { thread_id: GENERAL_THREAD, text: under(sms.e164, sms.text) },
            ),
        }
    }
}

/// What the beginning changes: a stale message is recorded, and a new one may
/// change the default number of its topic.
pub open spec fn receipt_kept(
    t: Tables,
    sms: IncomingSmsView,
    number: Result<Seq<char>, NormalizeErrorView>,
    old_news: bool,
    now: Seq<char>,
) -> Tables {
    let known = known_number(sms, number);
    if !sms.inbound || sms_seen(t, sms.path, known, sms.text, sms.timestamp) {
        t
    } else if old_news {
        sms_record(t, sms, known, quiet_thread(t, known), now)
    } else {
        match number {
            Ok(e164) => received_from(t, e164),
            Err(_) => t,
        }
    }
}

/// How a received message begins.
pub open spec fn incoming_begun(
    t: Tables,
    region: Seq<char>,
    sms: IncomingSmsView,
    delete: bool,
    now: Moment,
) -> IncomingStepView {
    receipt(t, sms, normalized(sms.e164, region), too_old(sms.timestamp, now.time), delete)
}

/// What the beginning changes.
pub open spec fn incoming_began(
    t: Tables,
    region: Seq<char>,
    sms: IncomingSmsView,
    now: Moment,
) -> Tables {
    receipt_kept(
        t,
        sms,
        normalized(sms.e164, region),
        too_old(sms.timestamp, now.time),
        now.text@,
    )
}

pub open spec fn new_topic(
    thread_id: i32,
    e164: Seq<char>,
    contact_id: i64,
    title: Seq<char>,
) -> TopicView {
    TopicView {
        thread_id,
        contact_id: Some(contact_id),
        default_e164: Some(e164),
        title,
        ignored: false,
    }
}

/// How a received message goes on. Only when its text has been shown does it
/// count as received; when Telegram refuses, it does not and stays in the modem.
pub open spec fn incoming_next(t: Tables, s: IncomingFlowView, o: OutcomeView) -> IncomingStepView {
    match (s.at, o) {
        (IncomingAtView::Deleting, _) => StepView::End(Ok(())),
        (_, OutcomeView::TelegramFailed(e)) => StepView::End(Err(e)),
        (
            IncomingAtView::Creating { e164, contact_id, title },
            OutcomeView::Created(thread_id),
        ) => if topic_fits(t, new_topic(thread_id, e164, contact_id, title)) {
            showing(s.sms, s.delete, e164, thread_id, s.sms.text)
        } else {
            StepView::End(
                Err(AppErrorView::Db(DbErrorView::Sqlite("FOREIGN KEY constraint failed"@))),
            )
        },
        (IncomingAtView::Noting { e164, thread_id }, _) => showing(
            s.sms,
            s.delete,
            e164,
            thread_id,
            s.sms.text,
        ),
        (IncomingAtView::Showing { .. }, _) => after_record(t, s.sms, s.delete),
        (IncomingAtView::ShowingRaw, _) => after_record(t, s.sms, s.delete),
        _ => StepView::End(Ok(())),
    }
}

/// What a step changes: the new topic is stored, and a message that has been
/// shown is recorded.
pub open spec fn incoming_after(
    t: Tables,
    s: IncomingFlowView,
    o: OutcomeView,
    now: Seq<char>,
) -> Tables {
    match (s.at, o) {
        (
            IncomingAtView::Creating { e164, contact_id, title },
            OutcomeView::Created(thread_id),
        ) => if topic_fits(t, new_topic(thread_id, e164, contact_id, title)) {
            topic_put(t, new_topic(thread_id, e164, contact_id, title))
        } else {
            t
        },
        (IncomingAtView::Showing { e164, thread_id }, OutcomeView::Done) => sms_record(
            incoming_marked(t, e164, now),
            s.sms,
            e164,
            thread_id,
            now,
        ),
        (IncomingAtView::ShowingRaw, OutcomeView::Done) => sms_record(
            t,
            s.sms,
            s.sms.e164,
            GENERAL_THREAD,
            now,
        ),
        _ => t,
    }
}

/// The outcome is one that the point of the flow can have.
pub open spec fn incoming_awaits(s: IncomingFlowView, o: OutcomeView) -> bool {
    match s.at {
        IncomingAtView::Creating { .. } => o is Created || o is TelegramFailed,
        IncomingAtView::Deleting => o is Done || o is ModemFailed,
        _ => o is Done || o is TelegramFailed,
    }
}

fn finish(sms: IncomingSms, delete: bool) -> (r: IncomingStep)
    ensures
        incoming_step_view(r) == dealt_with(sms@, delete),
{
    match maybe_delete(delete, sms.path.as_str()) {
        Some(effect) => Step::Do(effect, IncomingFlow { sms, delete, at: IncomingAt::Deleting }),
        None => Step::End(Ok(())),
    }
}

fn show(sms: IncomingSms, delete: bool, e164: String, thread_id: i32, text: String) -> (r:
    IncomingStep)
    ensures
        incoming_step_view(r) == showing(sms@, delete, e164@, thread_id, text@),
{
    Step::Do(
        Effect::Post { thread_id, text },
        IncomingFlow { sms, delete, at: IncomingAt::Showing { e164, thread_id } },
    )
}

fn record(db: &mut Db, sms: IncomingSms, delete: bool, e164: &str, thread_id: i32, now: &str) -> (r:
    IncomingStep)
    requires
        old(db)@.wf(),
    ensures
        final(db)@.wf(),
        final(db)@ == sms_record(old(db)@, sms@, e164@, thread_id, now@),
        incoming_step_view(r) == after_record(old(db)@, sms@, delete),
{
    match db.record_inbound_at(
        sms.path.as_str(),
        e164,
        sms.text.as_str(),
        None,
        sms.timestamp.as_str(),
        thread_id,
        now,
    ) {
        Ok(_) => finish(sms, delete),
        Err(e) => Step::End(Err(AppError::Db(e))),
    }
}

/// Begins to deliver a new message to where its number belongs.
pub fn deliver_incoming(db: &mut Db, sms: IncomingSms, delete: bool, e164: &str) -> (r:
    IncomingStep)
    requires
        old(db)@.wf(),
    ensures
        final(db)@.wf(),
        final(db)@ == received_from(old(db)@, e164@),
        incoming_step_view(r) == delivery(sms@, delete, e164@, routed(old(db)@, e164@, true)),
{
    match route_inbound(db, e164) {
        Ok(InboundDest::CreateContactTopic { contact_id, title, default_e164 }) => {
            let effect = Effect::CreateTopic { title: title.clone() };
            Step::Do(
                effect,
                IncomingFlow {
                    sms,
                    delete,
                    at: IncomingAt::Creating { e164: default_e164, contact_id, title },
                },
            )
        },
        Ok(InboundDest::ExistingTopic { thread_id, note_switch_to }) => match note_switch_to {
            Some(switched) => {
                let effect = post(thread_id, cat("now using ", switched.as_str()).as_str());
                Step::Do(
                    effect,
                    IncomingFlow {
                        sms,
                        delete,
                        at: IncomingAt::Noting { e164: e164.to_owned(), thread_id },
                    },
                )
            },
            None => {
                let text = sms.text.clone();
                show(sms, delete, e164.to_owned(), thread_id, text)
            },
        },
        Ok(InboundDest::General { e164: number }) => {
            let text = cat3(number.as_str(), "\n", sms.text.as_str());
            show(sms, delete, e164.to_owned(), GENERAL_THREAD, text)
        },
        Err(e) => Step::End(Err(AppError::Db(e))),
    }
}

/// Begins to receive a message whose number was read and whose age is known.
pub fn receive(
    db: &mut Db,
    sms: IncomingSms,
    number: Result<String, NormalizeError>,
    old_news: bool,
    delete: bool,
    now: &str,
) -> (r: IncomingStep)
    requires
        old(db)@.wf(),
    ensures
        final(db)@.wf(),
        final(db)@ == receipt_kept(old(db)@, sms@, result_view(number), old_news, now@),
        incoming_step_view(r) == receipt(old(db)@, sms@, result_view(number), old_news, delete),
{
    if !sms.inbound {
        return finish(sms, delete);
    }
    let known = match &number {
        Ok(e164) => e164.clone(),
        Err(_) => sms.e164.clone(),
    };
    let seen = match db.seen_sms(
        sms.path.as_str(),
        known.as_str(),
        sms.text.as_str(),
        sms.timestamp.as_str(),
    ) {
        Ok(seen) => seen,
        Err(e) => {
            return Step::End(Err(AppError::Db(e)));
        },
    };
    if seen {
        return finish(sms, delete);
    }
    if old_news {
        let thread_id = match route_for_send(db, known.as_str()) {
            Ok(InboundDest::ExistingTopic { thread_id, note_switch_to: _ }) => thread_id,
            _ => GENERAL_THREAD,
        };
        return record(db, sms, delete, known.as_str(), thread_id, now);
    }
    match number {
        Ok(e164) => deliver_incoming(db, sms, delete, e164.as_str()),
        Err(_) => {
            let text = cat3(sms.e164.as_str(), "\n", sms.text.as_str());
            Step::Do(
                Effect::Post { thread_id: GENERAL_THREAD, text },
                IncomingFlow { sms, delete, at: IncomingAt::ShowingRaw },
            )
        },
    }
}

/// Begins to receive a message.
pub fn handle_incoming(db: &mut Db, region: &str, sms: IncomingSms, delete: bool, now: &Moment) -> (r:
    IncomingStep)
    requires
        old(db)@.wf(),
    ensures
        final(db)@.wf(),
        final(db)@ == incoming_began(old(db)@, region@, sms@, *now),
        incoming_step_view(r) == incoming_begun(old(db)@, region@, sms@, delete, *now),
{
    let number = normalize_e164(sms.e164.as_str(), region);
    let old_news = sms_too_old_at(sms.timestamp.as_str(), now.time);
    receive(db, sms, number, old_news, delete, now.text.as_str())
}

/// Begins to receive a message that the modem lists. One whose text is not
/// decoded yet is left for later, untouched.
pub fn handle_incoming_then_delete(
    db: &mut Db,
    region: &str,
    sms: IncomingSms,
    delete_enabled: bool,
    now: &Moment,
) -> (r: IncomingStep)
    requires
        old(db)@.wf(),
    ensures
        final(db)@.wf(),
        sms@.inbound && sms@.text.len() == 0 ==> final(db)@ == old(db)@ && incoming_step_view(r)
            == StepView::<IncomingFlowView, Result<(), AppErrorView>>::End(Ok(())),
        !(sms@.inbound && sms@.text.len() == 0) ==> final(db)@ == incoming_began(
            old(db)@,
            region@,
            sms@,
            *now,
        ) && incoming_step_view(r) == incoming_begun(
            old(db)@,
            region@,
            sms@,
            delete_enabled,
            *now,
        ),
{
    if sms.inbound && sms.text.as_str().is_empty() {
        return Step::End(Ok(()));
    }
    handle_incoming(db, region, sms, delete_enabled, now)
}

impl IncomingFlow {
    /// Goes on with what came of the last effect.
    pub fn next(self, db: &mut Db, outcome: Outcome, now: &str) -> (r: IncomingStep)
        requires
            old(db)@.wf(),
            incoming_awaits(self@, outcome@),
        ensures
            final(db)@.wf(),
            final(db)@ == incoming_after(old(db)@, self@, outcome@, now@),
            incoming_step_view(r) == incoming_next(old(db)@, self@, outcome@),
    {
        let IncomingFlow { sms, delete, at } = self;
        match at {
            IncomingAt::Deleting => Step::End(Ok(())),
            IncomingAt::Creating { e164, contact_id, title } => match outcome {
                Outcome::TelegramFailed(e) => Step::End(Err(e)),
                Outcome::Created(thread_id) => {
                    let topic = Topic {
                        thread_id,
                        contact_id: Some(contact_id),
                        default_e164: Some(e164.clone()),
                        title,
                        ignored: false,
                    };
                    match db.upsert_topic(&topic) {
                        Ok(_) => {
                            let text = sms.text.clone();
                            show(sms, delete, e164, thread_id, text)
                        },
                        Err(e) => Step::End(Err(AppError::Db(e))),
                    }
                },
                _ => Step::End(Ok(())),
            },
            IncomingAt::Noting { e164, thread_id } => match outcome {
                Outcome::TelegramFailed(e) => Step::End(Err(e)),
                _ => {
                    let text = sms.text.clone();
                    show(sms, delete, e164, thread_id, text)
                },
            },
            IncomingAt::Showing { e164, thread_id } => match outcome {
                Outcome::TelegramFailed(e) => Step::End(Err(e)),
                _ => {
                    let _ = db.mark_incoming_at(e164.as_str(), now);
                    record(db, sms, delete, e164.as_str(), thread_id, now)
                },
            },
            IncomingAt::ShowingRaw => match outcome {
                Outcome::TelegramFailed(e) => Step::End(Err(e)),
                _ => {
                    let e164 = sms.e164.clone();
                    record(db, sms, delete, e164.as_str(), GENERAL_THREAD, now)
                },
            },
        }
    }
}

// ---------------------------------------------------------------------------
// Laws
// ---------------------------------------------------------------------------

/// The flow is showing the text of its message.
pub open spec fn shows_text(s: IncomingFlowView) -> bool {
    s.at is Showing || s.at is ShowingRaw
}

/// The flow was begun for its message in the region: it goes by the number that
/// the sender reads as, and shows the sender as told where that is no number.
pub open spec fn flow_of(s: IncomingFlowView, region: Seq<char>) -> bool {
    let number = normalized(s.sms.e164, region);
    match s.at {
        IncomingAtView::Creating { e164, .. } => number == Ok::<Seq<char>, NormalizeErrorView>(e164),
        IncomingAtView::Noting { e164, .. } => number == Ok::<Seq<char>, NormalizeErrorView>(e164),
        IncomingAtView::Showing { e164, .. } => number == Ok::<Seq<char>, NormalizeErrorView>(e164),
        IncomingAtView::ShowingRaw => number is Err,
        IncomingAtView::Deleting => true,
    }
}

/// A flow stays with its message and with the number that it began with.
pub proof fn law_flow_keeps_its_message(
    t: Tables,
    region: Seq<char>,
    sms: IncomingSmsView,
    delete: bool,
    now: Moment,
    s: IncomingFlowView,
    o: OutcomeView,
)
    ensures
        incoming_begun(t, region, sms, delete, now) matches StepView::Do(_, begun) ==> begun.sms
            == sms && begun.delete == delete && flow_of(begun, region),
        flow_of(s, region) ==> (incoming_next(t, s, o) matches StepView::Do(_, next) ==> next.sms
            == s.sms && next.delete == s.delete && flow_of(next, region)),
{
}

/// A message is shown once: after its text was shown and recorded, the same
/// message, listed again at any time, is only dealt with. It may come under
/// another path, as long as the modem gave it a time: paths change when the
/// modem comes back.
pub proof fn law_shown_once(
    t: Tables,
    region: Seq<char>,
    s: IncomingFlowView,
    now: Seq<char>,
    path: Seq<char>,
    delete: bool,
    later: Moment,
)
    requires
        shows_text(s),
        flow_of(s, region),
        sms_recorded(t, s.sms) is Ok,
        s.sms.timestamp.len() > 0 || path == s.sms.path,
    ensures
        ({
            let after = incoming_after(t, s, OutcomeView::Done, now);
            let again = IncomingSmsView { path, ..s.sms };
            &&& !is_news(after, region, again, later)
            &&& incoming_begun(after, region, again, delete, later) == dealt_with(again, delete)
            &&& incoming_began(after, region, again, later) == after
        }),
{
    lemma_shown_is_seen(t, region, s, now, path);
}

proof fn lemma_shown_is_seen(
    t: Tables,
    region: Seq<char>,
    s: IncomingFlowView,
    now: Seq<char>,
    path: Seq<char>,
)
    requires
        shows_text(s),
        flow_of(s, region),
        sms_recorded(t, s.sms) is Ok,
        s.sms.timestamp.len() > 0 || path == s.sms.path,
    ensures
        sms_seen(
            incoming_after(t, s, OutcomeView::Done, now),
            path,
            known_as(s.sms, region),
            s.sms.text,
            s.sms.timestamp,
        ),
{
    let (before, thread_id) = match s.at {
        IncomingAtView::Showing { e164, thread_id } => (incoming_marked(t, e164, now), thread_id),
        _ => (t, GENERAL_THREAD),
    };
    let row = inbound_row(
        s.sms.path,
        known_as(s.sms, region),
        s.sms.text,
        None,
        now,
        Some(s.sms.timestamp),
        Some(thread_id),
    );
    law_recorded_is_seen(before, row, path);
}

/// No new message is lost: one that the modem received, that is not too old and
/// whose number, text and time were not recorded is shown, whatever path it
/// comes under. It begins with a topic or a post, and not with its deletion.
pub proof fn law_new_message_is_shown(
    t: Tables,
    region: Seq<char>,
    sms: IncomingSmsView,
    delete: bool,
    now: Moment,
)
    requires
        sms.inbound,
        !too_old(sms.timestamp, now.time),
        forall|i: int|
            0 <= i < t.inbound.len() ==> !((#[trigger] t.inbound[i]).e164 == known_as(sms, region)
                && t.inbound[i].body == sms.text && t.inbound[i].sms_ts == Some(sms.timestamp)),
    ensures
        is_news(t, region, sms, now),
        incoming_begun(t, region, sms, delete, now) matches StepView::Do(effect, s) && (
        effect is Post || effect is CreateTopic) && !(s.at is Deleting),
{
    law_reused_path_is_not_seen(t, sms.path, known_as(sms, region), sms.text, sms.timestamp);
}

/// A stale message is recorded at once, and so it is never shown.
pub proof fn law_stale_is_never_shown(
    t: Tables,
    region: Seq<char>,
    sms: IncomingSmsView,
    delete: bool,
    now: Moment,
    later: Moment,
)
    requires
        is_stale(t, region, sms, now),
        sms_recorded(t, sms) is Ok,
    ensures
        incoming_begun(t, region, sms, delete, now) == dealt_with(sms, delete),
        !is_news(incoming_began(t, region, sms, now), region, sms, later),
{
    let row = inbound_row(
        sms.path,
        known_as(sms, region),
        sms.text,
        None,
        now.text@,
        Some(sms.timestamp),
        Some(quiet_thread(t, known_as(sms, region))),
    );
    law_recorded_is_seen(t, row, sms.path);
}

/// When Telegram refuses, the message is not recorded, the error is handed on
/// and nothing more is done, so that the modem keeps the message.
pub proof fn law_refused_message_is_kept(
    t: Tables,
    s: IncomingFlowView,
    e: AppErrorView,
    now: Seq<char>,
)
    requires
        !(s.at is Deleting),
    ensures
        incoming_next(t, s, OutcomeView::TelegramFailed(e)) == StepView::<
            IncomingFlowView,
            Result<(), AppErrorView>,
        >::End(Err(e)),
        incoming_after(t, s, OutcomeView::TelegramFailed(e), now) == t,
{
}

/// Until its text has been shown a new message stays new: neither the
/// beginning nor the steps before that record it, so that it is tried again.
pub proof fn law_unshown_stays_news(
    t: Tables,
    region: Seq<char>,
    sms: IncomingSmsView,
    now: Moment,
    s: IncomingFlowView,
    o: OutcomeView,
    stamp: Seq<char>,
    later: Moment,
)
    requires
        is_news(t, region, sms, now),
        !shows_text(s) || !(o is Done),
    ensures
        is_news(incoming_began(t, region, sms, now), region, sms, later) == is_news(
            t,
            region,
            sms,
            later,
        ),
        is_news(incoming_after(t, s, o, stamp), region, sms, later) == is_news(
            t,
            region,
            sms,
            later,
        ),
{
}

/// A message is deleted from the modem only where that is wanted, under its own
/// path, and only if the modem itself sent it or it was recorded.
pub proof fn law_deleted_only_when_recorded(
    t: Tables,
    region: Seq<char>,
    sms: IncomingSmsView,
    delete: bool,
    now: Moment,
    path: Seq<char>,
)
    requires
        incoming_begun(t, region, sms, delete, now) matches StepView::Do(effect, _) && effect == (
        EffectView::DeleteSms { path }),
    ensures
        delete && path == sms.path && path.len() > 0,
        sms.inbound ==> sms_seen(
            incoming_began(t, region, sms, now),
            sms.path,
            known_as(sms, region),
            sms.text,
            sms.timestamp,
        ),
{
    if is_stale(t, region, sms, now) {
        law_stale_is_never_shown(t, region, sms, delete, now, now);
        let row = inbound_row(
            sms.path,
            known_as(sms, region),
            sms.text,
            None,
            now.text@,
            Some(sms.timestamp),
            Some(quiet_thread(t, known_as(sms, region))),
        );
        law_recorded_is_seen(t, row, sms.path);
    }
}

/// In the course of a flow, too, the message is deleted only where that is
/// wanted, under its own path, and only once it is recorded.
pub proof fn law_deleted_only_after_showing(
    t: Tables,
    region: Seq<char>,
    s: IncomingFlowView,
    o: OutcomeView,
    now: Seq<char>,
    path: Seq<char>,
)
    requires
        flow_of(s, region),
        incoming_awaits(s, o),
        incoming_next(t, s, o) matches StepView::Do(effect, _) && effect == (EffectView::DeleteSms {
            path,
        }),
    ensures
        shows_text(s) && o is Done,
        s.delete && path == s.sms.path && path.len() > 0,
        sms_seen(
            incoming_after(t, s, o, now),
            s.sms.path,
            known_as(s.sms, region),
            s.sms.text,
            s.sms.timestamp,
        ),
{
    lemma_shown_is_seen(t, region, s, now, s.sms.path);
}

} // verus!
