//! What the bot does about a command, a text or a button.
use vstd::prelude::*;

use crate::actions::forward::{
    forward_answer, forward_outcome, forward_wish, put_call_forward, ForwardRequest,
    ForwardRequestView,
};
use crate::actions::identity::{Identity, IdentityView};
use crate::actions::numbers::{
    chose, choosing, ignore, ignore_step_view, ignored_after, ignoring, list_numbers,
    numbers_result, set_default_number, told, who, who_result, IgnoreStep, IgnoreStepView,
    NumberState, NumberStateView, Told, WhoView,
};
use crate::actions::open::{
    open_after, open_awaits, open_begun, open_next, open_step_view, open_topic, OpenStep,
    OpenStepView, Opening, OpeningView,
};
use crate::actions::search::{search_contacts, search_result};
use crate::actions::sms::{
    send_sms, sms_after, sms_awaits, sms_began, sms_begun, sms_next, sms_step_view, SmsFlow,
    SmsFlowView, SmsStep, SmsStepView,
};
use crate::actions::{ActionError, ActionErrorView};
use crate::app::effect::{post, Effect, EffectView, Outcome, OutcomeView, Step, StepView};
use crate::app::owner::{
    handle_owner_text, owner_began, owner_begun, owner_step, owner_step_view, owner_text_next,
    OwnerStep, OwnerStepView,
};
use crate::app::send::{
    send_after, send_awaits, send_begun, send_next, SendFlow, SendFlowView, SendJobView,
};
use crate::app::{AppError, AppErrorView};
use crate::call_forward::{CallForwardState, CallForwardStateView};
use crate::db::laws::{
    law_default_comes_back, law_dialogue_comes_back, law_pending_comes_back,
};
use crate::db::{clone_opt, Contact, Db, Topic};
use crate::modem::{ModemError, ModemErrorView};
use crate::route::{planned, OutboundPlanView, GENERAL_THREAD};
use crate::rows::{opt_view, res_plain, res_view, res_views, views};
use crate::tables::{
    contact_by_id, forward_dropped, forward_in, forward_put, pending_in, pending_put,
    topic_by_thread, ContactView, PendingForward, PendingForwardMode, Tables, TopicView,
};
use crate::telegram::keyboards::{forward_number_keyboard, number_row, Keyboard};
use crate::telegram::parse::{
    cf_callback, cmd_name, dm_hint, dm_words, format_who, help_text, ignore_reply, num_callback,
    open_callback, open_cmd, open_message, parse_cf_callback, parse_cmd_name, parse_ignore_reply,
    parse_num_callback, parse_open_callback, parse_open_cmd, parse_search_query, parse_sms_cmd,
    parse_status_refresh, sms_cmd, topic_open_message, who_text, CfAction, CfActionView, HELP,
};
use crate::text::{begins, cat, starts_with, str_eq};

verus! {

// ---------------------------------------------------------------------------
// Saying something
// ---------------------------------------------------------------------------

/// Something is being said in a thread; what is left is the answer.
#[derive(Debug)]
pub struct Saying<R> {
    pub answer: R,
}

pub type SayStep<R> = Step<Saying<R>, Result<R, AppError>>;

pub type SayStepView<R> = StepView<R, Result<R, AppErrorView>>;

/// The answer, or that it could not be said.
pub open spec fn said<R>(answer: R, o: OutcomeView) -> SayStepView<R> {
    match o {
        OutcomeView::TelegramFailed(e) => StepView::End(Err(e)),
        _ => StepView::End(Ok(answer)),
    }
}

/// Says something and ends with nothing more.
pub open spec fn say(thread_id: i32, text: Seq<char>) -> SayStepView<()> {
    StepView::Do(EffectView::Post { thread_id, text }, ())
}

pub open spec fn unit_view(s: SayStep<()>) -> SayStepView<()> {
    match s {
        Step::Do(e, k) => StepView::Do(e@, k.answer),
        Step::End(r) => StepView::End(res_plain(r)),
    }
}

pub open spec fn texts_view(s: SayStep<Vec<String>>) -> SayStepView<Seq<Seq<char>>> {
    match s {
        Step::Do(e, k) => StepView::Do(e@, views(k.answer@)),
        Step::End(r) => StepView::End(res_views(r)),
    }
}

pub open spec fn contacts_view(s: SayStep<Vec<Contact>>) -> SayStepView<Seq<ContactView>> {
    match s {
        Step::Do(e, k) => StepView::Do(e@, views(k.answer@)),
        Step::End(r) => StepView::End(res_views(r)),
    }
}

impl<R> Saying<R> {
    /// Ends with what came of saying it.
    pub fn next(self, outcome: Outcome) -> (r: SayStep<R>)
        ensures
            r == match outcome {
                Outcome::TelegramFailed(e) => SayStep::<R>::End(Err(e)),
                _ => SayStep::<R>::End(Ok(self.answer)),
            },
    {
        match outcome {
            Outcome::TelegramFailed(e) => Step::End(Err(e)),
            _ => Step::End(Ok(self.answer)),
        }
    }
}

fn saying(thread_id: i32, text: &str) -> (r: SayStep<()>)
    ensures
        unit_view(r) == say(thread_id, text@),
{
    Step::Do(post(thread_id, text), Saying { answer: () })
}

/// An error of an action as one of the bot.
pub open spec fn bot_error(e: ActionErrorView) -> AppErrorView {
    match e {
        ActionErrorView::Db(e) => AppErrorView::Db(e),
        _ => AppErrorView::Telegram(e.words()),
    }
}

fn to_app_error(e: ActionError) -> (r: AppError)
    ensures
        r@ == bot_error(e@),
{
    match e {
        ActionError::Db(e) => AppError::Db(e),
        e => AppError::Telegram(e.message()),
    }
}

/// Says how to use the forum.
pub fn handle_help(thread_id: i32) -> (r: SayStep<()>)
    ensures
        unit_view(r) == say(thread_id, HELP@),
{
    saying(thread_id, help_text())
}

// ---------------------------------------------------------------------------
// Who
// ---------------------------------------------------------------------------

pub open spec fn topic_identity(topic: TopicView, thread_id: i32) -> IdentityView {
    IdentityView {
        number: topic.default_e164,
        contact_id: topic.contact_id,
        thread_id: Some(thread_id),
    }
}

/// The words for whom a topic writes to.
pub open spec fn who_words(w: WhoView) -> Seq<char> {
    let topic = TopicView {
        thread_id: w.thread_id,
        contact_id: w.contact_id,
        default_e164: w.default_e164,
        title: w.display_name,
        ignored: false,
    };
    let text = who_text(topic, Some(w.display_name), w.numbers);
    if w.ambiguous {
        text + "\n(also on another contact)"@
    } else {
        text
    }
}

/// What is said about a thread.
pub open spec fn who_said(t: Tables, region: Seq<char>, thread_id: i32) -> SayStepView<()> {
    if thread_id == GENERAL_THREAD {
        say(thread_id, "this is General"@)
    } else {
        match topic_by_thread(t, thread_id) {
            None => say(thread_id, "unknown topic"@),
            Some(topic) => if topic.contact_id is None && topic.default_e164 is None {
                say(thread_id, "unknown topic"@)
            } else {
                match who_result(t, region, topic_identity(topic, thread_id)) {
                    Ok(w) => say(thread_id, who_words(w)),
                    Err(ActionErrorView::NotFound(_)) => say(thread_id, "unknown topic"@),
                    Err(e) => StepView::End(Err(bot_error(e))),
                }
            },
        }
    }
}

fn identity_of(topic: &Topic, thread_id: i32) -> (r: Identity)
    ensures
        r@ == topic_identity(topic@, thread_id),
{
    Identity {
        number: clone_opt(&topic.default_e164),
        contact_id: topic.contact_id,
        thread_id: Some(thread_id),
    }
}

/// Says whom a thread writes to.
pub fn handle_who(db: &Db, region: &str, thread_id: i32) -> (r: SayStep<()>)
    ensures
        unit_view(r) == who_said(db@, region@, thread_id),
{
    if thread_id == GENERAL_THREAD {
        return saying(thread_id, "this is General");
    }
    let topic = match db.get_topic_by_thread(thread_id) {
        Err(e) => {
            return Step::End(Err(AppError::Db(e)));
        },
        Ok(None) => {
            return saying(thread_id, "unknown topic");
        },
        Ok(Some(topic)) => topic,
    };
    if topic.contact_id.is_none() && topic.default_e164.is_none() {
        return saying(thread_id, "unknown topic");
    }
    match who(db, region, &identity_of(&topic, thread_id)) {
        Ok(w) => {
            let name = w.display_name.clone();
            let topic = Topic {
                thread_id: w.thread_id,
                contact_id: w.contact_id,
                default_e164: w.default_e164,
                title: w.display_name,
                ignored: false,
            };
            let text = format_who(&topic, Some(name.as_str()), w.numbers.as_slice());
            if w.ambiguous {
                saying(thread_id, cat(text.as_str(), "\n(also on another contact)").as_str())
            } else {
                saying(thread_id, text.as_str())
            }
        },
        Err(ActionError::NotFound(_)) => saying(thread_id, "unknown topic"),
        Err(e) => Step::End(Err(to_app_error(e))),
    }
}

// ---------------------------------------------------------------------------
// Numbers
// ---------------------------------------------------------------------------

/// The numbers that buttons are shown for.
pub open spec fn numbers_offered(t: Tables, region: Seq<char>, thread_id: i32) -> Result<
    Seq<Seq<char>>,
    AppErrorView,
> {
    match topic_by_thread(t, thread_id) {
        None => Ok(Seq::empty()),
        Some(topic) => match numbers_result(t, region, topic_identity(topic, thread_id)) {
            Ok(state) => Ok(state.numbers),
            Err(ActionErrorView::NotFound(_)) => Ok(Seq::empty()),
            Err(e) => Err(bot_error(e)),
        },
    }
}

/// The numbers, or the word that there are none.
pub open spec fn numbers_said(t: Tables, region: Seq<char>, thread_id: i32) -> SayStepView<
    Seq<Seq<char>>,
> {
    match numbers_offered(t, region, thread_id) {
        Err(e) => StepView::End(Err(e)),
        Ok(numbers) => if numbers.len() == 0 {
            StepView::Do(EffectView::Post { thread_id, text: "no numbers"@ }, numbers)
        } else {
            StepView::End(Ok(numbers))
        },
    }
}

fn offer_numbers(db: &Db, region: &str, thread_id: i32) -> (r: Result<Vec<String>, AppError>)
    ensures
        res_views(r) == numbers_offered(db@, region@, thread_id),
{
    let none: Vec<String> = Vec::new();
    assert(views(none@) =~= Seq::empty());
    match db.get_topic_by_thread(thread_id) {
        Err(e) => Err(AppError::Db(e)),
        Ok(None) => Ok(none),
        Ok(Some(topic)) => match list_numbers(db, region, &identity_of(&topic, thread_id)) {
            Ok(state) => Ok(state.numbers),
            Err(ActionError::NotFound(_)) => Ok(none),
            Err(e) => Err(to_app_error(e)),
        },
    }
}

/// Finds the numbers that buttons are shown for, and says if there are none.
pub fn handle_number_empty_or_list(db: &Db, region: &str, thread_id: i32) -> (r: SayStep<
    Vec<String>,
>)
    ensures
        texts_view(r) == numbers_said(db@, region@, thread_id),
{
    match offer_numbers(db, region, thread_id) {
        Err(e) => Step::End(Err(e)),
        Ok(numbers) => if numbers.len() == 0 {
            Step::Do(post(thread_id, "no numbers"), Saying { answer: numbers })
        } else {
            Step::End(Ok(numbers))
        },
    }
}

/// A number was chosen with a button.
#[derive(Debug)]
pub enum NumFlow {
    /// The choice is being told.
    Telling { told: Told<NumberState>, thread_id: i32, delete_enabled: bool, can_send: bool },
    /// The text that waited for it is being sent.
    Sending { flow: SendFlow },
}

pub enum NumFlowView {
    Telling { told: NumberStateView, thread_id: i32, delete_enabled: bool, can_send: bool },
    Sending { flow: SendFlowView },
}

impl View for NumFlow {
    type V = NumFlowView;

    open spec fn view(&self) -> NumFlowView {
        match self {
            NumFlow::Telling { told, thread_id, delete_enabled, can_send } => NumFlowView::Telling {
                told: told.answer@,
                thread_id: *thread_id,
                delete_enabled: *delete_enabled,
                can_send: *can_send,
            },
            NumFlow::Sending { flow } => NumFlowView::Sending { flow: flow@ },
        }
    }
}

pub type NumStep = Step<NumFlow, Result<(), AppError>>;

pub type NumStepView = StepView<NumFlowView, Result<(), AppErrorView>>;

pub open spec fn num_step_view(s: NumStep) -> NumStepView {
    match s {
        Step::Do(e, k) => StepView::Do(e@, k@),
        Step::End(r) => StepView::End(res_plain(r)),
    }
}

pub open spec fn thread_identity(topic: TopicView, thread_id: i32) -> IdentityView {
    IdentityView { number: None, contact_id: topic.contact_id, thread_id: Some(thread_id) }
}

/// How a chosen number begins: it becomes the default of the topic, if there
/// is one.
pub open spec fn num_begun(
    t: Tables,
    region: Seq<char>,
    thread_id: i32,
    e164: Seq<char>,
    can_send: bool,
    delete_enabled: bool,
) -> NumStepView {
    match topic_by_thread(t, thread_id) {
        None => StepView::End(Ok(())),
        Some(topic) => match choosing(t, region, thread_identity(topic, thread_id), e164) {
            StepView::Do(e, state) => StepView::Do(
                e,
                NumFlowView::Telling { told: state, thread_id, delete_enabled, can_send },
            ),
            StepView::End(Ok(_)) => StepView::End(Ok(())),
            StepView::End(Err(e)) => StepView::End(Err(bot_error(e))),
        },
    }
}

pub open spec fn num_began(t: Tables, region: Seq<char>, thread_id: i32, e164: Seq<char>) -> Tables {
    match topic_by_thread(t, thread_id) {
        None => t,
        Some(topic) => chose(t, region, thread_identity(topic, thread_id), e164),
    }
}

/// A step of sending a text that waited.
pub open spec fn num_step(s: OwnerStepView) -> NumStepView {
    match s {
        StepView::Do(e, flow) => StepView::Do(e, NumFlowView::Sending { flow }),
        StepView::End(Ok(_)) => StepView::End(Ok(())),
        StepView::End(Err(e)) => StepView::End(Err(e)),
    }
}

/// How it goes on: once the choice is told, the text that waited is sent.
pub open spec fn num_next(t: Tables, s: NumFlowView, o: OutcomeView) -> NumStepView {
    match s {
        NumFlowView::Sending { flow } => num_step(owner_step(send_next(t, flow, o))),
        NumFlowView::Telling { told: state, thread_id, delete_enabled, can_send } => match told(
            state,
            o,
        ) {
            Err(e) => StepView::End(Err(bot_error(e))),
            Ok(_) => match pending_in(t, thread_id) {
                Some((text, reply_to)) => if can_send {
                    num_step(
                        owner_begun(
                            pending_put(t, thread_id, None, None),
                            thread_id,
                            text,
                            reply_to,
                            delete_enabled,
                        ),
                    )
                } else {
                    StepView::End(Ok(()))
                },
                None => StepView::End(Ok(())),
            },
        },
    }
}

/// What a step changes: the text that waited does not wait any more.
pub open spec fn num_after(t: Tables, s: NumFlowView, o: OutcomeView, now: Seq<char>) -> Tables {
    match s {
        NumFlowView::Sending { flow } => send_after(t, flow, o, now),
        NumFlowView::Telling { thread_id, can_send, .. } => if o is TelegramFailed {
            t
        } else {
            let taken = pending_put(t, thread_id, None, None);
            match pending_in(t, thread_id) {
                Some((text, reply_to)) => if can_send {
                    owner_began(taken, thread_id, text, reply_to)
                } else {
                    taken
                },
                None => taken,
            }
        },
    }
}

pub open spec fn num_awaits(s: NumFlowView, o: OutcomeView) -> bool {
    match s {
        NumFlowView::Sending { flow } => send_awaits(flow, o),
        NumFlowView::Telling { .. } => o is Done || o is TelegramFailed,
    }
}

fn as_num_step(s: OwnerStep) -> (r: NumStep)
    ensures
        num_step_view(r) == num_step(owner_step_view(s)),
{
    match s {
        Step::Do(e, flow) => Step::Do(e, NumFlow::Sending { flow }),
        Step::End(Ok(_)) => Step::End(Ok(())),
        Step::End(Err(e)) => Step::End(Err(e)),
    }
}

/// Begins with a number that was chosen with a button. Without a modem the text
/// that waits is taken but not sent.
pub fn handle_num_callback(
    db: &mut Db,
    region: &str,
    thread_id: i32,
    e164: &str,
    can_send: bool,
    delete_enabled: bool,
) -> (r: NumStep)
    requires
        old(db)@.wf(),
    ensures
        final(db)@.wf(),
        final(db)@ == num_began(old(db)@, region@, thread_id, e164@),
        num_step_view(r) == num_begun(
            old(db)@,
            region@,
            thread_id,
            e164@,
            can_send,
            delete_enabled,
        ),
{
    let topic = match db.get_topic_by_thread(thread_id) {
        Err(e) => {
            return Step::End(Err(AppError::Db(e)));
        },
        Ok(None) => {
            return Step::End(Ok(()));
        },
        Ok(Some(topic)) => topic,
    };
    let identity = Identity {
        number: None,
        contact_id: topic.contact_id,
        thread_id: Some(thread_id),
    };
    match set_default_number(db, region, &identity, e164) {
        Step::Do(e, told) => Step::Do(
            e,
            NumFlow::Telling { told, thread_id, delete_enabled, can_send },
        ),
        Step::End(Ok(_)) => Step::End(Ok(())),
        Step::End(Err(e)) => Step::End(Err(to_app_error(e))),
    }
}

impl NumFlow {
    /// Goes on with what came of the last effect.
    pub fn next(self, db: &mut Db, outcome: Outcome, now: &str) -> (r: NumStep)
        requires
            old(db)@.wf(),
            num_awaits(self@, outcome@),
        ensures
            final(db)@.wf(),
            final(db)@ == num_after(old(db)@, self@, outcome@, now@),
            num_step_view(r) == num_next(old(db)@, self@, outcome@),
    {
        match self {
            NumFlow::Sending { flow } => as_num_step(owner_text_next(flow, db, outcome, now)),
            NumFlow::Telling { told: _, thread_id, delete_enabled, can_send } => {
                if let Outcome::TelegramFailed(e) = outcome {
                    return Step::End(Err(AppError::Telegram(e.message())));
                }
                match db.take_pending_outbound(thread_id) {
                    Err(e) => Step::End(Err(AppError::Db(e))),
                    Ok(None) => Step::End(Ok(())),
                    Ok(Some((text, reply_to))) => {
                        if can_send {
                            as_num_step(
                                handle_owner_text(
                                    db,
                                    "",
                                    thread_id,
                                    text.as_str(),
                                    reply_to,
                                    delete_enabled,
                                ),
                            )
                        } else {
                            Step::End(Ok(()))
                        }
                    },
                }
            },
        }
    }
}

/// Once the choice of a number is told, the text that waited for it is sent to
/// the number that the topic now writes to, and it waits no more.
pub proof fn law_waiting_text_is_sent(
    t: Tables,
    state: NumberStateView,
    thread_id: i32,
    delete_enabled: bool,
    text: Seq<char>,
    reply_to: Option<i32>,
    e164: Seq<char>,
    now: Seq<char>,
)
    requires
        pending_in(t, thread_id) == Some((text, reply_to)),
        !begins(text, "/"@),
        planned(t, thread_id) == (OutboundPlanView::Send { e164 }),
    ensures
        ({
            let s = NumFlowView::Telling {
                told: state,
                thread_id,
                delete_enabled,
                can_send: true,
            };
            let job = SendJobView { e164, text, thread_id, reply_to, delete_enabled };
            &&& num_next(t, s, OutcomeView::Done) == num_step(owner_step(send_begun(job)))
            &&& pending_in(num_after(t, s, OutcomeView::Done, now), thread_id) is None
        }),
{
    let taken = pending_put(t, thread_id, None, None);
    law_pending_comes_back(t, thread_id, text, reply_to, thread_id);
    law_default_comes_back(taken, thread_id, e164, thread_id);
}

// ---------------------------------------------------------------------------
// Searching and opening
// ---------------------------------------------------------------------------

pub open spec fn say_nothing_found(thread_id: i32, text: Seq<char>) -> SayStepView<Seq<ContactView>> {
    StepView::Do(EffectView::Post { thread_id, text }, Seq::empty())
}

/// The contacts that buttons are shown for, or the word why there are none.
pub open spec fn search_said(t: Tables, thread_id: i32, query: Seq<char>) -> SayStepView<
    Seq<ContactView>,
> {
    if query.len() == 0 {
        say_nothing_found(thread_id, "usage: /search <query>"@)
    } else {
        match search_result(t, query) {
            Ok(hits) => if hits.len() == 0 {
                say_nothing_found(thread_id, "no matches"@)
            } else {
                StepView::End(Ok(hits))
            },
            Err(ActionErrorView::Validation(_)) => say_nothing_found(
                thread_id,
                "usage: /search <query>"@,
            ),
            Err(ActionErrorView::ContactsUnavailable) => say_nothing_found(
                thread_id,
                "contacts unavailable"@,
            ),
            Err(e) => StepView::End(Err(bot_error(e))),
        }
    }
}

fn nothing_found(thread_id: i32, text: &str) -> (r: SayStep<Vec<Contact>>)
    ensures
        contacts_view(r) == say_nothing_found(thread_id, text@),
{
    let none: Vec<Contact> = Vec::new();
    assert(views(none@) =~= Seq::empty());
    Step::Do(post(thread_id, text), Saying { answer: none })
}

/// Searches the contacts, and says if none is found.
pub fn handle_search(db: &Db, thread_id: i32, query: &str) -> (r: SayStep<Vec<Contact>>)
    ensures
        contacts_view(r) == search_said(db@, thread_id, query@),
{
    if query.is_empty() {
        return nothing_found(thread_id, "usage: /search <query>");
    }
    match search_contacts(db, query) {
        Ok(hits) => if hits.len() == 0 {
            nothing_found(thread_id, "no matches")
        } else {
            Step::End(Ok(hits))
        },
        Err(ActionError::Validation(_)) => nothing_found(thread_id, "usage: /search <query>"),
        Err(ActionError::ContactsUnavailable) => nothing_found(thread_id, "contacts unavailable"),
        Err(e) => Step::End(Err(to_app_error(e))),
    }
}

/// The topic of a contact is being opened.
#[derive(Debug)]
pub enum OpenFlow {
    /// It is being created.
    Creating { opening: Opening, group_id: i64, reply_thread: i32 },
    /// The way there is being told.
    Telling,
}

pub enum OpenFlowView {
    Creating { opening: OpeningView, group_id: i64, reply_thread: i32 },
    Telling,
}

impl View for OpenFlow {
    type V = OpenFlowView;

    open spec fn view(&self) -> OpenFlowView {
        match self {
            OpenFlow::Creating { opening, group_id, reply_thread } => OpenFlowView::Creating {
                opening: opening@,
                group_id: *group_id,
                reply_thread: *reply_thread,
            },
            OpenFlow::Telling => OpenFlowView::Telling,
        }
    }
}

pub type OpenCmdStep = Step<OpenFlow, Result<(), AppError>>;

pub type OpenCmdStepView = StepView<OpenFlowView, Result<(), AppErrorView>>;

pub open spec fn open_cmd_view(s: OpenCmdStep) -> OpenCmdStepView {
    match s {
        Step::Do(e, k) => StepView::Do(e@, k@),
        Step::End(r) => StepView::End(res_plain(r)),
    }
}

pub open spec fn open_telling(reply_thread: i32, text: Seq<char>) -> OpenCmdStepView {
    StepView::Do(EffectView::Post { thread_id: reply_thread, text }, OpenFlowView::Telling)
}

/// A step of opening: when the topic is there, the way to it is told.
pub open spec fn open_cmd_step(
    t: Tables,
    group_id: i64,
    reply_thread: i32,
    s: OpenStepView,
) -> OpenCmdStepView {
    match s {
        StepView::Do(e, opening) => StepView::Do(
            e,
            OpenFlowView::Creating { opening, group_id, reply_thread },
        ),
        StepView::End(Ok(opened)) => match topic_by_thread(t, opened.thread_id) {
            Some(topic) => open_telling(reply_thread, open_message(group_id, topic)),
            None => StepView::End(Err(AppErrorView::Telegram("topic missing after open"@))),
        },
        StepView::End(Err(ActionErrorView::NotFound(_))) => open_telling(
            reply_thread,
            "unknown contact"@,
        ),
        StepView::End(Err(e)) => StepView::End(Err(bot_error(e))),
    }
}

pub open spec fn contact_identity(contact_id: i64) -> IdentityView {
    IdentityView { number: None, contact_id: Some(contact_id), thread_id: None }
}

/// How opening goes on.
pub open spec fn open_cmd_next(t: Tables, s: OpenFlowView, o: OutcomeView) -> OpenCmdStepView {
    match s {
        OpenFlowView::Telling => match o {
            OutcomeView::TelegramFailed(e) => StepView::End(Err(e)),
            _ => StepView::End(Ok(())),
        },
        OpenFlowView::Creating { opening, group_id, reply_thread } => open_cmd_step(
            open_after(t, opening, o),
            group_id,
            reply_thread,
            open_next(t, opening, o),
        ),
    }
}

pub open spec fn open_cmd_after(t: Tables, s: OpenFlowView, o: OutcomeView) -> Tables {
    match s {
        OpenFlowView::Telling => t,
        OpenFlowView::Creating { opening, group_id, reply_thread } => open_after(t, opening, o),
    }
}

pub open spec fn open_cmd_awaits(s: OpenFlowView, o: OutcomeView) -> bool {
    match s {
        OpenFlowView::Telling => o is Done || o is TelegramFailed,
        OpenFlowView::Creating { .. } => open_awaits(o),
    }
}

fn as_open_cmd(db: &Db, group_id: i64, reply_thread: i32, s: OpenStep) -> (r: OpenCmdStep)
    ensures
        open_cmd_view(r) == open_cmd_step(db@, group_id, reply_thread, open_step_view(s)),
{
    match s {
        Step::Do(e, opening) => Step::Do(
            e,
            OpenFlow::Creating { opening, group_id, reply_thread },
        ),
        Step::End(Ok(opened)) => match db.get_topic_by_thread(opened.thread_id) {
            Err(e) => Step::End(Err(AppError::Db(e))),
            Ok(Some(topic)) => Step::Do(
                post(reply_thread, topic_open_message(group_id, &topic).as_str()),
                OpenFlow::Telling,
            ),
            Ok(None) => Step::End(
                Err(AppError::Telegram("topic missing after open".to_owned())),
            ),
        },
        Step::End(Err(ActionError::NotFound(_))) => Step::Do(
            post(reply_thread, "unknown contact"),
            OpenFlow::Telling,
        ),
        Step::End(Err(e)) => Step::End(Err(to_app_error(e))),
    }
}

/// Begins to open the topic of a contact.
pub fn handle_open(db: &Db, group_id: i64, reply_thread: i32, contact_id: i64) -> (r: OpenCmdStep)
    ensures
        open_cmd_view(r) == open_cmd_step(
            db@,
            group_id,
            reply_thread,
            open_begun(db@, ""@, contact_identity(contact_id)),
        ),
{
    let identity = Identity { number: None, contact_id: Some(contact_id), thread_id: None };
    as_open_cmd(db, group_id, reply_thread, open_topic(db, "", &identity))
}

impl OpenFlow {
    /// Goes on with what came of the last effect.
    pub fn next(self, db: &mut Db, outcome: Outcome) -> (r: OpenCmdStep)
        requires
            old(db)@.wf(),
            open_cmd_awaits(self@, outcome@),
        ensures
            final(db)@.wf(),
            final(db)@ == open_cmd_after(old(db)@, self@, outcome@),
            open_cmd_view(r) == open_cmd_next(old(db)@, self@, outcome@),
    {
        match self {
            OpenFlow::Telling => match outcome {
                Outcome::TelegramFailed(e) => Step::End(Err(e)),
                _ => Step::End(Ok(())),
            },
            OpenFlow::Creating { opening, group_id, reply_thread } => {
                let step = opening.next(db, outcome);
                as_open_cmd(db, group_id, reply_thread, step)
            },
        }
    }
}

// ---------------------------------------------------------------------------
// Ignoring
// ---------------------------------------------------------------------------

/// Ignoring is being told, or how to do it.
#[derive(Debug)]
pub enum IgnoreFlow {
    Telling { told: Told<Vec<String>> },
    Hinting,
}

pub enum IgnoreFlowView {
    Telling { told: Seq<Seq<char>> },
    Hinting,
}

impl View for IgnoreFlow {
    type V = IgnoreFlowView;

    open spec fn view(&self) -> IgnoreFlowView {
        match self {
            IgnoreFlow::Telling { told } => IgnoreFlowView::Telling { told: views(told.answer@) },
            IgnoreFlow::Hinting => IgnoreFlowView::Hinting,
        }
    }
}

pub type IgnoreCmdStep = Step<IgnoreFlow, Result<(), AppError>>;

pub type IgnoreCmdStepView = StepView<IgnoreFlowView, Result<(), AppErrorView>>;

pub open spec fn ignore_cmd_view(s: IgnoreCmdStep) -> IgnoreCmdStepView {
    match s {
        Step::Do(e, k) => StepView::Do(e@, k@),
        Step::End(r) => StepView::End(res_plain(r)),
    }
}

/// Whom a command to ignore is about: in General the number at the head of the
/// message that is replied to, in a topic its contact.
pub open spec fn ignore_identity(t: Tables, thread_id: i32, reply: Option<Seq<char>>) -> IdentityView {
    if thread_id == GENERAL_THREAD {
        IdentityView {
            number: match reply {
                Some(text) => ignore_reply(text),
                None => None,
            },
            contact_id: None,
            thread_id: None,
        }
    } else {
        match topic_by_thread(t, thread_id) {
            Some(topic) => thread_identity(topic, thread_id),
            None => IdentityView { number: None, contact_id: None, thread_id: None },
        }
    }
}

pub open spec fn hint(thread_id: i32) -> IgnoreCmdStepView {
    StepView::Do(
        EffectView::Post { thread_id, text: "reply to a +number to ignore it"@ },
        IgnoreFlowView::Hinting,
    )
}

/// A step of ignoring: where nothing can be ignored, the owner is told how.
pub open spec fn ignore_cmd_step(thread_id: i32, s: IgnoreStepView) -> IgnoreCmdStepView {
    match s {
        StepView::Do(e, numbers) => StepView::Do(e, IgnoreFlowView::Telling { told: numbers }),
        StepView::End(Ok(_)) => StepView::End(Ok(())),
        StepView::End(Err(ActionErrorView::Validation(_))) => hint(thread_id),
        StepView::End(Err(e)) => if e is MissingIdentity && thread_id == GENERAL_THREAD {
            hint(thread_id)
        } else {
            StepView::End(Err(bot_error(e)))
        },
    }
}

fn hinting(thread_id: i32) -> (r: IgnoreCmdStep)
    ensures
        ignore_cmd_view(r) == hint(thread_id),
{
    Step::Do(post(thread_id, "reply to a +number to ignore it"), IgnoreFlow::Hinting)
}

fn as_ignore_cmd(thread_id: i32, s: IgnoreStep) -> (r: IgnoreCmdStep)
    ensures
        ignore_cmd_view(r) == ignore_cmd_step(thread_id, ignore_step_view(s)),
{
    match s {
        Step::Do(e, told) => Step::Do(e, IgnoreFlow::Telling { told }),
        Step::End(Ok(_)) => Step::End(Ok(())),
        Step::End(Err(ActionError::Validation(_))) => hinting(thread_id),
        Step::End(Err(ActionError::MissingIdentity)) => if thread_id == GENERAL_THREAD {
            hinting(thread_id)
        } else {
            Step::End(Err(to_app_error(ActionError::MissingIdentity)))
        },
        Step::End(Err(e)) => Step::End(Err(to_app_error(e))),
    }
}

/// Begins to ignore the numbers of a topic, or the number that is replied to.
pub fn handle_ignore(db: &mut Db, region: &str, thread_id: i32, reply: Option<&str>) -> (r:
    IgnoreCmdStep)
    requires
        old(db)@.wf(),
    ensures
        final(db)@.wf(),
        final(db)@ == ignored_after(
            old(db)@,
            region@,
            ignore_identity(old(db)@, thread_id, opt_view(reply)),
        ),
        ignore_cmd_view(r) == ignore_cmd_step(
            thread_id,
            ignoring(
                old(db)@,
                region@,
                ignore_identity(old(db)@, thread_id, opt_view(reply)),
            ),
        ),
{
    let identity = if thread_id == GENERAL_THREAD {
        let number = match reply {
            Some(text) => parse_ignore_reply(text),
            None => None,
        };
        Identity { number, contact_id: None, thread_id: None }
    } else {
        match db.get_topic_by_thread(thread_id) {
            Err(e) => {
                return Step::End(Err(AppError::Db(e)));
            },
            Ok(Some(topic)) => Identity {
                number: None,
                contact_id: topic.contact_id,
                thread_id: Some(thread_id),
            },
            Ok(None) => Identity { number: None, contact_id: None, thread_id: None },
        }
    };
    assert(identity@ == ignore_identity(db@, thread_id, opt_view(reply)));
    as_ignore_cmd(thread_id, ignore(db, region, &identity))
}

impl IgnoreFlow {
    /// Ends with what came of telling it.
    pub fn next(self, outcome: Outcome) -> (r: IgnoreCmdStep)
        ensures
            ignore_cmd_view(r) == match (self@, outcome@) {
                (IgnoreFlowView::Hinting, OutcomeView::TelegramFailed(e)) => StepView::<
                    IgnoreFlowView,
                    Result<(), AppErrorView>,
                >::End(Err(e)),
                (IgnoreFlowView::Telling { .. }, OutcomeView::TelegramFailed(e)) => StepView::End(
                    Err(AppErrorView::Telegram(e.words())),
                ),
                _ => StepView::End(Ok(())),
            },
    {
        match self {
            IgnoreFlow::Hinting => match outcome {
                Outcome::TelegramFailed(e) => Step::End(Err(e)),
                _ => Step::End(Ok(())),
            },
            IgnoreFlow::Telling { told: _ } => match outcome {
                Outcome::TelegramFailed(e) => Step::End(Err(AppError::Telegram(e.message()))),
                _ => Step::End(Ok(())),
            },
        }
    }
}

// ---------------------------------------------------------------------------
// Sending
// ---------------------------------------------------------------------------

/// A message to a number is under way, or what is wrong with the number is
/// being told.
#[derive(Debug)]
pub enum SmsCmdFlow {
    Sending { flow: SmsFlow, reply_thread: i32 },
    Telling,
}

pub enum SmsCmdFlowView {
    Sending { flow: SmsFlowView, reply_thread: i32 },
    Telling,
}

impl View for SmsCmdFlow {
    type V = SmsCmdFlowView;

    open spec fn view(&self) -> SmsCmdFlowView {
        match self {
            SmsCmdFlow::Sending { flow, reply_thread } => SmsCmdFlowView::Sending {
                flow: flow@,
                reply_thread: *reply_thread,
            },
            SmsCmdFlow::Telling => SmsCmdFlowView::Telling,
        }
    }
}

pub type SmsCmdStep = Step<SmsCmdFlow, Result<(), AppError>>;

pub type SmsCmdStepView = StepView<SmsCmdFlowView, Result<(), AppErrorView>>;

pub open spec fn sms_cmd_view(s: SmsCmdStep) -> SmsCmdStepView {
    match s {
        Step::Do(e, k) => StepView::Do(e@, k@),
        Step::End(r) => StepView::End(res_plain(r)),
    }
}

/// A step of sending: a number that cannot be read is told in the thread; that
/// the modem refused was told there already.
pub open spec fn sms_cmd_step(reply_thread: i32, s: SmsStepView) -> SmsCmdStepView {
    match s {
        StepView::Do(e, flow) => StepView::Do(e, SmsCmdFlowView::Sending { flow, reply_thread }),
        StepView::End(Ok(_)) => StepView::End(Ok(())),
        StepView::End(Err(ActionErrorView::InvalidNumber(text))) => StepView::Do(
            EffectView::Post { thread_id: reply_thread, text },
            SmsCmdFlowView::Telling,
        ),
        StepView::End(Err(ActionErrorView::ModemFailed(_))) => StepView::End(Ok(())),
        StepView::End(Err(e)) => StepView::End(Err(bot_error(e))),
    }
}

pub open spec fn number_identity(number: Seq<char>) -> IdentityView {
    IdentityView { number: Some(number), contact_id: None, thread_id: None }
}

pub open spec fn sms_cmd_next(t: Tables, s: SmsCmdFlowView, o: OutcomeView) -> SmsCmdStepView {
    match s {
        SmsCmdFlowView::Telling => match o {
            OutcomeView::TelegramFailed(e) => StepView::End(Err(e)),
            _ => StepView::End(Ok(())),
        },
        SmsCmdFlowView::Sending { flow, reply_thread } => sms_cmd_step(
            reply_thread,
            sms_next(t, flow, o),
        ),
    }
}

pub open spec fn sms_cmd_after(t: Tables, s: SmsCmdFlowView, o: OutcomeView, now: Seq<char>) -> Tables {
    match s {
        SmsCmdFlowView::Telling => t,
        SmsCmdFlowView::Sending { flow, reply_thread } => sms_after(t, flow, o, now),
    }
}

pub open spec fn sms_cmd_awaits(s: SmsCmdFlowView, o: OutcomeView) -> bool {
    match s {
        SmsCmdFlowView::Telling => o is Done || o is TelegramFailed,
        SmsCmdFlowView::Sending { flow, .. } => sms_awaits(flow, o),
    }
}

fn as_sms_cmd(reply_thread: i32, s: SmsStep) -> (r: SmsCmdStep)
    ensures
        sms_cmd_view(r) == sms_cmd_step(reply_thread, sms_step_view(s)),
{
    match s {
        Step::Do(e, flow) => Step::Do(e, SmsCmdFlow::Sending { flow, reply_thread }),
        Step::End(Ok(_)) => Step::End(Ok(())),
        Step::End(Err(ActionError::InvalidNumber(text))) => Step::Do(
            Effect::Post { thread_id: reply_thread, text },
            SmsCmdFlow::Telling,
        ),
        Step::End(Err(ActionError::ModemFailed(_))) => Step::End(Ok(())),
        Step::End(Err(e)) => Step::End(Err(to_app_error(e))),
    }
}

/// Begins to send a message to a number that the owner typed.
pub fn handle_sms(
    db: &mut Db,
    region: &str,
    raw_number: &str,
    text: &str,
    reply_thread: i32,
    reply_to: Option<i32>,
    delete_enabled: bool,
) -> (r: SmsCmdStep)
    requires
        old(db)@.wf(),
    ensures
        final(db)@.wf(),
        final(db)@ == sms_began(old(db)@, region@, number_identity(raw_number@), text@),
        sms_cmd_view(r) == sms_cmd_step(
            reply_thread,
            sms_begun(
                old(db)@,
                region@,
                number_identity(raw_number@),
                text@,
                reply_thread,
                reply_to,
                delete_enabled,
            ),
        ),
{
    let identity = Identity {
        number: Some(raw_number.to_owned()),
        contact_id: None,
        thread_id: None,
    };
    assert(identity@ == number_identity(raw_number@));
    as_sms_cmd(
        reply_thread,
        send_sms(db, region, &identity, text, reply_thread, reply_to, delete_enabled),
    )
}

impl SmsCmdFlow {
    /// Goes on with what came of the last effect.
    pub fn next(self, db: &mut Db, outcome: Outcome, now: &str) -> (r: SmsCmdStep)
        requires
            old(db)@.wf(),
            sms_cmd_awaits(self@, outcome@),
        ensures
            final(db)@.wf(),
            final(db)@ == sms_cmd_after(old(db)@, self@, outcome@, now@),
            sms_cmd_view(r) == sms_cmd_next(old(db)@, self@, outcome@),
    {
        match self {
            SmsCmdFlow::Telling => match outcome {
                Outcome::TelegramFailed(e) => Step::End(Err(e)),
                _ => Step::End(Ok(())),
            },
            SmsCmdFlow::Sending { flow, reply_thread } => {
                as_sms_cmd(reply_thread, flow.next(db, outcome, now))
            },
        }
    }
}

// ---------------------------------------------------------------------------
// The forwarding dialogue
// ---------------------------------------------------------------------------

/// What a text means for the forwarding dialogue of its thread.
#[derive(Debug)]
pub enum ForwardText {
    /// There is no dialogue, or the text is a command.
    NotForUs,
    /// The modem is to forward calls to the number.
    Ask { pending: PendingForward, request: ForwardRequest },
    /// The contacts that were found, or why none can be.
    Found { pending: PendingForward, hits: Result<Vec<Contact>, ActionError> },
    /// The text is no number.
    Refused { pending: PendingForward, error: ActionError },
}

pub enum ForwardTextView {
    NotForUs,
    Ask { pending: PendingForward, request: ForwardRequestView },
    Found { pending: PendingForward, hits: Result<Seq<ContactView>, ActionErrorView> },
    Refused { pending: PendingForward, error: ActionErrorView },
}

impl View for ForwardText {
    type V = ForwardTextView;

    open spec fn view(&self) -> ForwardTextView {
        match self {
            ForwardText::NotForUs => ForwardTextView::NotForUs,
            ForwardText::Ask { pending, request } => ForwardTextView::Ask {
                pending: *pending,
                request: request@,
            },
            ForwardText::Found { pending, hits } => ForwardTextView::Found {
                pending: *pending,
                hits: res_views(*hits),
            },
            ForwardText::Refused { pending, error } => ForwardTextView::Refused {
                pending: *pending,
                error: error@,
            },
        }
    }
}

/// What a text means for the dialogue that waits in its thread.
pub open spec fn forward_text(
    t: Tables,
    region: Seq<char>,
    thread_id: i32,
    text: Seq<char>,
) -> ForwardTextView {
    match forward_in(t, thread_id) {
        None => ForwardTextView::NotForUs,
        Some(pending) => if begins(text, "/"@) {
            ForwardTextView::NotForUs
        } else {
            match pending.mode {
                PendingForwardMode::Search => ForwardTextView::Found {
                    pending,
                    hits: search_result(t, text),
                },
                PendingForwardMode::Number => match forward_wish(region, Some(text)) {
                    Ok(request) => ForwardTextView::Ask { pending, request },
                    Err(error) => ForwardTextView::Refused { pending, error },
                },
            }
        },
    }
}

/// A command ends the dialogue.
pub open spec fn forward_text_after(t: Tables, thread_id: i32, text: Seq<char>) -> Tables {
    if forward_in(t, thread_id) is Some && begins(text, "/"@) {
        forward_dropped(t, thread_id)
    } else {
        t
    }
}

/// Begins with a text in a thread where a forwarding dialogue may wait for it.
pub fn handle_pending_forward_text(db: &mut Db, region: &str, thread_id: i32, text: &str) -> (r:
    Result<ForwardText, AppError>)
    requires
        old(db)@.wf(),
    ensures
        final(db)@.wf(),
        final(db)@ == forward_text_after(old(db)@, thread_id, text@),
        res_view(r) == Ok::<ForwardTextView, AppErrorView>(
            forward_text(old(db)@, region@, thread_id, text@),
        ),
{
    let pending = match db.get_pending_forward(thread_id) {
        Err(e) => {
            return Err(AppError::Db(e));
        },
        Ok(None) => {
            return Ok(ForwardText::NotForUs);
        },
        Ok(Some(pending)) => pending,
    };
    if starts_with(text, "/") {
        let _ = db.clear_pending_forward(thread_id);
        return Ok(ForwardText::NotForUs);
    }
    match pending.mode {
        PendingForwardMode::Search => Ok(
            ForwardText::Found { pending, hits: search_contacts(db, text) },
        ),
        PendingForwardMode::Number => match put_call_forward(region, &Some(text.to_owned())) {
            Ok(request) => Ok(ForwardText::Ask { pending, request }),
            Err(error) => Ok(ForwardText::Refused { pending, error }),
        },
    }
}

/// A dialogue that waits in a thread takes the next text typed there, so that it
/// is not sent to anybody; a command is left alone and ends the dialogue.
pub proof fn law_dialogue_takes_the_text(
    t: Tables,
    region: Seq<char>,
    thread_id: i32,
    text: Seq<char>,
)
    requires
        forward_in(t, thread_id) is Some,
    ensures
        begins(text, "/"@) <==> forward_text(t, region, thread_id, text) is NotForUs,
        begins(text, "/"@) ==> forward_in(forward_text_after(t, thread_id, text), thread_id) is None,
        !begins(text, "/"@) ==> forward_text_after(t, thread_id, text) == t,
{
    if let Some(pending) = forward_in(t, thread_id) {
        law_dialogue_comes_back(t, thread_id, pending, thread_id);
    }
}

/// The end of a request to the modem: the dialogue of the thread is over when
/// it went well, and stays open when it did not.
pub open spec fn forward_settled(
    t: Tables,
    thread_id: i32,
    answer: Result<CallForwardStateView, ModemErrorView>,
) -> Tables {
    if answer is Ok {
        forward_dropped(t, thread_id)
    } else {
        t
    }
}

/// Ends a forwarding dialogue with what the modem answered.
pub fn settle_forward(
    db: &mut Db,
    thread_id: i32,
    answer: Result<CallForwardState, ModemError>,
) -> (r: Result<CallForwardState, ActionError>)
    requires
        old(db)@.wf(),
    ensures
        final(db)@.wf(),
        final(db)@ == forward_settled(old(db)@, thread_id, res_view(answer)),
        res_view(r) == forward_outcome(res_view(answer)),
{
    if answer.is_ok() {
        let _ = db.clear_pending_forward(thread_id);
    }
    forward_answer(answer)
}

/// What a button of the forwarding dialogue leads to.
#[derive(Debug)]
pub enum ForwardTap {
    /// The modem is to do something.
    Ask(ForwardRequest),
    /// Words are shown, with buttons below them.
    Show { text: String, keyboard: Option<Keyboard> },
}

pub enum ForwardTapView {
    Ask(ForwardRequestView),
    Show { text: Seq<char>, keyboard: Option<Seq<Seq<(Seq<char>, Seq<char>)>>> },
}

impl View for ForwardTap {
    type V = ForwardTapView;

    open spec fn view(&self) -> ForwardTapView {
        match self {
            ForwardTap::Ask(request) => ForwardTapView::Ask(request@),
            ForwardTap::Show { text, keyboard } => ForwardTapView::Show {
                text: text@,
                keyboard: opt_view(*keyboard),
            },
        }
    }
}

pub open spec fn show_only(text: Seq<char>) -> ForwardTapView {
    ForwardTapView::Show { text, keyboard: None }
}

pub open spec fn ask_number(region: Seq<char>, e164: Seq<char>) -> ForwardTapView {
    match forward_wish(region, Some(e164)) {
        Ok(request) => ForwardTapView::Ask(request),
        Err(e) => show_only(e.words()),
    }
}

/// What a button leads to. A contact with one number needs no further choice.
pub open spec fn forward_tapped(t: Tables, region: Seq<char>, action: CfActionView) -> ForwardTapView {
    match action {
        CfActionView::Disable => ForwardTapView::Ask(ForwardRequestView::Disable),
        CfActionView::Cancel => show_only("cancelled"@),
        CfActionView::TypeNumber => show_only("send the number to forward calls to"@),
        CfActionView::Search => show_only("send a name to search for"@),
        CfActionView::Number(e164) => ask_number(region, e164),
        CfActionView::Contact(id) => match contact_by_id(t, id as i64) {
            None => show_only("unknown contact"@),
            Some(c) => if c.numbers.len() == 0 {
                show_only("no numbers"@)
            } else if c.numbers.len() == 1 {
                ask_number(region, c.numbers[0])
            } else {
                ForwardTapView::Show {
                    text: "which number?"@,
                    keyboard: Some(c.numbers.map_values(number_row("cf:n:"@))),
                }
            },
        },
    }
}

/// What a button changes: which text the dialogue waits for.
pub open spec fn forward_tap_after(
    t: Tables,
    thread_id: i32,
    chat_id: i64,
    message_id: i32,
    action: CfActionView,
) -> Tables {
    let waiting = |mode: PendingForwardMode|
        PendingForward { mode, edit_chat_id: chat_id, edit_message_id: message_id };
    match action {
        CfActionView::TypeNumber => forward_put(t, thread_id, waiting(PendingForwardMode::Number)),
        CfActionView::Search => forward_put(t, thread_id, waiting(PendingForwardMode::Search)),
        CfActionView::Cancel => forward_dropped(t, thread_id),
        _ => t,
    }
}

fn showing(text: &str) -> (r: ForwardTap)
    ensures
        r@ == show_only(text@),
{
    ForwardTap::Show { text: text.to_owned(), keyboard: None }
}

fn asking(region: &str, e164: String) -> (r: ForwardTap)
    ensures
        r@ == ask_number(region@, e164@),
{
    match put_call_forward(region, &Some(e164)) {
        Ok(request) => ForwardTap::Ask(request),
        Err(e) => showing(e.message().as_str()),
    }
}

/// Handles a button of the forwarding dialogue.
pub fn handle_forward_tap(
    db: &mut Db,
    region: &str,
    thread_id: i32,
    chat_id: i64,
    message_id: i32,
    action: CfAction,
) -> (r: Result<ForwardTap, AppError>)
    requires
        old(db)@.wf(),
    ensures
        final(db)@.wf(),
        final(db)@ == forward_tap_after(old(db)@, thread_id, chat_id, message_id, action@),
        res_view(r) == Ok::<ForwardTapView, AppErrorView>(
            forward_tapped(old(db)@, region@, action@),
        ),
{
    match action {
        CfAction::Disable => Ok(ForwardTap::Ask(ForwardRequest::Disable)),
        CfAction::Cancel => {
            let _ = db.clear_pending_forward(thread_id);
            Ok(showing("cancelled"))
        },
        CfAction::TypeNumber => {
            let _ = db.set_pending_forward(
                thread_id,
                PendingForwardMode::Number,
                chat_id,
                message_id,
            );
            Ok(showing("send the number to forward calls to"))
        },
        CfAction::Search => {
            let _ = db.set_pending_forward(
                thread_id,
                PendingForwardMode::Search,
                chat_id,
                message_id,
            );
            Ok(showing("send a name to search for"))
        },
        CfAction::Number(e164) => Ok(asking(region, e164)),
        CfAction::Contact(id) => match db.get_contact(id) {
            Err(e) => Err(AppError::Db(e)),
            Ok(None) => Ok(showing("unknown contact")),
            Ok(Some(c)) => {
                if c.numbers.len() == 0 {
                    return Ok(showing("no numbers"));
                }
                if c.numbers.len() == 1 {
                    assert(views(c.numbers@)[0] == c.numbers@[0]@);
                    return Ok(asking(region, c.numbers[0].clone()));
                }
                Ok(
                    ForwardTap::Show {
                        text: "which number?".to_owned(),
                        keyboard: Some(forward_number_keyboard(c.numbers.as_slice())),
                    },
                )
            },
        },
    }
}

// ---------------------------------------------------------------------------
// What a message or a button is
// ---------------------------------------------------------------------------

/// What a message in the group asks for.
#[derive(Debug)]
pub enum OwnerCommand {
    Sms { number: String, body: String },
    Help,
    Who,
    Number,
    Ignore,
    Search { query: String },
    Open { contact_id: i64 },
    Forward,
    Status,
    /// A text for the contact of the topic.
    Text,
    Nothing,
}

pub enum OwnerCommandView {
    Sms { number: Seq<char>, body: Seq<char> },
    Help,
    Who,
    Number,
    Ignore,
    Search { query: Seq<char> },
    Open { contact_id: int },
    Forward,
    Status,
    Text,
    Nothing,
}

impl View for OwnerCommand {
    type V = OwnerCommandView;

    open spec fn view(&self) -> OwnerCommandView {
        match self {
            OwnerCommand::Sms { number, body } => OwnerCommandView::Sms {
                number: number@,
                body: body@,
            },
            OwnerCommand::Help => OwnerCommandView::Help,
            OwnerCommand::Who => OwnerCommandView::Who,
            OwnerCommand::Number => OwnerCommandView::Number,
            OwnerCommand::Ignore => OwnerCommandView::Ignore,
            OwnerCommand::Search { query } => OwnerCommandView::Search { query: query@ },
            OwnerCommand::Open { contact_id } => OwnerCommandView::Open {
                contact_id: *contact_id as int,
            },
            OwnerCommand::Forward => OwnerCommandView::Forward,
            OwnerCommand::Status => OwnerCommandView::Status,
            OwnerCommand::Text => OwnerCommandView::Text,
            OwnerCommand::Nothing => OwnerCommandView::Nothing,
        }
    }
}

/// What a text in a thread asks for. Only a text in a topic that is no command
/// is one for the contact.
pub open spec fn command_of(text: Seq<char>, thread_id: i32) -> OwnerCommandView {
    match sms_cmd(text) {
        Some((number, body)) => OwnerCommandView::Sms { number, body },
        None => match cmd_name(text) {
            None => if thread_id != GENERAL_THREAD {
                OwnerCommandView::Text
            } else {
                OwnerCommandView::Nothing
            },
            Some(name) => if name == "help"@ {
                OwnerCommandView::Help
            } else if name == "who"@ {
                OwnerCommandView::Who
            } else if name == "number"@ {
                OwnerCommandView::Number
            } else if name == "ignore"@ {
                OwnerCommandView::Ignore
            } else if name == "search"@ {
                OwnerCommandView::Search {
                    query: match crate::telegram::parse::argument(text, "/search"@) {
                        Some(q) => q,
                        None => Seq::empty(),
                    },
                }
            } else if name == "open"@ {
                match open_cmd(text) {
                    Some(contact_id) => OwnerCommandView::Open { contact_id },
                    None => OwnerCommandView::Nothing,
                }
            } else if name == "forward"@ {
                OwnerCommandView::Forward
            } else if name == "status"@ {
                OwnerCommandView::Status
            } else {
                OwnerCommandView::Nothing
            },
        },
    }
}

/// Reads a message in the group.
pub fn read_message(text: &str, thread_id: i32) -> (r: OwnerCommand)
    ensures
        r@ == command_of(text@, thread_id),
{
    if let Some((number, body)) = parse_sms_cmd(text) {
        return OwnerCommand::Sms { number, body };
    }
    let name = match parse_cmd_name(text) {
        Some(name) => name,
        None => {
            return if thread_id != GENERAL_THREAD {
                OwnerCommand::Text
            } else {
                OwnerCommand::Nothing
            };
        },
    };
    let name = name.as_str();
    if str_eq(name, "help") {
        OwnerCommand::Help
    } else if str_eq(name, "who") {
        OwnerCommand::Who
    } else if str_eq(name, "number") {
        OwnerCommand::Number
    } else if str_eq(name, "ignore") {
        OwnerCommand::Ignore
    } else if str_eq(name, "search") {
        let query = match parse_search_query(text) {
            Some(q) => q,
            None => {
                let none = String::new();
                assert(none@ =~= Seq::empty());
                none
            },
        };
        OwnerCommand::Search { query }
    } else if str_eq(name, "open") {
        match parse_open_cmd(text) {
            Some(contact_id) => OwnerCommand::Open { contact_id },
            None => OwnerCommand::Nothing,
        }
    } else if str_eq(name, "forward") {
        OwnerCommand::Forward
    } else if str_eq(name, "status") {
        OwnerCommand::Status
    } else {
        OwnerCommand::Nothing
    }
}

/// The words that answer a text in the private chat of the owner. Only the
/// status can be asked for there, and that is answered without any.
pub open spec fn dm_answer(text: Seq<char>, group_id: i64) -> Option<Seq<char>> {
    if cmd_name(text) == Some("status"@) {
        None
    } else {
        Some(dm_words(group_id))
    }
}

/// Reads a text in the private chat of the owner: none if it asks for the
/// status, or else the words to answer it with.
pub fn read_dm(text: &str, group_id: i64) -> (r: Option<String>)
    ensures
        opt_view(r) == dm_answer(text@, group_id),
{
    match parse_cmd_name(text) {
        Some(name) => if str_eq(name.as_str(), "status") {
            None
        } else {
            Some(dm_hint(group_id))
        },
        None => Some(dm_hint(group_id)),
    }
}

/// What a button asks for.
#[derive(Debug)]
pub enum Tap {
    Refresh,
    Number { e164: String },
    Open { contact_id: i64 },
    Forward { action: CfAction },
    Nothing,
}

pub enum TapView {
    Refresh,
    Number { e164: Seq<char> },
    Open { contact_id: int },
    Forward { action: CfActionView },
    Nothing,
}

impl View for Tap {
    type V = TapView;

    open spec fn view(&self) -> TapView {
        match self {
            Tap::Refresh => TapView::Refresh,
            Tap::Number { e164 } => TapView::Number { e164: e164@ },
            Tap::Open { contact_id } => TapView::Open { contact_id: *contact_id as int },
            Tap::Forward { action } => TapView::Forward { action: action@ },
            Tap::Nothing => TapView::Nothing,
        }
    }
}

/// What a button asks for. In a private chat only the status can be refreshed.
pub open spec fn tapped(data: Seq<char>, private: bool) -> TapView {
    if data == "st:r"@ {
        TapView::Refresh
    } else if private {
        TapView::Nothing
    } else {
        match num_callback(data) {
            Some(e164) => TapView::Number { e164 },
            None => match open_callback(data) {
                Some(contact_id) => TapView::Open { contact_id },
                None => match cf_callback(data) {
                    Some(action) => TapView::Forward { action },
                    None => TapView::Nothing,
                },
            },
        }
    }
}

/// Reads what a button sent.
pub fn read_tap(data: &str, private: bool) -> (r: Tap)
    ensures
        r@ == tapped(data@, private),
{
    if parse_status_refresh(data) {
        return Tap::Refresh;
    }
    if private {
        return Tap::Nothing;
    }
    if let Some(e164) = parse_num_callback(data) {
        return Tap::Number { e164 };
    }
    if let Some(contact_id) = parse_open_callback(data) {
        return Tap::Open { contact_id };
    }
    match parse_cf_callback(data) {
        Some(action) => Tap::Forward { action },
        None => Tap::Nothing,
    }
}

} // verus!
