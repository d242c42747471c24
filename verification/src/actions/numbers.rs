//! The numbers of a topic: showing them, choosing the default, ignoring them.
use vstd::prelude::*;

use crate::actions::identity::{
    has_number, law_resolved_topic_is_there, resolution, resolution_here, resolve, resolve_here,
    Identity, IdentityView, ResolveMode, Resolved, ResolvedView,
};
use crate::actions::{ActionError, ActionErrorView};
use crate::app::effect::{post, Effect, EffectView, Outcome, OutcomeView, Step, StepView};
use crate::db::laws::{law_default_comes_back, law_ignored_stays};
use crate::db::{clone_all, clone_opt, Contact, Db, Topic};
use crate::normalize::{
    complaint, normalize_e164, normalized, result_view, NormalizeError, NormalizeErrorView,
};
use crate::route::{planned, routed, InboundDestView, OutboundPlanView, GENERAL_THREAD};
use crate::rows::{opt_view, res_view, res_views, views};
use crate::tables::{
    default_put, ignored_put, is_ignored, pending_in, ContactView, Tables, TopicView,
};
use crate::text::{among, cat, cat3, nonblank};

verus! {

/// A topic, its contact and the numbers it can write to.
#[derive(Debug)]
pub struct Who {
    pub thread_id: i32,
    pub contact_id: Option<i64>,
    pub display_name: String,
    pub numbers: Vec<String>,
    pub default_e164: Option<String>,
    pub ambiguous: bool,
}

pub struct WhoView {
    pub thread_id: i32,
    pub contact_id: Option<i64>,
    pub display_name: Seq<char>,
    pub numbers: Seq<Seq<char>>,
    pub default_e164: Option<Seq<char>>,
    pub ambiguous: bool,
}

impl View for Who {
    type V = WhoView;

    open spec fn view(&self) -> WhoView {
        WhoView {
            thread_id: self.thread_id,
            contact_id: self.contact_id,
            display_name: self.display_name@,
            numbers: views(self.numbers@),
            default_e164: opt_view(self.default_e164),
            ambiguous: self.ambiguous,
        }
    }
}

/// The numbers of a topic and the default one among them.
#[derive(Debug)]
pub struct NumberState {
    pub thread_id: i32,
    pub numbers: Vec<String>,
    pub default_e164: Option<String>,
}

pub struct NumberStateView {
    pub thread_id: i32,
    pub numbers: Seq<Seq<char>>,
    pub default_e164: Option<Seq<char>>,
}

impl View for NumberState {
    type V = NumberStateView;

    open spec fn view(&self) -> NumberStateView {
        NumberStateView {
            thread_id: self.thread_id,
            numbers: views(self.numbers@),
            default_e164: opt_view(self.default_e164),
        }
    }
}

/// The numbers that a topic can write to: those of its contact, and for want of
/// any its default number.
pub open spec fn topic_numbers(contact: Option<ContactView>, topic: Option<TopicView>) -> Seq<
    Seq<char>,
> {
    let own = match contact {
        Some(c) => c.numbers,
        None => Seq::empty(),
    };
    let default = match topic {
        Some(t) => t.default_e164,
        None => None,
    };
    if own.len() > 0 {
        own
    } else {
        match default {
            Some(e164) => seq![e164],
            None => Seq::empty(),
        }
    }
}

fn numbers_to_use(contact: &Option<Contact>, topic: &Option<Topic>) -> (r: Vec<String>)
    ensures
        views(r@) == topic_numbers(opt_view(*contact), opt_view(*topic)),
{
    if let Some(c) = contact {
        if c.numbers.len() > 0 {
            return clone_all(&c.numbers);
        }
    }
    let mut out: Vec<String> = Vec::new();
    if let Some(t) = topic {
        if let Some(e164) = &t.default_e164 {
            out.push(e164.clone());
            assert(views(out@) =~= seq![e164@]);
            return out;
        }
    }
    assert(views(out@) =~= Seq::empty());
    out
}

pub open spec fn who_of(r: ResolvedView, topic: TopicView) -> WhoView {
    WhoView {
        thread_id: topic.thread_id,
        contact_id: match r.contact {
            Some(c) => Some(c.id),
            None => topic.contact_id,
        },
        display_name: match r.contact {
            Some(c) => c.display_name,
            None => topic.title,
        },
        numbers: topic_numbers(r.contact, r.topic),
        default_e164: topic.default_e164,
        ambiguous: r.contact matches Some(c) && c.ambiguous,
    }
}

pub open spec fn state_of(r: ResolvedView, topic: TopicView) -> NumberStateView {
    NumberStateView {
        thread_id: topic.thread_id,
        numbers: topic_numbers(r.contact, r.topic),
        default_e164: topic.default_e164,
    }
}

/// Whom a resolved topic writes to.
pub open spec fn who_for(r: ResolvedView) -> Result<WhoView, ActionErrorView> {
    match r.topic {
        Some(topic) => Ok(who_of(r, topic)),
        None => Err(ActionErrorView::NotFound("unknown topic"@)),
    }
}

/// The numbers that a resolved topic can write to.
pub open spec fn state_for(r: ResolvedView) -> Result<NumberStateView, ActionErrorView> {
    match r.topic {
        Some(topic) => Ok(state_of(r, topic)),
        None => Err(ActionErrorView::NotFound("unknown topic"@)),
    }
}

/// What `who` answers.
pub open spec fn who_result(t: Tables, region: Seq<char>, id: IdentityView) -> Result<
    WhoView,
    ActionErrorView,
> {
    match resolution(t, region, id, ResolveMode::RequireTopic) {
        Ok(r) => who_for(r),
        Err(e) => Err(e),
    }
}

/// What `list_numbers` answers.
pub open spec fn numbers_result(t: Tables, region: Seq<char>, id: IdentityView) -> Result<
    NumberStateView,
    ActionErrorView,
> {
    match resolution(t, region, id, ResolveMode::RequireTopic) {
        Ok(r) => state_for(r),
        Err(e) => Err(e),
    }
}

fn unknown_topic() -> (r: ActionError)
    ensures
        r@ == ActionErrorView::NotFound("unknown topic"@),
{
    ActionError::NotFound("unknown topic".to_owned())
}

/// Says whom a resolved topic writes to.
pub fn describe(resolved: &Resolved) -> (r: Result<Who, ActionError>)
    ensures
        res_view(r) == who_for(resolved@),
{
    let numbers = numbers_to_use(&resolved.contact, &resolved.topic);
    match &resolved.topic {
        None => Err(unknown_topic()),
        Some(topic) => match &resolved.contact {
            Some(c) => Ok(
                Who {
                    thread_id: topic.thread_id,
                    contact_id: Some(c.id),
                    display_name: c.display_name.clone(),
                    numbers,
                    default_e164: clone_opt(&topic.default_e164),
                    ambiguous: c.ambiguous,
                },
            ),
            None => Ok(
                Who {
                    thread_id: topic.thread_id,
                    contact_id: topic.contact_id,
                    display_name: topic.title.clone(),
                    numbers,
                    default_e164: clone_opt(&topic.default_e164),
                    ambiguous: false,
                },
            ),
        },
    }
}

/// Says whom a topic writes to.
pub fn who(db: &Db, region: &str, id: &Identity) -> (r: Result<Who, ActionError>)
    ensures
        res_view(r) == who_result(db@, region@, id@),
{
    let resolved = resolve(db, region, id, ResolveMode::RequireTopic)?;
    describe(&resolved)
}

/// The numbers that a resolved topic can write to.
pub fn numbers_for(resolved: &Resolved) -> (r: Result<NumberState, ActionError>)
    ensures
        res_view(r) == state_for(resolved@),
{
    let numbers = numbers_to_use(&resolved.contact, &resolved.topic);
    match &resolved.topic {
        None => Err(unknown_topic()),
        Some(topic) => Ok(
            NumberState {
                thread_id: topic.thread_id,
                numbers,
                default_e164: clone_opt(&topic.default_e164),
            },
        ),
    }
}

/// The numbers that a topic can write to.
pub fn list_numbers(db: &Db, region: &str, id: &Identity) -> (r: Result<NumberState, ActionError>)
    ensures
        res_view(r) == numbers_result(db@, region@, id@),
{
    let resolved = resolve(db, region, id, ResolveMode::RequireTopic)?;
    numbers_for(&resolved)
}

// ---------------------------------------------------------------------------
// Telling it in the topic
// ---------------------------------------------------------------------------

/// Something was done and is being told in a thread; what is left is to answer.
#[derive(Debug)]
pub struct Told<R> {
    pub answer: R,
}

pub type NumberStep = Step<Told<NumberState>, Result<NumberState, ActionError>>;

pub type NumberStepView = StepView<NumberStateView, Result<NumberStateView, ActionErrorView>>;

pub open spec fn number_step_view(s: NumberStep) -> NumberStepView {
    match s {
        Step::Do(e, k) => StepView::Do(e@, k.answer@),
        Step::End(r) => StepView::End(res_view(r)),
    }
}

pub type IgnoreStep = Step<Told<Vec<String>>, Result<Vec<String>, ActionError>>;

pub type IgnoreStepView = StepView<Seq<Seq<char>>, Result<Seq<Seq<char>>, ActionErrorView>>;

pub open spec fn ignore_step_view(s: IgnoreStep) -> IgnoreStepView {
    match s {
        Step::Do(e, k) => StepView::Do(e@, views(k.answer@)),
        Step::End(r) => StepView::End(res_views(r)),
    }
}

/// The answer, or that it could not be told.
pub open spec fn told<R>(answer: R, o: OutcomeView) -> Result<R, ActionErrorView> {
    match o {
        OutcomeView::TelegramFailed(e) => Err(
            ActionErrorView::TelegramFailed { sent: false, message: e.words() },
        ),
        _ => Ok(answer),
    }
}

impl Told<NumberState> {
    /// Ends with what came of telling it.
    pub fn next(self, outcome: Outcome) -> (r: NumberStep)
        ensures
            number_step_view(r) == StepView::<
                NumberStateView,
                Result<NumberStateView, ActionErrorView>,
            >::End(told(self.answer@, outcome@)),
    {
        match outcome {
            Outcome::TelegramFailed(e) => Step::End(
                Err(ActionError::TelegramFailed { sent: false, message: e.message() }),
            ),
            _ => Step::End(Ok(self.answer)),
        }
    }
}

impl Told<Vec<String>> {
    /// Ends with what came of telling it.
    pub fn finish(self, outcome: Outcome) -> (r: IgnoreStep)
        ensures
            ignore_step_view(r) == StepView::<
                Seq<Seq<char>>,
                Result<Seq<Seq<char>>, ActionErrorView>,
            >::End(told(views(self.answer@), outcome@)),
    {
        match outcome {
            Outcome::TelegramFailed(e) => Step::End(
                Err(ActionError::TelegramFailed { sent: false, message: e.message() }),
            ),
            _ => Step::End(Ok(self.answer)),
        }
    }
}

// ---------------------------------------------------------------------------
// The default number
// ---------------------------------------------------------------------------

/// The number that becomes the default of a resolved topic, or why none does.
pub open spec fn chosen(r: ResolvedView, number: Result<Seq<char>, NormalizeErrorView>) -> Result<
    Seq<char>,
    ActionErrorView,
> {
    match number {
        Err(e) => Err(ActionErrorView::InvalidNumber(complaint(e))),
        Ok(e164) => if topic_numbers(r.contact, r.topic).contains(e164) {
            Ok(e164)
        } else {
            Err(ActionErrorView::Validation("not a number of this topic"@))
        },
    }
}

/// The topic whose default is set, and the number, or why that cannot be.
pub open spec fn choice(r: ResolvedView, number: Result<Seq<char>, NormalizeErrorView>) -> Result<
    (TopicView, Seq<char>),
    ActionErrorView,
> {
    match r.topic {
        None => Err(ActionErrorView::NotFound("unknown topic"@)),
        Some(topic) => match chosen(r, number) {
            Err(e) => Err(e),
            Ok(e164) => Ok((topic, e164)),
        },
    }
}

/// How choosing a default number for a resolved topic begins: once it is set,
/// it is told in the topic.
pub open spec fn choosing_in(
    r: ResolvedView,
    number: Result<Seq<char>, NormalizeErrorView>,
) -> NumberStepView {
    match choice(r, number) {
        Err(e) => StepView::End(Err(e)),
        Ok((topic, e164)) => StepView::Do(
            EffectView::Post { thread_id: topic.thread_id, text: "default is "@ + e164 },
            NumberStateView { default_e164: Some(e164), ..state_of(r, topic) },
        ),
    }
}

/// What choosing a default number for a resolved topic changes.
pub open spec fn chose_in(
    t: Tables,
    r: ResolvedView,
    number: Result<Seq<char>, NormalizeErrorView>,
) -> Tables {
    match choice(r, number) {
        Err(_) => t,
        Ok((topic, e164)) => default_put(t, topic.thread_id, e164),
    }
}

/// How choosing a default number begins.
pub open spec fn choosing(
    t: Tables,
    region: Seq<char>,
    id: IdentityView,
    number: Seq<char>,
) -> NumberStepView {
    match resolution_here(t, region, id, ResolveMode::RequireTopic) {
        Err(e) => StepView::End(Err(e)),
        Ok(r) => choosing_in(r, normalized(number, region)),
    }
}

/// What choosing a default number changes.
pub open spec fn chose(t: Tables, region: Seq<char>, id: IdentityView, number: Seq<char>) -> Tables {
    match resolution_here(t, region, id, ResolveMode::RequireTopic) {
        Err(_) => t,
        Ok(r) => chose_in(t, r, normalized(number, region)),
    }
}

/// Makes a number the default one of a resolved topic and tells so there.
pub fn choose_number(db: &mut Db, resolved: Resolved, number: Result<String, NormalizeError>) -> (r:
    NumberStep)
    requires
        old(db)@.wf(),
    ensures
        final(db)@.wf(),
        final(db)@ == chose_in(old(db)@, resolved@, result_view(number)),
        number_step_view(r) == choosing_in(resolved@, result_view(number)),
{
    let numbers = numbers_to_use(&resolved.contact, &resolved.topic);
    let topic = match resolved.topic {
        Some(topic) => topic,
        None => {
            return Step::End(Err(unknown_topic()));
        },
    };
    let e164 = match number {
        Ok(e164) => e164,
        Err(e) => {
            return Step::End(Err(ActionError::InvalidNumber(e.message())));
        },
    };
    if !among(&numbers, e164.as_str()) {
        return Step::End(Err(ActionError::Validation("not a number of this topic".to_owned())));
    }
    match db.set_default_number(topic.thread_id, e164.as_str()) {
        Err(e) => Step::End(Err(ActionError::Db(e))),
        Ok(_) => {
            let effect = post(topic.thread_id, cat("default is ", e164.as_str()).as_str());
            Step::Do(
                effect,
                Told {
                    answer: NumberState {
                        thread_id: topic.thread_id,
                        numbers,
                        default_e164: Some(e164),
                    },
                },
            )
        },
    }
}

/// Makes a number the default one of a topic and tells so there.
pub fn set_default_number(db: &mut Db, region: &str, id: &Identity, number: &str) -> (r: NumberStep)
    requires
        old(db)@.wf(),
    ensures
        final(db)@.wf(),
        final(db)@ == chose(old(db)@, region@, id@, number@),
        number_step_view(r) == choosing(old(db)@, region@, id@, number@),
{
    match resolve_here(db, region, id, ResolveMode::RequireTopic) {
        Ok(resolved) => choose_number(db, resolved, normalize_e164(number, region)),
        Err(e) => Step::End(Err(e)),
    }
}

// ---------------------------------------------------------------------------
// Ignoring
// ---------------------------------------------------------------------------

/// The numbers to be ignored and the topic to tell it in, or why that cannot
/// be said. A number that is given stands alone.
pub open spec fn ignorable(given: bool, r: ResolvedView) -> Result<
    (Seq<Seq<char>>, Option<TopicView>),
    ActionErrorView,
> {
    if given {
        match r.e164 {
            Some(e164) => Ok((seq![e164], r.topic)),
            None => Err(ActionErrorView::MissingIdentity),
        }
    } else if topic_numbers(r.contact, r.topic).len() > 0 {
        Ok((topic_numbers(r.contact, r.topic), r.topic))
    } else {
        Err(ActionErrorView::Validation("no numbers to ignore"@))
    }
}

/// What is to be ignored; a thread alone is enough.
pub open spec fn to_ignore(t: Tables, region: Seq<char>, id: IdentityView) -> Result<
    (Seq<Seq<char>>, Option<TopicView>),
    ActionErrorView,
> {
    match resolution_here(t, region, id, ResolveMode::AllowBareNumber) {
        Err(e) => Err(e),
        Ok(r) => ignorable(nonblank(id.number) is Some, r),
    }
}

/// Numbers are ignored from now on.
pub open spec fn all_ignored(t: Tables, numbers: Seq<Seq<char>>) -> Tables
    decreases numbers.len(),
{
    if numbers.len() == 0 {
        t
    } else {
        ignored_put(all_ignored(t, numbers.drop_last()), numbers.last())
    }
}

/// The numbers with commas between them.
pub open spec fn listed(numbers: Seq<Seq<char>>) -> Seq<char>
    decreases numbers.len(),
{
    if numbers.len() == 0 {
        Seq::empty()
    } else if numbers.len() == 1 {
        numbers[0]
    } else {
        listed(numbers.drop_last()) + ", "@ + numbers.last()
    }
}

/// How ignoring begins: it is told in the topic, if there is one.
pub open spec fn ignoring_these(
    found: Result<(Seq<Seq<char>>, Option<TopicView>), ActionErrorView>,
) -> IgnoreStepView {
    match found {
        Err(e) => StepView::End(Err(e)),
        Ok((numbers, topic)) => match topic {
            Some(topic) => StepView::Do(
                EffectView::Post {
                    thread_id: topic.thread_id,
                    text: "ignored "@ + listed(numbers),
                },
                numbers,
            ),
            None => StepView::End(Ok(numbers)),
        },
    }
}

/// What ignoring changes.
pub open spec fn ignored_these(
    t: Tables,
    found: Result<(Seq<Seq<char>>, Option<TopicView>), ActionErrorView>,
) -> Tables {
    match found {
        Err(_) => t,
        Ok((numbers, topic)) => all_ignored(t, numbers),
    }
}

pub open spec fn ignoring(t: Tables, region: Seq<char>, id: IdentityView) -> IgnoreStepView {
    ignoring_these(to_ignore(t, region, id))
}

pub open spec fn ignored_after(t: Tables, region: Seq<char>, id: IdentityView) -> Tables {
    ignored_these(t, to_ignore(t, region, id))
}

fn numbers_listed(numbers: &Vec<String>) -> (r: String)
    ensures
        r@ == listed(views(numbers@)),
{
    let ghost all = views(numbers@);
    if numbers.len() == 0 {
        return String::new();
    }
    let mut out = numbers[0].clone();
    let mut i: usize = 1;
    assert(all.take(1).len() == 1 && all.take(1)[0] == numbers@[0]@);
    while i < numbers.len()
        invariant
            1 <= i <= numbers@.len(),
            all == views(numbers@),
            out@ == listed(all.take(i as int)),
        decreases numbers@.len() - i,
    {
        assert(all.take(i + 1).drop_last() =~= all.take(i as int));
        assert(all.take(i + 1).last() == numbers@[i as int]@);
        out = cat3(out.as_str(), ", ", numbers[i].as_str());
        i = i + 1;
    }
    assert(all.take(i as int) =~= all);
    out
}

fn ignore_all(db: &mut Db, numbers: &Vec<String>)
    requires
        old(db)@.wf(),
    ensures
        final(db)@.wf(),
        final(db)@ == all_ignored(old(db)@, views(numbers@)),
{
    let ghost t = db@;
    let ghost all = views(numbers@);
    let mut i: usize = 0;
    assert(all.take(0).len() == 0);
    while i < numbers.len()
        invariant
            i <= numbers@.len(),
            all == views(numbers@),
            db@.wf(),
            db@ == all_ignored(t, all.take(i as int)),
        decreases numbers@.len() - i,
    {
        assert(all.take(i + 1).drop_last() =~= all.take(i as int));
        assert(all.take(i + 1).last() == numbers@[i as int]@);
        let _ = db.ignore_number(numbers[i].as_str());
        i = i + 1;
    }
    assert(all.take(i as int) =~= all);
}

fn found_to_ignore(given: bool, resolved: Resolved) -> (r: Result<
    (Vec<String>, Option<Topic>),
    ActionError,
>)
    ensures
        ignorable(given, resolved@) == match r {
            Ok((numbers, topic)) => Ok::<(Seq<Seq<char>>, Option<TopicView>), ActionErrorView>(
                (views(numbers@), opt_view(topic)),
            ),
            Err(e) => Err(e@),
        },
{
    if given {
        match resolved.e164 {
            Some(e164) => {
                let mut numbers: Vec<String> = Vec::new();
                let ghost one = e164@;
                numbers.push(e164);
                assert(views(numbers@) =~= seq![one]);
                Ok((numbers, resolved.topic))
            },
            None => Err(ActionError::MissingIdentity),
        }
    } else {
        let numbers = numbers_to_use(&resolved.contact, &resolved.topic);
        if numbers.len() == 0 {
            Err(ActionError::Validation("no numbers to ignore".to_owned()))
        } else {
            Ok((numbers, resolved.topic))
        }
    }
}

/// Ignores the number that was given, or all numbers of a resolved topic, and
/// tells so in the topic.
pub fn ignore_resolved(db: &mut Db, given: bool, resolved: Resolved) -> (r: IgnoreStep)
    requires
        old(db)@.wf(),
    ensures
        final(db)@.wf(),
        final(db)@ == ignored_these(old(db)@, ignorable(given, resolved@)),
        ignore_step_view(r) == ignoring_these(ignorable(given, resolved@)),
{
    match found_to_ignore(given, resolved) {
        Err(e) => Step::End(Err(e)),
        Ok((numbers, topic)) => {
            ignore_all(db, &numbers);
            match topic {
                Some(topic) => {
                    let text = cat("ignored ", numbers_listed(&numbers).as_str());
                    Step::Do(
                        Effect::Post { thread_id: topic.thread_id, text },
                        Told { answer: numbers },
                    )
                },
                None => Step::End(Ok(numbers)),
            }
        },
    }
}

/// Ignores a number, or all numbers of a topic, and tells so in the topic.
pub fn ignore(db: &mut Db, region: &str, id: &Identity) -> (r: IgnoreStep)
    requires
        old(db)@.wf(),
    ensures
        final(db)@.wf(),
        final(db)@ == ignored_after(old(db)@, region@, id@),
        ignore_step_view(r) == ignoring(old(db)@, region@, id@),
{
    match resolve_here(db, region, id, ResolveMode::AllowBareNumber) {
        Err(e) => Step::End(Err(e)),
        Ok(resolved) => ignore_resolved(db, has_number(id), resolved),
    }
}

/// The number that was chosen is the one that texts typed in the topic go to. A
/// text that waits in the topic goes on waiting: choosing alone does not send it.
pub proof fn law_chosen_number_is_used(
    t: Tables,
    region: Seq<char>,
    id: IdentityView,
    number: Seq<char>,
    thread_id: i32,
)
    requires
        t.wf(),
    ensures
        resolution_here(t, region, id, ResolveMode::RequireTopic) matches Ok(r) ==> (choice(
            r,
            normalized(number, region),
        ) matches Ok(c) ==> c.0.thread_id != GENERAL_THREAD ==> planned(
            chose(t, region, id, number),
            c.0.thread_id,
        ) == (OutboundPlanView::Send { e164: c.1 })),
        pending_in(chose(t, region, id, number), thread_id) == pending_in(t, thread_id),
{
    law_resolved_topic_is_there(t, region, id, ResolveMode::RequireTopic);
    if let Ok(r) = resolution_here(t, region, id, ResolveMode::RequireTopic) {
        if let Ok(c) = choice(r, normalized(number, region)) {
            law_default_comes_back(t, c.0.thread_id, c.1, c.0.thread_id);
            law_default_comes_back(t, c.0.thread_id, c.1, thread_id);
        }
    }
}

/// Every number that was ignored is ignored from then on, and its messages go
/// to General.
pub proof fn law_ignoring_silences(t: Tables, numbers: Seq<Seq<char>>, i: int)
    requires
        0 <= i < numbers.len(),
    ensures
        is_ignored(all_ignored(t, numbers), numbers[i]),
        routed(all_ignored(t, numbers), numbers[i], true) == (InboundDestView::General {
            e164: numbers[i],
        }),
    decreases numbers.len(),
{
    let front = all_ignored(t, numbers.drop_last());
    law_ignored_stays(front, numbers.last(), numbers[i]);
    if i < numbers.len() - 1 {
        law_ignoring_silences(t, numbers.drop_last(), i);
        assert(numbers.drop_last()[i] == numbers[i]);
    }
}

} // verus!
