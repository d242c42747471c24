//! What is put in front of the owner once the answers are in, and how a card
//! takes the place of an earlier one.
use vstd::prelude::*;

use crate::actions::{ActionError, ActionErrorView};
use crate::app::owner::{OwnerTextOutcome, OwnerTextOutcomeView};
use crate::call_forward::{CallForwardState, CallForwardStateView};
use crate::db::{Contact, Db, DbError, DbErrorView};
use crate::modem::{ModemError, ModemErrorView};
use crate::rows::{opt_view, res_view, res_views, views};
use crate::status::{
    escaped, format_forward_line, forward_line, forward_shown, html_escape, view_forward,
};
use crate::tables::{ContactView, Tables};
use crate::telegram::keyboards::{
    contact_row, forward_buttons, forward_keyboard, forward_search_keyboard, number_keyboard,
    number_row, search_keyboard, shown_hits, status_keyboard, Keyboard,
};
use crate::telegram::util::{edit_failed_is_noop, edit_is_noop};
use crate::text::cat;

verus! {

/// What is done when a card cannot take the place of an earlier message.
#[derive(Debug, Clone, Copy, PartialEq, Eq, Structural)]
pub enum Unedited {
    /// It is sent as a new message.
    SendNew,
    /// Nothing.
    LetGo,
    /// It is an error.
    Fail,
}

/// Words with buttons below them.
#[derive(Debug)]
pub struct Card {
    pub text: String,
    /// The words hold markup.
    pub html: bool,
    pub keyboard: Option<Keyboard>,
    pub unedited: Unedited,
}

pub struct CardView {
    pub text: Seq<char>,
    pub html: bool,
    pub keyboard: Option<Seq<Seq<(Seq<char>, Seq<char>)>>>,
    pub unedited: Unedited,
}

impl View for Card {
    type V = CardView;

    open spec fn view(&self) -> CardView {
        CardView {
            text: self.text@,
            html: self.html,
            keyboard: opt_view(self.keyboard),
            unedited: self.unedited,
        }
    }
}

// ---------------------------------------------------------------------------
// Choices
// ---------------------------------------------------------------------------

/// Plain words above buttons.
pub open spec fn prompt(text: Seq<char>, rows: Seq<Seq<(Seq<char>, Seq<char>)>>) -> CardView {
    CardView { text, html: false, keyboard: Some(rows), unedited: Unedited::Fail }
}

/// The question for one of the numbers.
pub open spec fn which_number(numbers: Seq<Seq<char>>) -> CardView {
    prompt("which number?"@, numbers.map_values(number_row("num:"@)))
}

fn ask_which_number(numbers: &[String]) -> (r: Card)
    ensures
        r@ == which_number(views(numbers@)),
{
    Card {
        text: "which number?".to_owned(),
        html: false,
        keyboard: Some(number_keyboard(numbers)),
        unedited: Unedited::Fail,
    }
}

/// What follows when the numbers of a topic were listed: the owner chooses, if
/// there are any.
pub fn number_prompt(numbers: &[String]) -> (r: Option<Card>)
    ensures
        opt_view(r) == if numbers@.len() == 0 {
            None
        } else {
            Some(which_number(views(numbers@)))
        },
{
    if numbers.len() == 0 {
        None
    } else {
        Some(ask_which_number(numbers))
    }
}

/// What follows a text for a contact: the owner chooses the number it waits for.
pub open spec fn text_answer(outcome: OwnerTextOutcomeView) -> Option<CardView> {
    match outcome {
        OwnerTextOutcomeView::NeedNumber(numbers) => Some(which_number(numbers)),
        OwnerTextOutcomeView::Done => None,
    }
}

pub fn text_prompt(outcome: &OwnerTextOutcome) -> (r: Option<Card>)
    ensures
        opt_view(r) == text_answer(outcome@),
{
    match outcome {
        OwnerTextOutcome::NeedNumber(numbers) => Some(ask_which_number(numbers.as_slice())),
        OwnerTextOutcome::Done => None,
    }
}

/// What follows a search: the owner chooses one of the contacts, if there are
/// any.
pub fn contact_prompt(hits: &[Contact]) -> (r: Option<Card>)
    ensures
        opt_view(r) == if hits@.len() == 0 {
            None
        } else {
            Some(
                prompt(
                    "pick a contact"@,
                    shown_hits(views(hits@)).map_values(contact_row("open:"@)),
                ),
            )
        },
{
    if hits.len() == 0 {
        return None;
    }
    Some(
        Card {
            text: "pick a contact".to_owned(),
            html: false,
            keyboard: Some(search_keyboard(hits)),
            unedited: Unedited::Fail,
        },
    )
}

// ---------------------------------------------------------------------------
// Forwarding
// ---------------------------------------------------------------------------

/// Words with markup in the message of a forwarding dialogue.
pub open spec fn dialogue_card(
    text: Seq<char>,
    keyboard: Option<Seq<Seq<(Seq<char>, Seq<char>)>>>,
) -> CardView {
    CardView { text, html: true, keyboard, unedited: Unedited::Fail }
}

/// Plain words and buttons in the message of a forwarding dialogue.
pub fn tap_card(text: &str, keyboard: Option<Keyboard>) -> (r: Card)
    ensures
        r@ == dialogue_card(escaped(text@), opt_view(keyboard)),
{
    Card { text: html_escape(text), html: true, keyboard, unedited: Unedited::Fail }
}

/// An error in the message of a forwarding dialogue.
pub fn error_card(error: &ActionError) -> (r: Card)
    ensures
        r@ == dialogue_card(escaped(error@.words()), None),
{
    tap_card(error.message().as_str(), None)
}

/// What a search within a forwarding dialogue leads to.
pub open spec fn search_answer(hits: Result<Seq<ContactView>, ActionErrorView>) -> CardView {
    match hits {
        Err(e) => dialogue_card(escaped(e.words()), None),
        Ok(hits) => if hits.len() == 0 {
            dialogue_card(escaped("no matches"@), None)
        } else {
            dialogue_card(
                escaped("pick a contact"@),
                Some(shown_hits(hits).map_values(contact_row("cf:c:"@))),
            )
        },
    }
}

pub fn search_card(hits: &Result<Vec<Contact>, ActionError>) -> (r: Card)
    ensures
        r@ == search_answer(res_views(*hits)),
{
    match hits {
        Err(e) => error_card(e),
        Ok(hits) => if hits.len() == 0 {
            tap_card("no matches", None)
        } else {
            tap_card("pick a contact", Some(forward_search_keyboard(hits.as_slice())))
        },
    }
}

/// What the modem's answer to a change of forwarding leads to: the new state, or
/// what went wrong.
pub open spec fn change_answer(
    t: Tables,
    answer: Result<CallForwardStateView, ActionErrorView>,
) -> CardView {
    match answer {
        Ok(state) => dialogue_card(forward_line(forward_shown(t, Ok(state))), None),
        Err(e) => dialogue_card(escaped(e.words()), None),
    }
}

pub fn change_card(db: &Db, answer: Result<CallForwardState, ActionError>) -> (r: Result<
    Card,
    DbError,
>)
    ensures
        res_view(r) == Ok::<CardView, DbErrorView>(change_answer(db@, res_view(answer))),
{
    match answer {
        Err(e) => Ok(error_card(&e)),
        Ok(state) => match view_forward(db, Ok(state)) {
            Err(e) => Err(e),
            Ok(view) => Ok(
                Card {
                    text: format_forward_line(&view),
                    html: true,
                    keyboard: None,
                    unedited: Unedited::Fail,
                },
            ),
        },
    }
}

/// The message that opens a forwarding dialogue: the state, and what can be
/// done about it.
pub fn forward_card(db: &Db, answer: Result<CallForwardState, ModemError>) -> (r: Result<
    Card,
    DbError,
>)
    ensures
        res_view(r) == Ok::<CardView, DbErrorView>(
            dialogue_card(
                forward_line(forward_shown(db@, res_view(answer))),
                Some(forward_buttons()),
            ),
        ),
{
    match view_forward(db, answer) {
        Err(e) => Err(e),
        Ok(view) => Ok(
            Card {
                text: format_forward_line(&view),
                html: true,
                keyboard: Some(forward_keyboard()),
                unedited: Unedited::Fail,
            },
        ),
    }
}

// ---------------------------------------------------------------------------
// The status
// ---------------------------------------------------------------------------

/// What asking for the status leads to: the card, or why there is none. A card
/// that cannot be edited in place is sent anew.
pub open spec fn status_answer(html: Result<Seq<char>, DbErrorView>) -> CardView {
    match html {
        Ok(text) => CardView {
            text,
            html: true,
            keyboard: Some(seq![seq![("🔄 Refresh"@, "st:r"@)]]),
            unedited: Unedited::SendNew,
        },
        Err(e) => CardView {
            text: "status failed: "@ + e.words(),
            html: false,
            keyboard: None,
            unedited: Unedited::LetGo,
        },
    }
}

pub fn status_told(html: Result<String, DbError>) -> (r: Card)
    ensures
        r@ == status_answer(res_view(html)),
{
    match html {
        Ok(text) => Card {
            text,
            html: true,
            keyboard: Some(status_keyboard()),
            unedited: Unedited::SendNew,
        },
        Err(e) => Card {
            text: cat("status failed: ", e.message().as_str()),
            html: false,
            keyboard: None,
            unedited: Unedited::LetGo,
        },
    }
}

// ---------------------------------------------------------------------------
// Showing a card
// ---------------------------------------------------------------------------

/// What is done with a card next.
#[derive(Debug, Clone, Copy, PartialEq, Eq, Structural)]
pub enum CardStep {
    /// It takes the place of a message.
    Edit { message_id: i32 },
    /// It is sent as a new message.
    Send,
    /// It is shown, or let go.
    Done,
    /// The edit failed, and that is an error.
    Failed,
}

/// How an edit ended.
#[derive(Debug)]
pub enum EditOutcome {
    Edited,
    /// Telegram refused it: whether for changing nothing, and in which words.
    Refused { not_modified: bool, message: String },
}

pub enum EditOutcomeView {
    Edited,
    Refused { not_modified: bool, message: Seq<char> },
}

impl View for EditOutcome {
    type V = EditOutcomeView;

    open spec fn view(&self) -> EditOutcomeView {
        match self {
            EditOutcome::Edited => EditOutcomeView::Edited,
            EditOutcome::Refused { not_modified, message } => EditOutcomeView::Refused {
                not_modified: *not_modified,
                message: message@,
            },
        }
    }
}

/// A card goes into the message that it is to replace, if there is one.
pub fn card_begun(edit: Option<i32>) -> (r: CardStep)
    ensures
        r == match edit {
            Some(message_id) => CardStep::Edit { message_id },
            None => CardStep::Send,
        },
{
    match edit {
        Some(message_id) => CardStep::Edit { message_id },
        None => CardStep::Send,
    }
}

/// The message now shows what the card says.
pub open spec fn shows(outcome: EditOutcomeView) -> bool {
    match outcome {
        EditOutcomeView::Edited => true,
        EditOutcomeView::Refused { not_modified, message } => edit_is_noop(not_modified, message),
    }
}

/// What follows an edit.
pub open spec fn edit_followed(unedited: Unedited, outcome: EditOutcomeView) -> CardStep {
    if shows(outcome) {
        CardStep::Done
    } else {
        match unedited {
            Unedited::SendNew => CardStep::Send,
            Unedited::LetGo => CardStep::Done,
            Unedited::Fail => CardStep::Failed,
        }
    }
}

pub fn card_edited(unedited: Unedited, outcome: &EditOutcome) -> (r: CardStep)
    ensures
        r == edit_followed(unedited, outcome@),
{
    let shown = match outcome {
        EditOutcome::Edited => true,
        EditOutcome::Refused { not_modified, message } => edit_failed_is_noop(
            *not_modified,
            message.as_str(),
        ),
    };
    if shown {
        return CardStep::Done;
    }
    match unedited {
        Unedited::SendNew => CardStep::Send,
        Unedited::LetGo => CardStep::Done,
        Unedited::Fail => CardStep::Failed,
    }
}

/// The status is shown once: in place where that is possible, and as a new
/// message where it is not.
pub proof fn law_status_is_shown_once(html: Seq<char>, outcome: EditOutcomeView)
    ensures
        ({
            let next = edit_followed(status_answer(Ok(html)).unedited, outcome);
            &&& shows(outcome) ==> next == CardStep::Done
            &&& !shows(outcome) ==> next == CardStep::Send
        }),
{
}

} // verus!
