//! What is answered to a caller and shown on buttons and cards, and how numbers
//! are written.
use vstd::prelude::*;

use crate::actions::forward::ForwardRequestView;
use crate::actions::identity::IdentityView;
use crate::actions::ActionErrorView;
use crate::call_forward::CallForwardStateView;
use crate::db::DbErrorView;
use crate::decimal::{all_digits, int_text, nat_text, parsed, value};
use crate::http::{
    answered, forward_wanted, identified, may_call, problem_words, BodyProblem, ForwardField,
};
use crate::laws::found::{law_id_finds_its_contact, lemma_filter_keeps, lemma_first_at};
use crate::laws::texts::{blank, law_trimming_keeps_the_core, solid};
use crate::normalize::{
    cleaned, complaint, dialling_mark, normalized, normalized_from, to_parse, NormalizeErrorView,
};
use crate::status::escaped;
use crate::tables::{
    dialogue_elsewhere, dialogue_in, forward_in, numbers_of, ContactView, PendingForward,
    PendingForwardMode, Tables,
};
use crate::telegram::cards::{
    change_answer, edit_followed, search_answer, status_answer, which_number, CardStep,
    EditOutcomeView, Unedited,
};
use crate::telegram::handlers::{
    forward_settled, forward_tap_after, forward_tapped, forward_text, ForwardTapView,
    ForwardTextView,
};
use crate::telegram::keyboards::{contact_row, forward_buttons, inline_answer, label, number_row};
use crate::telegram::parse::CfActionView;
use crate::text::{begins, head, is_digit, trimmed};

verus! {

// ---------------------------------------------------------------------------
// Callers
// ---------------------------------------------------------------------------

/// Each error is answered with its own status and name, and in its own words;
/// numbers to choose from go with the one that asks for a choice, and whether the
/// message went out with a failure to tell.
pub proof fn law_errors_are_answered(e: ActionErrorView)
    ensures
        answered(e).message == e.words(),
        e is MissingIdentity || e is Validation || e is InvalidNumber ==> answered(e).status == 400,
        e is NotFound ==> answered(e).status == 404,
        e is IdentityConflict || e is NeedDefaultNumber ==> answered(e).status == 409,
        e is ModemFailed || e is TelegramFailed ==> answered(e).status == 502,
        e is ContactsUnavailable || e is ModemUnavailable ==> answered(e).status == 503,
        e is ForwardFailed || e is Db || e is App ==> answered(e).status == 500,
        e is MissingIdentity ==> answered(e).error == "missing_identity"@,
        e is Validation ==> answered(e).error == "validation"@,
        e is InvalidNumber ==> answered(e).error == "invalid_number"@,
        e is NotFound ==> answered(e).error == "not_found"@,
        e is IdentityConflict ==> answered(e).error == "identity_conflict"@,
        e is NeedDefaultNumber ==> answered(e).error == "need_default_number"@,
        e is ContactsUnavailable ==> answered(e).error == "contacts_unavailable"@,
        e is ModemFailed ==> answered(e).error == "modem_failed"@,
        e is TelegramFailed ==> answered(e).error == "telegram_failed"@,
        e is ModemUnavailable ==> answered(e).error == "modem_unavailable"@,
        e is ForwardFailed ==> answered(e).error == "forward_failed"@,
        e is Db || e is App ==> answered(e).error == "internal"@,
        e matches ActionErrorView::NeedDefaultNumber { numbers } ==> answered(e).numbers == Some(
            numbers,
        ),
        !(e is NeedDefaultNumber) ==> answered(e).numbers is None,
        e matches ActionErrorView::TelegramFailed { sent, .. } ==> answered(e).sent == Some(sent),
        !(e is TelegramFailed) ==> answered(e).sent is None,
{
}

/// The words of an error are those that it holds, and where it holds none, its own.
pub proof fn law_words_of_errors(s: Seq<char>, sent: bool, numbers: Seq<Seq<char>>)
    ensures
        ActionErrorView::Validation(s).words() == s,
        ActionErrorView::InvalidNumber(s).words() == s,
        ActionErrorView::NotFound(s).words() == s,
        ActionErrorView::ModemFailed(s).words() == s,
        ActionErrorView::ModemUnavailable(s).words() == s,
        ActionErrorView::ForwardFailed(s).words() == s,
        (ActionErrorView::TelegramFailed { sent, message: s }).words() == s,
        ActionErrorView::MissingIdentity.words() == "missing identity"@,
        ActionErrorView::IdentityConflict.words() == "identity fields disagree"@,
        (ActionErrorView::NeedDefaultNumber { numbers }).words() == "need default number"@,
        ActionErrorView::ContactsUnavailable.words() == "contacts unavailable"@,
        complaint(NormalizeErrorView::Empty) == "empty phone number"@,
        complaint(NormalizeErrorView::Invalid { raw: s }) == "invalid phone number: "@ + s,
        crate::modem::ModemErrorView::Failed(s).words() == "modem error: "@ + s,
        crate::modem::ModemErrorView::NotFound(s).words() == "modem not found: "@ + s,
{
}

/// Only a caller who gives the very key may call, and nobody may where there is no
/// key.
pub proof fn law_only_the_key_may_call(key: Seq<char>, given: Seq<char>)
    ensures
        key.len() > 0 ==> (may_call(Some(key), Some(given)) <==> given == key),
        !may_call(Some(key), None),
        !may_call(Some(Seq::empty()), Some(given)),
        !may_call(None, Some(given)),
{
}

/// Who is meant is what the request says, without the white space around the
/// number; a thread alone does not say it.
pub proof fn law_request_says_who_is_meant(
    lead: Seq<char>,
    number: Seq<char>,
    tail: Seq<char>,
    contact_id: Option<i64>,
    thread_id: Option<i32>,
    thread: i32,
    id: i64,
)
    requires
        blank(lead),
        solid(number),
        blank(tail),
    ensures
        identified(
            IdentityView { number: Some(lead + number + tail), contact_id, thread_id },
        ) == Ok::<IdentityView, ActionErrorView>(
            IdentityView { number: Some(number), contact_id, thread_id },
        ),
        identified(IdentityView { number: None, contact_id: Some(id), thread_id }) == Ok::<
            IdentityView,
            ActionErrorView,
        >(IdentityView { number: None, contact_id: Some(id), thread_id }),
        identified(IdentityView { number: None, contact_id: None, thread_id: Some(thread) })
            == Err::<IdentityView, ActionErrorView>(ActionErrorView::MissingIdentity),
{
    law_trimming_keeps_the_core(lead, number, tail);
}

/// The number to forward to is the text of the field; null turns it off; and
/// nothing, a blank or anything else is refused, each in its own words.
pub proof fn law_field_says_the_forwarding(f: ForwardField)
    ensures
        f matches ForwardField::Text(s) ==> (trimmed(s@).len() > 0 ==> forward_wanted(f) == Ok::<
            Option<Seq<char>>,
            ActionErrorView,
        >(Some(s@))),
        f is Null ==> forward_wanted(f) == Ok::<Option<Seq<char>>, ActionErrorView>(None),
        f matches ForwardField::Text(s) ==> (trimmed(s@).len() == 0 ==> forward_wanted(f) == Err::<
            Option<Seq<char>>,
            ActionErrorView,
        >(ActionErrorView::Validation("e164 must not be empty"@))),
        f is Missing ==> forward_wanted(f) == Err::<Option<Seq<char>>, ActionErrorView>(
            ActionErrorView::Validation("e164 is required"@),
        ),
        f is Other ==> forward_wanted(f) == Err::<Option<Seq<char>>, ActionErrorView>(
            ActionErrorView::Validation("e164 must be string or null"@),
        ),
{
}

/// What is wrong with a body is told.
pub proof fn law_wrong_bodies_are_told(p: BodyProblem)
    ensures
        p matches BodyProblem::Unreadable(s) ==> problem_words(p) == s@,
        p is NotJson ==> problem_words(p) == "expected request with content-type application/json"@,
        p is Other ==> problem_words(p) == "invalid request body"@,
{
}

// ---------------------------------------------------------------------------
// Numbers
// ---------------------------------------------------------------------------

/// Blanks and hyphens are left out of a number, and every other character stays
/// in its place.
pub proof fn law_only_marks_are_left_out(a: Seq<char>, b: Seq<char>, c: char)
    ensures
        cleaned(a + b) == cleaned(a) + cleaned(b),
        cleaned(seq![' ']) == Seq::<char>::empty(),
        cleaned(seq!['-']) == Seq::<char>::empty(),
        c != ' ' && c != '-' ==> cleaned(seq![c]) == seq![c],
{
    Seq::filter_distributes_over_add(a, b, dialling_mark());
    reveal(Seq::filter);
    lemma_cleaned_one(' ');
    lemma_cleaned_one('-');
    lemma_cleaned_one(c);
}

proof fn lemma_cleaned_one(c: char)
    ensures
        cleaned(seq![c]) == if c == ' ' || c == '-' {
            Seq::<char>::empty()
        } else {
            seq![c]
        },
{
    reveal(Seq::filter);
    assert(seq![c].drop_last() =~= Seq::<char>::empty());
    assert(Seq::<char>::empty().filter(dialling_mark()) =~= Seq::<char>::empty());
    assert(seq![c].last() == c);
    assert(cleaned(seq![c]) =~= if c == ' ' || c == '-' {
        Seq::<char>::empty()
    } else {
        seq![c]
    });
}

/// A number that begins as one of the country does without its plus is given the
/// plus; any other is taken as it is. One that holds nothing is refused as empty,
/// and one that cannot be dialled as it was written.
pub proof fn law_numbers_are_completed(raw: Seq<char>, e164: Seq<char>)
    ensures
        begins(cleaned(raw), "989"@) ==> to_parse(raw) == "+"@ + cleaned(raw),
        !begins(cleaned(raw), "989"@) ==> to_parse(raw) == cleaned(raw),
        cleaned(raw).len() == 0 ==> normalized_from(raw, Some(e164)) == Err::<
            Seq<char>,
            NormalizeErrorView,
        >(NormalizeErrorView::Empty),
        cleaned(raw).len() > 0 ==> normalized_from(raw, Some(e164)) == Ok::<
            Seq<char>,
            NormalizeErrorView,
        >(e164),
        cleaned(raw).len() > 0 ==> normalized_from(raw, None) == Err::<
            Seq<char>,
            NormalizeErrorView,
        >(NormalizeErrorView::Invalid { raw }),
{
}

/// Numbers are written in decimal digits, the last one last, with a sign where
/// they are below nothing.
pub proof fn law_numbers_are_written_in_digits(n: nat, d: nat)
    requires
        d < 10,
    ensures
        n > 0 ==> nat_text(10 * n + d) == nat_text(n) + nat_text(d),
        nat_text(0) == seq!['0'],
        nat_text(1) == seq!['1'],
        nat_text(9) == seq!['9'],
        n > 0 ==> int_text(-(n as int)) == seq!['-'] + nat_text(n),
        int_text(n as int) == nat_text(n),
{
    if n > 0 {
        assert((10 * n + d) / 10 == n);
        assert((10 * n + d) % 10 == d);
        assert(nat_text(10 * n + d) =~= nat_text(n) + nat_text(d));
    }
}

/// The value of digits is their decimal one.
pub proof fn law_value_is_decimal(s: Seq<char>)
    ensures
        value(Seq::empty()) == 0,
        value(s + seq!['0']) == 10 * value(s),
        value(s + seq!['1']) == 10 * value(s) + 1,
        value(s + seq!['5']) == 10 * value(s) + 5,
        value(s + seq!['9']) == 10 * value(s) + 9,
{
    assert((s + seq!['0']).drop_last() =~= s);
    assert((s + seq!['1']).drop_last() =~= s);
    assert((s + seq!['5']).drop_last() =~= s);
    assert((s + seq!['9']).drop_last() =~= s);
}

/// A number is read only from digits, with a sign before them at most, and only
/// within its bounds; what does not fit is not read.
pub proof fn law_numbers_are_read_from_digits(s: Seq<char>, lo: int, hi: int, n: int)
    requires
        lo <= 0 <= hi,
    ensures
        parsed(s, lo, hi) matches Some(v) ==> lo <= v <= hi && s.len() > 0 && (is_digit(s[0])
            || s[0] == '+' || s[0] == '-') && all_digits(s.skip(1)),
        s.len() > 0 && all_digits(s) && value(s) <= hi ==> parsed(s, lo, hi) == Some(
            value(s) as int,
        ),
        s.len() > 0 && all_digits(s) && value(s) > hi ==> parsed(s, lo, hi) is None,
        s.len() == 0 ==> parsed(s, lo, hi) is None,
{
    if s.len() > 0 {
        if all_digits(s) {
            assert(is_digit(s[0]));
        }
        if parsed(s, lo, hi) is Some {
            if s[0] != '+' && !(lo < 0 && s[0] == '-') {
                assert(is_digit(s[0]));
                assert forall|i: int| 0 <= i < s.skip(1).len() implies is_digit(
                    #[trigger] s.skip(1)[i],
                ) by {
                    assert(s.skip(1)[i] == s[i + 1]);
                }
            }
        }
    }
}

// ---------------------------------------------------------------------------
// Buttons
// ---------------------------------------------------------------------------

/// Every number has a button of its own, which shows it; they are in the order of
/// the numbers.
pub proof fn law_every_number_has_a_button(numbers: Seq<Seq<char>>, i: int)
    ensures
        ({
            let card = which_number(numbers);
            &&& card.text == "which number?"@
            &&& card.keyboard matches Some(rows) && rows.len() == numbers.len() && (0 <= i
                < numbers.len() ==> rows[i] == seq![(numbers[i], "num:"@ + numbers[i])])
        }),
{
}

/// The first twenty contacts that were found have a button each, which shows the
/// name.
pub proof fn law_every_hit_has_a_button(hits: Seq<ContactView>, i: int, e: ActionErrorView)
    ensures
        hits.len() > 0 ==> {
            let card = search_answer(Ok(hits));
            &&& card.keyboard matches Some(rows) && rows.len() <= 20 && (hits.len() <= 20
                ==> rows.len() == hits.len()) && (hits.len() > 20 ==> rows.len() == 20) && (0 <= i
                < rows.len() && 1 <= hits[i].display_name.len() <= 64 ==> rows[i]
                == seq![(hits[i].display_name, "cf:c:"@ + int_text(hits[i].id as int))])
        },
        hits.len() == 0 ==> search_answer(Ok(hits)).keyboard is None,
        hits.len() == 0 ==> search_answer(Ok(hits)).text == escaped("no matches"@),
        search_answer(Err(e)).text == escaped(e.words()),
        search_answer(Err(e)).keyboard is None,
{
    if hits.len() > 0 && 0 <= i < hits.len() && hits[i].display_name.len() <= 64 {
        assert(head(hits[i].display_name, 64) =~= hits[i].display_name);
    }
}

/// The name on a button is its first sixty-four characters, and a mark where there
/// is no name.
pub proof fn law_names_fit_on_buttons(name: Seq<char>, c: ContactView, prefix: Seq<char>)
    ensures
        name.len() == 0 ==> label(name) == "?"@,
        1 <= name.len() <= 64 ==> label(name) == name,
        name.len() > 64 ==> label(name) == name.take(64),
        contact_row(prefix)(c) == seq![(label(c.display_name), prefix + int_text(c.id as int))],
        number_row(prefix)(name) == seq![(name, prefix + name)],
{
    if name.len() > 0 {
        assert(head(name, 64) =~= if name.len() <= 64 {
            name
        } else {
            name.take(64)
        });
    }
}

/// What is typed after the bot's name is answered with the first twenty contacts
/// that were found, each under its id, with its name and its first number; with
/// nothing where nothing was typed; and with the reason where nobody can be found.
pub proof fn law_typed_query_is_answered(query: Seq<char>, hits: Seq<ContactView>, i: int)
    requires
        trimmed(query).len() > 0,
    ensures
        ({
            let shown = inline_answer(query, Some(hits));
            &&& hits.len() <= 20 ==> shown.len() == hits.len()
            &&& hits.len() > 20 ==> shown.len() == 20
            &&& 0 <= i < shown.len() ==> shown[i].0 == int_text(hits[i].id as int) && shown[i].1
                == hits[i].display_name && (hits[i].numbers.len() > 0 ==> shown[i].2
                == hits[i].numbers[0]) && (hits[i].numbers.len() == 0 ==> shown[i].2.len() == 0)
        }),
        inline_answer(query, None) == seq![
            ("unavailable"@, "contacts unavailable"@, Seq::<char>::empty()),
        ],
        forall|blanks: Seq<char>| #[trigger]
            trimmed(blanks).len() == 0 ==> inline_answer(blanks, Some(hits)).len() == 0,
{
}

/// The buttons of the dialogue.
pub proof fn law_dialogue_has_four_buttons()
    ensures
        forward_buttons().len() == 2,
        forward_buttons()[0] == seq![
            ("Pick contact"@, "cf:search"@),
            ("Type number"@, "cf:type"@),
        ],
        forward_buttons()[1] == seq![("Disable"@, "cf:off"@), ("Cancel"@, "cf:cancel"@)],
{
}

// ---------------------------------------------------------------------------
// The dialogue
// ---------------------------------------------------------------------------

/// A dialogue waits in the thread.
pub open spec fn waits(t: Tables, thread_id: i32, pending: PendingForward) -> bool {
    exists|i: int|
        0 <= i < t.forwards.len() && (#[trigger] t.forwards[i]).0 == thread_id && t.forwards[i].1
            == pending
}

proof fn lemma_waits(t: Tables, thread_id: i32, pending: PendingForward)
    requires
        t.wf(),
    ensures
        waits(t, thread_id, pending) ==> forward_in(t, thread_id) == Some(pending),
        (forall|i: int| 0 <= i < t.forwards.len() ==> (#[trigger] t.forwards[i]).0 != thread_id)
            ==> forward_in(t, thread_id) is None,
{
    if waits(t, thread_id, pending) {
        let i = choose|i: int|
            0 <= i < t.forwards.len() && (#[trigger] t.forwards[i]).0 == thread_id
                && t.forwards[i].1 == pending;
        assert forall|j: int| 0 <= j < i implies !dialogue_in(thread_id)(
            #[trigger] t.forwards[j],
        ) by {
            assert(t.forwards[j].0 != t.forwards[i].0);
        }
        lemma_first_at(t.forwards, dialogue_in(thread_id), i);
    }
    if forall|i: int| 0 <= i < t.forwards.len() ==> (#[trigger] t.forwards[i]).0 != thread_id {
        crate::laws::found::lemma_first_none(t.forwards, dialogue_in(thread_id));
    }
}

/// In the thread where the dialogue waits for a number, the text is the number to
/// forward to; where it waits for a name, the contacts of that name are looked
/// for; and elsewhere the text is none of the dialogue's.
pub proof fn law_dialogue_reads_the_text(
    t: Tables,
    region: Seq<char>,
    thread_id: i32,
    pending: PendingForward,
    text: Seq<char>,
    e164: Seq<char>,
    e: NormalizeErrorView,
)
    requires
        t.wf(),
        !begins(text, "/"@),
    ensures
        waits(t, thread_id, pending) && pending.mode == PendingForwardMode::Number && normalized(
            text,
            region,
        ) == Ok::<Seq<char>, NormalizeErrorView>(e164) ==> forward_text(t, region, thread_id, text)
            == (ForwardTextView::Ask { pending, request: ForwardRequestView::Enable(e164) }),
        waits(t, thread_id, pending) && pending.mode == PendingForwardMode::Number && normalized(
            text,
            region,
        ) == Err::<Seq<char>, NormalizeErrorView>(e) ==> forward_text(t, region, thread_id, text)
            == (ForwardTextView::Refused {
            pending,
            error: ActionErrorView::InvalidNumber(complaint(e)),
        }),
        waits(t, thread_id, pending) && pending.mode == PendingForwardMode::Search ==> forward_text(
            t,
            region,
            thread_id,
            text,
        ) == (ForwardTextView::Found {
            pending,
            hits: crate::actions::search::search_result(t, text),
        }),
        (forall|i: int| 0 <= i < t.forwards.len() ==> (#[trigger] t.forwards[i]).0 != thread_id)
            ==> forward_text(t, region, thread_id, text) == ForwardTextView::NotForUs,
{
    lemma_waits(t, thread_id, pending);
}

/// A tap has the modem do what its button says, or shows what is to be sent next.
/// The button of a contact with one number asks for that number, with several it
/// shows them, each on a button of its own.
pub proof fn law_dialogue_does_what_its_buttons_say(
    t: Tables,
    region: Seq<char>,
    k: int,
    e164: Seq<char>,
    raw: Seq<char>,
)
    requires
        t.wf(),
        normalized(raw, region) == Ok::<Seq<char>, NormalizeErrorView>(e164),
    ensures
        forward_tapped(t, region, CfActionView::Disable) == ForwardTapView::Ask(
            ForwardRequestView::Disable,
        ),
        forward_tapped(t, region, CfActionView::Number(raw)) == ForwardTapView::Ask(
            ForwardRequestView::Enable(e164),
        ),
        forward_tapped(t, region, CfActionView::Cancel) == (ForwardTapView::Show {
            text: "cancelled"@,
            keyboard: None,
        }),
        forward_tapped(t, region, CfActionView::TypeNumber) == (ForwardTapView::Show {
            text: "send the number to forward calls to"@,
            keyboard: None,
        }),
        forward_tapped(t, region, CfActionView::Search) == (ForwardTapView::Show {
            text: "send a name to search for"@,
            keyboard: None,
        }),
        0 <= k < t.contacts.len() ==> {
            let tap = forward_tapped(t, region, CfActionView::Contact(t.contacts[k].id as int));
            let numbers = numbers_of(t, t.contacts[k].id);
            &&& numbers == seq![raw] ==> tap == ForwardTapView::Ask(
                ForwardRequestView::Enable(e164),
            )
            &&& numbers.len() == 0 ==> tap == (ForwardTapView::Show {
                text: "no numbers"@,
                keyboard: None,
            })
            &&& numbers.len() > 1 ==> tap == (ForwardTapView::Show {
                text: "which number?"@,
                keyboard: Some(
                    Seq::new(
                        numbers.len(),
                        |j: int| seq![(numbers[j], "cf:n:"@ + numbers[j])],
                    ),
                ),
            })
        },
{
    if 0 <= k < t.contacts.len() {
        law_id_finds_its_contact(t, k, t.contacts[k].id);
        let numbers = numbers_of(t, t.contacts[k].id);
        assert(numbers.map_values(number_row("cf:n:"@)) =~= Seq::new(
            numbers.len(),
            |j: int| seq![(numbers[j], "cf:n:"@ + numbers[j])],
        ));
    }
}

/// A dialogue waits for a number or a name after the tap that says so, in that
/// thread and for that message; it ends when it is cancelled and when the modem
/// has done what was asked, and not when that failed.
pub proof fn law_dialogue_waits_and_ends(
    t: Tables,
    thread_id: i32,
    chat_id: i64,
    message_id: i32,
    state: CallForwardStateView,
    e: crate::modem::ModemErrorView,
    i: int,
)
    ensures
        ({
            let number = forward_tap_after(
                t,
                thread_id,
                chat_id,
                message_id,
                CfActionView::TypeNumber,
            );
            let name = forward_tap_after(t, thread_id, chat_id, message_id, CfActionView::Search);
            let over = forward_tap_after(t, thread_id, chat_id, message_id, CfActionView::Cancel);
            &&& number.forwards.last() == (
                thread_id,
                PendingForward {
                    mode: PendingForwardMode::Number,
                    edit_chat_id: chat_id,
                    edit_message_id: message_id,
                },
            )
            &&& name.forwards.last() == (
                thread_id,
                PendingForward {
                    mode: PendingForwardMode::Search,
                    edit_chat_id: chat_id,
                    edit_message_id: message_id,
                },
            )
            &&& 0 <= i < over.forwards.len() ==> over.forwards[i].0 != thread_id
            &&& forward_settled(t, thread_id, Ok(state)) == over
        }),
        forward_settled(t, thread_id, Err(e)) == t,
        0 <= i < t.forwards.len() && t.forwards[i].0 != thread_id ==> forward_settled(
            t,
            thread_id,
            Ok(state),
        ).forwards.contains(t.forwards[i]),
{
    let p = dialogue_elsewhere(thread_id);
    let over = t.forwards.filter(p);
    if 0 <= i < over.len() {
        let k = crate::laws::found::lemma_filter_from(t.forwards, p, i);
    }
    if 0 <= i < t.forwards.len() && t.forwards[i].0 != thread_id {
        let a = lemma_filter_keeps(t.forwards, p, i);
    }
}

// ---------------------------------------------------------------------------
// Cards
// ---------------------------------------------------------------------------

/// The status is shown as it was made up, with a button to make it up again; a
/// failure is told in its words.
pub proof fn law_status_is_shown(html: Seq<char>, e: DbErrorView)
    ensures
        status_answer(Ok(html)).text == html,
        status_answer(Ok(html)).html,
        status_answer(Ok(html)).keyboard == Some(seq![seq![("🔄 Refresh"@, "st:r"@)]]),
        status_answer(Err(e)).text == "status failed: "@ + e.words(),
        !status_answer(Err(e)).html,
        status_answer(Err(e)).keyboard is None,
{
}

/// A change of forwarding is told on the card as the status tells it, and a
/// failure in its words.
pub proof fn law_change_is_shown(
    t: Tables,
    e164: Seq<char>,
    name: Seq<char>,
    k: int,
    e: ActionErrorView,
)
    ensures
        ({
            let on = CallForwardStateView { enabled: true, e164: Some(e164) };
            let off = CallForwardStateView { enabled: false, e164: None };
            &&& crate::laws::found::owner_at(t, e164, k) ==> change_answer(t, Ok(on)).text
                == "↪️ Forward · "@ + escaped(t.contacts[k].display_name)
            &&& crate::laws::found::nobodys_number(t, e164) ==> change_answer(t, Ok(on)).text
                == "↪️ Forward · "@ + escaped(e164)
            &&& change_answer(t, Ok(off)).text == "↪️ Forward · off"@
            &&& change_answer(t, Err(e)).text == escaped(e.words())
        }),
        change_answer(t, Err(e)).keyboard is None,
        change_answer(t, Err(e)).html,
{
    crate::laws::found::law_number_finds_its_contact(t, e164, k);
}

/// A card that took the place of a message, or would have changed nothing, is
/// done; one that could not is sent anew, let go or an error, as it says itself.
pub proof fn law_cards_are_shown_or_followed(message: Seq<char>, unedited: Unedited)
    ensures
        edit_followed(unedited, EditOutcomeView::Edited) == CardStep::Done,
        edit_followed(unedited, EditOutcomeView::Refused { not_modified: true, message })
            == CardStep::Done,
        ({
            let refused = EditOutcomeView::Refused { not_modified: false, message };
            let same = crate::text::holds(message, "message is not modified"@);
            &&& same ==> edit_followed(unedited, refused) == CardStep::Done
            &&& !same ==> edit_followed(Unedited::SendNew, refused) == CardStep::Send
            &&& !same ==> edit_followed(Unedited::LetGo, refused) == CardStep::Done
            &&& !same ==> edit_followed(Unedited::Fail, refused) == CardStep::Failed
        }),
{
}

} // verus!
