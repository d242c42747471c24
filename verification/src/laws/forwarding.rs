//! What is read from the replies about call forwarding, what is dialled and what
//! is answered, said of the texts.
use vstd::prelude::*;

use crate::actions::forward::{forward_for, forward_outcome, ForwardRequestView};
use crate::actions::ActionErrorView;
use crate::call_forward::{
    about_forwarding, best_run, ccfc_amounts, ccfc_body, ccfc_reply, ccfc_saying, ccfc_says,
    ccfc_says_with, digit_run, digit_runs, error_line, goes_nowhere, holds_any, last_number,
    named_number, not_digit, off_words, on_words, plus_number, unquoted, unquoted_end,
    unquoted_start, unreadable, ussd_reply, ussd_says, CallForwardStateView, CcfcLineView,
};
use crate::decimal::{all_digits, parsed};
use crate::laws::found::{lemma_first_at, lemma_first_none};
use crate::laws::texts::{joined, law_joined_pieces_split, law_what_follows_a_prefix};
use crate::modem::ModemErrorView;
use crate::modem_mm::{enabling, forward_next_with, ForwardFlowView, ForwardStepView};
use crate::normalize::{complaint, normalized, NormalizeErrorView};
use crate::rows::{lemma_find, lemma_find_is};
use crate::text::{after_prefix, digits_of, holds, is_digit, lower, split, trimmed, upper};

verus! {

// ---------------------------------------------------------------------------
// The number in a text
// ---------------------------------------------------------------------------

/// Digits, and no digit after them.
proof fn lemma_digit_run(digits: Seq<char>, rest: Seq<char>)
    requires
        all_digits(digits),
        rest.len() > 0 ==> !is_digit(rest[0]),
    ensures
        digit_run(digits + rest) == digits.len(),
{
    let s = digits + rest;
    assert forall|j: int| 0 <= j < digits.len() implies !not_digit()(#[trigger] s[j]) by {
        assert(s[j] == digits[j]);
    }
    if rest.len() > 0 {
        assert(s[digits.len() as int] == rest[0]);
    }
    lemma_find_is(s, not_digit(), digits.len() as int);
}

/// A plus with eight or more digits behind it is the number of the text, with all
/// its digits and whatever stands around it.
pub proof fn law_plus_number_is_found(lead: Seq<char>, digits: Seq<char>, rest: Seq<char>)
    requires
        !lead.contains('+'),
        all_digits(digits),
        digits.len() >= 8,
        rest.len() > 0 ==> !is_digit(rest[0]),
    ensures
        plus_number(lead + seq!['+'] + digits + rest) == Some(seq!['+'] + digits),
        named_number(lead + seq!['+'] + digits + rest) == Some(seq!['+'] + digits),
    decreases lead.len(),
{
    let s = lead + seq!['+'] + digits + rest;
    if lead.len() == 0 {
        assert(s.skip(1) =~= digits + rest);
        lemma_digit_run(digits, rest);
        assert(s[0] == '+');
        assert(s.take(1 + digits.len() as int) =~= seq!['+'] + digits);
    } else {
        assert(lead.contains(lead[0]));
        assert(s[0] == lead[0]);
        let less = lead.skip(1);
        assert(!less.contains('+')) by {
            if less.contains('+') {
                let k = less.index_of('+');
                assert(lead[k + 1] == '+');
            }
        }
        law_plus_number_is_found(less, digits, rest);
        assert(s.skip(1) =~= less + seq!['+'] + digits + rest);
    }
}

/// Without a plus there is no number with one.
pub proof fn law_no_plus_no_plus_number(s: Seq<char>)
    requires
        !s.contains('+'),
    ensures
        plus_number(s) is None,
    decreases s.len(),
{
    if s.len() > 0 {
        assert(s.contains(s[0]));
        assert(!s.skip(1).contains('+')) by {
            if s.skip(1).contains('+') {
                let k = s.skip(1).index_of('+');
                assert(s[k + 1] == '+');
            }
        }
        law_no_plus_no_plus_number(s.skip(1));
    }
}

/// The runs of digits of a text are those that stand in it, in their order.
pub proof fn law_digit_runs_are_those_of_the_text(
    lead: Seq<char>,
    digits: Seq<char>,
    rest: Seq<char>,
)
    requires
        forall|i: int| 0 <= i < lead.len() ==> !is_digit(#[trigger] lead[i]),
        all_digits(digits),
        rest.len() > 0 ==> !is_digit(rest[0]),
    ensures
        digits.len() > 0 ==> digit_runs(lead + digits + rest) == seq![digits] + digit_runs(rest),
        digit_runs(lead) == Seq::<Seq<char>>::empty(),
    decreases lead.len(),
{
    let s = lead + digits + rest;
    if lead.len() == 0 {
        assert(s =~= digits + rest);
        lemma_digit_run(digits, rest);
        if digits.len() > 0 {
            assert(s.take(digits.len() as int) =~= digits);
            assert(s.skip(digits.len() as int) =~= rest);
        }
        assert(lead =~= Seq::<char>::empty());
    } else {
        let less = lead.skip(1);
        assert forall|i: int| 0 <= i < less.len() implies !is_digit(#[trigger] less[i]) by {
            assert(less[i] == lead[i + 1]);
        }
        law_digit_runs_are_those_of_the_text(less, digits, rest);
        assert(!is_digit(lead[0]));
        assert(s[0] == lead[0]);
        lemma_find_is(s, not_digit(), 0);
        lemma_find_is(lead, not_digit(), 0);
        assert(s.skip(1) =~= less + digits + rest);
    }
}

/// Of the runs of ten or more digits the longest is taken, and of the longest the
/// first.
pub proof fn law_longest_run_is_taken(runs: Seq<Seq<char>>)
    ensures
        best_run(runs) is None <==> forall|i: int|
            0 <= i < runs.len() ==> (#[trigger] runs[i]).len() < 10,
        best_run(runs) matches Some(best) ==> exists|k: int|
            {
                &&& 0 <= k < runs.len()
                &&& #[trigger] runs[k] == best
                &&& best.len() >= 10
                &&& forall|i: int| 0 <= i < runs.len() ==> (#[trigger] runs[i]).len() <= best.len()
                &&& forall|i: int| 0 <= i < k ==> (#[trigger] runs[i]).len() < best.len()
            },
    decreases runs.len(),
{
    if runs.len() > 0 {
        let front = runs.drop_last();
        law_longest_run_is_taken(front);
        assert forall|i: int| 0 <= i < front.len() implies #[trigger] front[i] == runs[i] by {}
        let n = runs.len() - 1;
        assert(runs[n] == runs.last());
        match best_run(front) {
            None => {
                assert forall|i: int| 0 <= i < n implies (#[trigger] runs[i]).len() < 10 by {
                    assert(front[i] == runs[i]);
                }
            },
            Some(best) => {
                let k = choose|k: int|
                    {
                        &&& 0 <= k < front.len()
                        &&& #[trigger] front[k] == best
                        &&& best.len() >= 10
                        &&& forall|i: int|
                            0 <= i < front.len() ==> (#[trigger] front[i]).len() <= best.len()
                        &&& forall|i: int| 0 <= i < k ==> (#[trigger] front[i]).len() < best.len()
                    };
                assert(runs[k] == best);
                assert forall|i: int| 0 <= i < n implies (#[trigger] runs[i]).len()
                    <= best.len() by {
                    assert(front[i] == runs[i]);
                }
                assert forall|i: int| 0 <= i < k implies (#[trigger] runs[i]).len()
                    < best.len() by {
                    assert(front[i] == runs[i]);
                }
            },
        }
    }
}

/// A text without a plus names its longest run of digits.
pub proof fn law_text_names_its_longest_run(s: Seq<char>)
    requires
        !s.contains('+'),
    ensures
        named_number(s) == best_run(digit_runs(s)),
{
    law_no_plus_no_plus_number(s);
}

// ---------------------------------------------------------------------------
// Replies
// ---------------------------------------------------------------------------

/// A reply that says that forwarding is off is read as that, whatever number it
/// names.
pub proof fn law_off_words_are_read(
    text: Seq<char>,
    number: Option<Result<Seq<char>, NormalizeErrorView>>,
)
    requires
        ({
            let low = lower(text);
            ||| holds(low, "not forwarded"@)
            ||| holds(low, "not activated"@)
            ||| holds(low, "deactivated"@)
            ||| holds(low, "disabled"@)
            ||| holds(low, "not active"@)
            ||| holds(low, "inactive"@)
            ||| holds(low, "erased"@)
            ||| holds(low, "cancelled"@)
            ||| holds(low, "canceled"@)
        }),
    ensures
        ussd_says(text, number) == Ok::<CallForwardStateView, Seq<char>>(
            CallForwardStateView { enabled: false, e164: None },
        ),
{
    let words = off_words();
    assert(holds(lower(text), words[0]) || holds(lower(text), words[1]) || holds(
        lower(text),
        words[2],
    ) || holds(lower(text), words[3]) || holds(lower(text), words[4]) || holds(
        lower(text),
        words[5],
    ) || holds(lower(text), words[6]) || holds(lower(text), words[7]) || holds(
        lower(text),
        words[8],
    ));
}

/// A reply that says nothing of the kind, and that forwarding is on, gives the
/// number that it names; without a number, or with one that is none, it is an
/// error. A reply that says neither is an error, in which it stands.
pub proof fn law_on_words_give_the_number(
    text: Seq<char>,
    e164: Seq<char>,
    e: NormalizeErrorView,
    number: Option<Result<Seq<char>, NormalizeErrorView>>,
)
    requires
        ({
            let low = lower(text);
            &&& !holds(low, "not forwarded"@)
            &&& !holds(low, "not activated"@)
            &&& !holds(low, "deactivated"@)
            &&& !holds(low, "disabled"@)
            &&& !holds(low, "not active"@)
            &&& !holds(low, "inactive"@)
            &&& !holds(low, "erased"@)
            &&& !holds(low, "cancelled"@)
            &&& !holds(low, "canceled"@)
        }),
    ensures
        ({
            let low = lower(text);
            let on = holds(low, "forwarded"@) || holds(low, "activated"@) || holds(low, "active"@)
                || holds(low, "unconditional"@);
            &&& on ==> ussd_says(text, Some(Ok(e164))) == Ok::<CallForwardStateView, Seq<char>>(
                CallForwardStateView { enabled: true, e164: Some(e164) },
            )
            &&& on ==> ussd_says(text, Some(Err(e))) == Err::<CallForwardStateView, Seq<char>>(
                complaint(e),
            )
            &&& on ==> ussd_says(text, None) == Err::<CallForwardStateView, Seq<char>>(
                "ussd reply looks enabled but has no number: "@ + text,
            )
            &&& !on ==> ussd_says(text, number) == Err::<CallForwardStateView, Seq<char>>(
                "unparseable ussd reply: "@ + text,
            )
        }),
{
    let low = lower(text);
    let off = off_words();
    assert(!holds_any(low, off)) by {
        if holds_any(low, off) {
            let i = choose|i: int| 0 <= i < off.len() && holds(low, #[trigger] off[i]);
            assert(i == 0 || i == 1 || i == 2 || i == 3 || i == 4 || i == 5 || i == 6 || i == 7
                || i == 8);
        }
    }
    let on = on_words();
    assert(holds_any(low, on) == (holds(low, on[0]) || holds(low, on[1]) || holds(low, on[2])
        || holds(low, on[3]))) by {
        if holds_any(low, on) {
            let i = choose|i: int| 0 <= i < on.len() && holds(low, #[trigger] on[i]);
            assert(i == 0 || i == 1 || i == 2 || i == 3);
        }
    }
}

/// A reply is read with the number that it names, written in full.
pub proof fn law_reply_is_read_with_its_number(
    text: Seq<char>,
    region: Seq<char>,
    number: Seq<char>,
)
    ensures
        named_number(text) == Some(number) ==> ussd_reply(text, region) == ussd_says(
            text,
            Some(normalized(number, region)),
        ),
        named_number(text) is None ==> ussd_reply(text, region) == ussd_says(text, None),
{
}

/// Marks of quotation around a text are taken off, all of them.
pub proof fn law_quotes_are_taken_off(lead: Seq<char>, core: Seq<char>, tail: Seq<char>)
    requires
        forall|i: int| 0 <= i < lead.len() ==> #[trigger] lead[i] == '"',
        forall|i: int| 0 <= i < tail.len() ==> #[trigger] tail[i] == '"',
        core.len() > 0,
        core[0] != '"',
        core.last() != '"',
    ensures
        unquoted(lead + core + tail) == core,
    decreases lead.len() + tail.len(),
{
    let s = lead + core + tail;
    if lead.len() > 0 {
        assert(s[0] == lead[0]);
        assert(s.skip(1) =~= lead.skip(1) + core + tail);
        law_quotes_are_taken_off(lead.skip(1), core, tail);
    } else {
        assert(s =~= core + tail);
        assert(s[0] == core[0]);
        assert(unquoted_start(s) == s);
        lemma_quotes_end(core, tail);
    }
}

proof fn lemma_quotes_end(core: Seq<char>, tail: Seq<char>)
    requires
        forall|i: int| 0 <= i < tail.len() ==> #[trigger] tail[i] == '"',
        core.len() > 0,
        core.last() != '"',
    ensures
        unquoted_end(core + tail) == core,
    decreases tail.len(),
{
    let s = core + tail;
    if tail.len() > 0 {
        assert(s.last() == tail.last());
        assert(tail[tail.len() - 1] == '"');
        assert(s.drop_last() =~= core + tail.drop_last());
        lemma_quotes_end(core, tail.drop_last());
    } else {
        assert(s =~= core);
    }
}

/// A line of the reply tells the state in its first field and the number in its
/// third: forwarding is on where the first is one.
pub proof fn law_line_tells_state_and_number(
    line: Seq<char>,
    rest: Seq<char>,
    fields: Seq<Seq<char>>,
    number: Result<Seq<char>, NormalizeErrorView>,
    status: int,
)
    requires
        trimmed(line) == "+CCFC:"@ + rest || trimmed(line) == "+ccfc:"@ + rest,
        fields.len() > 0,
        forall|i: int, j: int|
            0 <= i < fields.len() && 0 <= j < fields[i].len() ==> (#[trigger] fields[i][j]) != ',',
        trimmed(rest) == joined(fields, ','),
    ensures
        ({
            let says = ccfc_says_with(line, number);
            let first = parsed(trimmed(fields[0]), 0, 0xffff_ffff);
            let named = fields.len() >= 3 && unquoted(trimmed(fields[2])).len() > 0;
            &&& first is None ==> says == CcfcLineView::Bad(
                "bad +CCFC status in: "@ + trimmed(line),
            )
            &&& first is Some && first != Some(1int) ==> says == CcfcLineView::Inactive
            &&& first == Some(1int) && !named ==> says == CcfcLineView::Nowhere
            &&& first == Some(1int) && named && number is Ok ==> says == CcfcLineView::To(
                number->Ok_0,
            )
            &&& first == Some(1int) && named && number is Err ==> says == CcfcLineView::Bad(
                complaint(number->Err_0),
            )
        }),
{
    law_joined_pieces_split(fields, ',');
    let t = trimmed(line);
    reveal_strlit("+CCFC:");
    reveal_strlit("+ccfc:");
    if t == "+CCFC:"@ + rest {
        law_what_follows_a_prefix("+CCFC:"@, rest, t);
    } else {
        law_what_follows_a_prefix("+ccfc:"@, rest, t);
        assert(t[1] == 'c');
        assert(after_prefix(t, "+CCFC:"@) is None) by {
            if after_prefix(t, "+CCFC:"@) is Some {
                assert(t.take("+CCFC:"@.len() as int)[1] == "+CCFC:"@[1]);
            }
        }
    }
    assert(ccfc_body(line) == Some(rest));
}

/// A line that begins with neither is about something else.
pub proof fn law_other_lines_are_let_go(
    line: Seq<char>,
    number: Result<Seq<char>, NormalizeErrorView>,
)
    requires
        after_prefix(trimmed(line), "+CCFC:"@) is None,
        after_prefix(trimmed(line), "+ccfc:"@) is None,
    ensures
        ccfc_says_with(line, number) == CcfcLineView::Other,
{
}

/// The last number that the lines give is the one that calls go to, as long as
/// every line can be read; the first that cannot is the error.
pub proof fn law_lines_give_the_last_number(
    text: Seq<char>,
    lines: Seq<CcfcLineView>,
    k: int,
    e164: Seq<char>,
    words: Seq<char>,
)
    requires
        0 <= k < lines.len(),
    ensures
        lines[k] == CcfcLineView::Bad(words) && (forall|i: int|
            0 <= i < k ==> !((#[trigger] lines[i]) is Bad)) ==> ccfc_amounts(text, lines) == Err::<
            CallForwardStateView,
            Seq<char>,
        >(words),
        lines[k] == CcfcLineView::To(e164) && (forall|i: int|
            0 <= i < lines.len() ==> !((#[trigger] lines[i]) is Bad)) && (forall|i: int|
            k < i < lines.len() ==> !((#[trigger] lines[i]) is To)) ==> ccfc_amounts(text, lines)
            == Ok::<CallForwardStateView, Seq<char>>(
            CallForwardStateView { enabled: true, e164: Some(e164) },
        ),
{
    if lines[k] == CcfcLineView::Bad(words) && (forall|i: int|
        0 <= i < k ==> !((#[trigger] lines[i]) is Bad)) {
        lemma_first_at(lines, unreadable(), k);
    }
    if lines[k] == CcfcLineView::To(e164) && (forall|i: int|
        0 <= i < lines.len() ==> !((#[trigger] lines[i]) is Bad)) && (forall|i: int|
        k < i < lines.len() ==> !((#[trigger] lines[i]) is To)) {
        lemma_first_none(lines, unreadable());
        lemma_last_number(lines, k, e164);
    }
}

proof fn lemma_last_number(lines: Seq<CcfcLineView>, k: int, e164: Seq<char>)
    requires
        0 <= k < lines.len(),
        lines[k] == CcfcLineView::To(e164),
        forall|i: int| k < i < lines.len() ==> !((#[trigger] lines[i]) is To),
    ensures
        last_number(lines) == Some(e164),
    decreases lines.len(),
{
    if k < lines.len() - 1 {
        assert(!(lines[lines.len() - 1] is To));
        let front = lines.drop_last();
        assert forall|i: int| k < i < front.len() implies !((#[trigger] front[i]) is To) by {
            assert(front[i] == lines[i]);
        }
        lemma_last_number(front, k, e164);
    }
}

proof fn lemma_no_number(lines: Seq<CcfcLineView>)
    requires
        forall|i: int| 0 <= i < lines.len() ==> !((#[trigger] lines[i]) is To),
    ensures
        last_number(lines) is None,
    decreases lines.len(),
{
    if lines.len() > 0 {
        assert(!(lines[lines.len() - 1] is To));
        let front = lines.drop_last();
        assert forall|i: int| 0 <= i < front.len() implies !((#[trigger] front[i]) is To) by {
            assert(front[i] == lines[i]);
        }
        lemma_no_number(front);
    }
}

/// Lines that can all be read and give no number: where one says that calls go
/// nowhere it is an error; where one is about forwarding, or the text says that
/// all is well, forwarding is off; and otherwise nothing was said.
pub proof fn law_lines_without_a_number(text: Seq<char>, lines: Seq<CcfcLineView>)
    requires
        forall|i: int|
            0 <= i < lines.len() ==> !((#[trigger] lines[i]) is Bad) && !(lines[i] is To),
    ensures
        ({
            let said = ccfc_amounts(text, lines);
            let nowhere = exists|i: int| 0 <= i < lines.len() && (#[trigger] lines[i]) is Nowhere;
            let inactive = exists|i: int| 0 <= i < lines.len() && (#[trigger] lines[i]) is Inactive;
            let off: Result<CallForwardStateView, Seq<char>> = Ok(
                CallForwardStateView { enabled: false, e164: None },
            );
            &&& nowhere ==> said == Err::<CallForwardStateView, Seq<char>>(
                "AT+CCFC reports active but has no number: "@ + text,
            )
            &&& !nowhere && (inactive || holds(upper(text), "OK"@)) ==> said == off
            &&& !nowhere && !inactive && !holds(upper(text), "OK"@) ==> said == Err::<
                CallForwardStateView,
                Seq<char>,
            >("unparseable AT+CCFC reply: "@ + text)
        }),
{
    lemma_first_none(lines, unreadable());
    lemma_no_number(lines);
    lemma_find(lines, goes_nowhere());
    lemma_find(lines, about_forwarding());
    if exists|i: int| 0 <= i < lines.len() && (#[trigger] lines[i]) is Nowhere {
        let i = choose|i: int| 0 <= i < lines.len() && (#[trigger] lines[i]) is Nowhere;
        assert(goes_nowhere()(lines[i]));
    } else {
        if exists|i: int| 0 <= i < lines.len() && (#[trigger] lines[i]) is Inactive {
            let i = choose|i: int| 0 <= i < lines.len() && (#[trigger] lines[i]) is Inactive;
            assert(about_forwarding()(lines[i]));
        }
    }
}

/// A reply that reports an error is one, in which it stands; any other is read
/// line by line.
pub proof fn law_reply_is_read_line_by_line(text: Seq<char>, region: Seq<char>, k: int)
    ensures
        holds(upper(text), "+CME ERROR"@) ==> ccfc_reply(text, region) == Err::<
            CallForwardStateView,
            Seq<char>,
        >("AT+CCFC error: "@ + text),
        0 <= k < split(upper(text), '\n').len() && (trimmed(split(upper(text), '\n')[k]) == "ERROR"@
            || trimmed(split(upper(text), '\n')[k]) == "NO CARRIER"@) ==> ccfc_reply(text, region)
            == Err::<CallForwardStateView, Seq<char>>("AT+CCFC error: "@ + text),
        !holds(upper(text), "+CME ERROR"@) && (forall|i: int|
            0 <= i < split(upper(text), '\n').len() ==> trimmed(
                #[trigger] split(upper(text), '\n')[i],
            ) != "ERROR"@ && trimmed(split(upper(text), '\n')[i]) != "NO CARRIER"@) ==> ccfc_reply(
            text,
            region,
        ) == ccfc_amounts(
            text,
            Seq::new(
                split(text, '\n').len(),
                |i: int| ccfc_says(split(text, '\n')[i], region),
            ),
        ),
{
    let lines = split(upper(text), '\n');
    lemma_find(lines, error_line());
    if 0 <= k < lines.len() && (trimmed(lines[k]) == "ERROR"@ || trimmed(lines[k])
        == "NO CARRIER"@) {
        assert(error_line()(lines[k]));
    }
    assert(split(text, '\n').map_values(ccfc_saying(region)) =~= Seq::new(
        split(text, '\n').len(),
        |i: int| ccfc_says(split(text, '\n')[i], region),
    ));
}

// ---------------------------------------------------------------------------
// Changing it
// ---------------------------------------------------------------------------

/// To turn forwarding on, its code is dialled with the digits of the number, and
/// then the state is asked for; what the network says then is the answer, and
/// where it says nothing, that the change was made.
pub proof fn law_enabling_dials_the_number(
    e164: Seq<char>,
    e: NormalizeErrorView,
    reply: Seq<char>,
    state: CallForwardStateView,
    read: Result<CallForwardStateView, Seq<char>>,
)
    ensures
        ({
            let wanted = CallForwardStateView { enabled: true, e164: Some(e164) };
            let applying = ForwardFlowView::Applying { wanted };
            let confirming = ForwardFlowView::Confirming { wanted };
            &&& enabling(Ok(e164)) == ForwardStepView::Dial(
                "*21*"@ + digits_of(e164) + "#"@,
                applying,
            )
            &&& forward_next_with(applying, Ok(reply), read) == ForwardStepView::Dial(
                "*#21#"@,
                confirming,
            )
            &&& forward_next_with(confirming, Ok(reply), Ok(state)) == ForwardStepView::End(
                Ok(state),
            )
            &&& read is Err ==> forward_next_with(confirming, Ok(reply), read)
                == ForwardStepView::End(Ok(wanted))
        }),
        enabling(Err(e)) == ForwardStepView::End(Err(ModemErrorView::Failed(complaint(e)))),
{
}

/// Asked for the state, the network says it, or the error is told.
pub proof fn law_asking_gives_the_state(
    reply: Seq<char>,
    state: CallForwardStateView,
    words: Seq<char>,
    e: ModemErrorView,
    read: Result<CallForwardStateView, Seq<char>>,
)
    ensures
        forward_next_with(ForwardFlowView::Asking, Ok(reply), Ok(state)) == ForwardStepView::End(
            Ok(state),
        ),
        forward_next_with(ForwardFlowView::Asking, Ok(reply), Err(words)) == ForwardStepView::End(
            Err(ModemErrorView::Failed(words)),
        ),
        forward_next_with(ForwardFlowView::Asking, Err(e), read) == ForwardStepView::End(Err(e)),
{
}

/// A request with a number turns forwarding on, one without turns it off, and one
/// with no real number is refused. What comes back is the state, or which kind of
/// failure it was.
pub proof fn law_request_turns_forwarding(
    e164: Seq<char>,
    e: NormalizeErrorView,
    words: Seq<char>,
    state: CallForwardStateView,
)
    ensures
        forward_for(None) == Ok::<ForwardRequestView, ActionErrorView>(ForwardRequestView::Disable),
        forward_for(Some(Ok(e164))) == Ok::<ForwardRequestView, ActionErrorView>(
            ForwardRequestView::Enable(e164),
        ),
        forward_for(Some(Err(e))) == Err::<ForwardRequestView, ActionErrorView>(
            ActionErrorView::InvalidNumber(complaint(e)),
        ),
        forward_outcome(Ok(state)) == Ok::<CallForwardStateView, ActionErrorView>(state),
        forward_outcome(Err(ModemErrorView::NotFound(words))) == Err::<
            CallForwardStateView,
            ActionErrorView,
        >(ActionErrorView::ModemUnavailable(words)),
        forward_outcome(Err(ModemErrorView::Failed(words))) == Err::<
            CallForwardStateView,
            ActionErrorView,
        >(ActionErrorView::ForwardFailed(words)),
{
}

} // verus!
