//! What the status tells, said of the stored rows and of the modem.
use vstd::prelude::*;

use crate::call_forward::CallForwardStateView;
use crate::clock::{
    rfc3339_text, rfc3339_time, time_between, zoned_instants, zoned_time, Elapsed, Instants,
    LocalTime, UtcTime,
};
use crate::collate::{at_most, law_order_total, law_order_transitive};
use crate::db::log::{counts_since, last_failure, last_received, last_sent};
use crate::decimal::int_text;
use crate::laws::found::{law_number_finds_its_contact, nobodys_number, owner_at};
use crate::modem::{ModemErrorView, ModemLiveView, ModemState, Radio, Registration, SimStatus};
use crate::status::{
    ago, dated, escaped, forward_line, forward_shown, gathered, last_section, modem_section,
    radio_words, signal_words, registration_words, reported, rest_of_card, row_when, sim_words,
    snapshot_since, status_card, today_section, today_start, ModemShown, StatusView,
};
use crate::tables::{latest_inbound, latest_outbound, InboundRowView, OutboundRowView, Tables};
use crate::text::{head, holds, lower};

verus! {

// ---------------------------------------------------------------------------
// Counting
// ---------------------------------------------------------------------------

/// What was received, what was sent and what failed since a time are counted, each
/// row once: every sent message that is not "ok" has failed.
pub proof fn law_counts_are_those_of_the_rows(t: Tables, since: Seq<char>)
    requires
        t.inbound.len() < 0x1_0000_0000,
        t.outbound.len() < 0x1_0000_0000,
    ensures
        counts_since(t, since).inbound == t.inbound.filter(
            |r: InboundRowView| at_most(since, r.created_at),
        ).len(),
        counts_since(t, since).sent_ok == t.outbound.filter(
            |r: OutboundRowView| at_most(since, r.created_at) && r.result == "ok"@,
        ).len(),
        counts_since(t, since).sent_fail == t.outbound.filter(
            |r: OutboundRowView| at_most(since, r.created_at) && r.result != "ok"@,
        ).len(),
        counts_since(t, since).sent_ok + counts_since(t, since).sent_fail == t.outbound.filter(
            |r: OutboundRowView| at_most(since, r.created_at),
        ).len(),
{
    let a = |r: InboundRowView| at_most(since, r.created_at);
    let b = |r: OutboundRowView| at_most(since, r.created_at) && r.result == "ok"@;
    let c = |r: OutboundRowView| at_most(since, r.created_at) && r.result != "ok"@;
    assert(crate::tables::received_since(since) =~= a);
    assert(crate::tables::sent_since(since) =~= b);
    assert(crate::tables::failed_since(since) =~= c);
    lemma_filter_shorter(t.inbound, a);
    lemma_filter_shorter(t.outbound, b);
    lemma_filter_shorter(t.outbound, c);
    lemma_split_count(
        t.outbound,
        b,
        c,
        |r: OutboundRowView| at_most(since, r.created_at),
    );
}

proof fn lemma_filter_shorter<A>(s: Seq<A>, p: spec_fn(A) -> bool)
    ensures
        s.filter(p).len() <= s.len(),
    decreases s.len(),
{
    reveal(Seq::filter);
    if s.len() > 0 {
        lemma_filter_shorter(s.drop_last(), p);
    }
}

proof fn lemma_split_count<A>(
    s: Seq<A>,
    a: spec_fn(A) -> bool,
    b: spec_fn(A) -> bool,
    both: spec_fn(A) -> bool,
)
    requires
        forall|x: A| #[trigger] both(x) == (a(x) || b(x)),
        forall|x: A| !(#[trigger] a(x) && b(x)),
    ensures
        s.filter(a).len() + s.filter(b).len() == s.filter(both).len(),
    decreases s.len(),
{
    reveal(Seq::filter);
    if s.len() > 0 {
        lemma_split_count(s.drop_last(), a, b, both);
        assert(both(s.last()) == (a(s.last()) || b(s.last())));
        assert(!(a(s.last()) && b(s.last())));
    }
}

proof fn lemma_latest_inbound(s: Seq<InboundRowView>)
    ensures
        s.len() > 0 ==> latest_inbound(s) is Some && s.contains(latest_inbound(s)->0) && forall|r: int|
            0 <= r < s.len() ==> at_most(
                (#[trigger] s[r]).created_at,
                latest_inbound(s)->0.created_at,
            ),
    decreases s.len(),
{
    if s.len() > 0 {
        let front = s.drop_last();
        lemma_latest_inbound(front);
        let best = latest_inbound(s)->0;
        law_order_total(s.last().created_at, s.last().created_at);
        if front.len() > 0 {
            let old = latest_inbound(front)->0;
            let k = front.index_of(old);
            assert(s[k] == old);
            law_order_total(old.created_at, s.last().created_at);
            assert forall|r: int| 0 <= r < s.len() implies at_most(
                (#[trigger] s[r]).created_at,
                best.created_at,
            ) by {
                if r < front.len() {
                    assert(front[r] == s[r]);
                    if best == s.last() {
                        law_order_transitive(s[r].created_at, old.created_at, best.created_at);
                    }
                }
            }
        }
        assert(s[s.len() - 1] == s.last());
    }
}

/// The last received message is one of the rows, and no row is later.
pub proof fn law_last_received_is_the_latest(t: Tables)
    ensures
        t.inbound.len() == 0 ==> last_received(t) is None,
        t.inbound.len() > 0 ==> (last_received(t) matches Some(last) && {
            &&& exists|r: int|
                0 <= r < t.inbound.len() && (#[trigger] t.inbound[r]).e164 == last.0
                    && t.inbound[r].created_at == last.1
            &&& forall|r: int|
                0 <= r < t.inbound.len() ==> at_most((#[trigger] t.inbound[r]).created_at, last.1)
        }),
{
    lemma_latest_inbound(t.inbound);
    if t.inbound.len() > 0 {
        let k = t.inbound.index_of(latest_inbound(t.inbound)->0);
        assert(t.inbound[k] == latest_inbound(t.inbound)->0);
    }
}

proof fn lemma_latest_outbound(s: Seq<OutboundRowView>, p: spec_fn(OutboundRowView) -> bool)
    ensures
        (exists|r: int| 0 <= r < s.len() && #[trigger] p(s[r])) ==> latest_outbound(s, p) is Some,
        latest_outbound(s, p) matches Some(best) ==> {
            &&& s.contains(best)
            &&& p(best)
            &&& forall|r: int|
                0 <= r < s.len() && p(#[trigger] s[r]) ==> at_most(s[r].created_at, best.created_at)
        },
    decreases s.len(),
{
    if s.len() > 0 {
        let front = s.drop_last();
        lemma_latest_outbound(front, p);
        if exists|r: int| 0 <= r < s.len() && #[trigger] p(s[r]) {
            let r = choose|r: int| 0 <= r < s.len() && #[trigger] p(s[r]);
            if r < front.len() {
                assert(p(front[r]));
            }
        }
        law_order_total(s.last().created_at, s.last().created_at);
        assert(s[s.len() - 1] == s.last());
        if let Some(old) = latest_outbound(front, p) {
            let k = front.index_of(old);
            assert(s[k] == old);
            law_order_total(old.created_at, s.last().created_at);
        }
        if let Some(best) = latest_outbound(s, p) {
            assert forall|r: int| 0 <= r < s.len() && p(#[trigger] s[r]) implies at_most(
                s[r].created_at,
                best.created_at,
            ) by {
                if r < front.len() {
                    assert(p(front[r]));
                    let old = latest_outbound(front, p)->0;
                    assert(at_most(front[r].created_at, old.created_at));
                    if best == s.last() {
                        law_order_transitive(s[r].created_at, old.created_at, best.created_at);
                    }
                }
            }
        }
    }
}

/// The last sent message is one that went well, and none that did is later. The
/// last failure since a time is the result of one that failed since then, and
/// none that did is later.
pub proof fn law_last_sent_is_the_latest(t: Tables, since: Seq<char>)
    ensures
        (exists|r: int| 0 <= r < t.outbound.len() && (#[trigger] t.outbound[r]).result == "ok"@)
            <==> last_sent(t) is Some,
        last_sent(t) matches Some(last) ==> {
            &&& exists|r: int|
                0 <= r < t.outbound.len() && (#[trigger] t.outbound[r]).e164 == last.0
                    && t.outbound[r].created_at == last.1 && t.outbound[r].result == "ok"@
            &&& forall|r: int|
                0 <= r < t.outbound.len() && (#[trigger] t.outbound[r]).result == "ok"@ ==> at_most(
                    t.outbound[r].created_at,
                    last.1,
                )
        },
        (exists|r: int|
            0 <= r < t.outbound.len() && (#[trigger] t.outbound[r]).result != "ok"@ && at_most(
                since,
                t.outbound[r].created_at,
            )) <==> last_failure(t, since) is Some,
        last_failure(t, since) matches Some(words) ==> exists|r: int|
            {
                &&& 0 <= r < t.outbound.len()
                &&& (#[trigger] t.outbound[r]).result == words
                &&& words != "ok"@
                &&& at_most(since, t.outbound[r].created_at)
                &&& forall|q: int|
                    0 <= q < t.outbound.len() && (#[trigger] t.outbound[q]).result != "ok"@
                        && at_most(since, t.outbound[q].created_at) ==> at_most(
                        t.outbound[q].created_at,
                        t.outbound[r].created_at,
                    )
            },
{
    let p = crate::tables::sent_ok();
    let q = crate::tables::failed_since(since);
    lemma_latest_outbound(t.outbound, p);
    lemma_latest_outbound(t.outbound, q);
    if exists|r: int| 0 <= r < t.outbound.len() && (#[trigger] t.outbound[r]).result == "ok"@ {
        let r = choose|r: int|
            0 <= r < t.outbound.len() && (#[trigger] t.outbound[r]).result == "ok"@;
        assert(p(t.outbound[r]));
    }
    if let Some(best) = latest_outbound(t.outbound, p) {
        let k = t.outbound.index_of(best);
        assert(t.outbound[k] == best);
        assert forall|r: int|
            0 <= r < t.outbound.len() && (#[trigger] t.outbound[r]).result
                == "ok"@ implies at_most(t.outbound[r].created_at, best.created_at) by {
            assert(p(t.outbound[r]));
        }
    }
    if exists|r: int|
        0 <= r < t.outbound.len() && (#[trigger] t.outbound[r]).result != "ok"@ && at_most(
            since,
            t.outbound[r].created_at,
        ) {
        let r = choose|r: int|
            0 <= r < t.outbound.len() && (#[trigger] t.outbound[r]).result != "ok"@ && at_most(
                since,
                t.outbound[r].created_at,
            );
        assert(q(t.outbound[r]));
    }
    if let Some(best) = latest_outbound(t.outbound, q) {
        let k = t.outbound.index_of(best);
        assert(t.outbound[k] == best);
        assert forall|r: int|
            0 <= r < t.outbound.len() && (#[trigger] t.outbound[r]).result != "ok"@ && at_most(
                since,
                t.outbound[r].created_at,
            ) implies at_most(t.outbound[r].created_at, best.created_at) by {
            assert(q(t.outbound[r]));
        }
    }
}

/// A snapshot tells what was counted since the day began, who wrote and was
/// written to last, and the state of the modem and the contacts. The last error
/// is told only where something failed today.
pub proof fn law_snapshot_tells_the_day(
    t: Tables,
    modem: ModemShown,
    uid: Seq<char>,
    since: Seq<char>,
    received: Seq<char>,
    sent: Seq<char>,
)
    ensures
        ({
            let s = snapshot_since(t, modem, uid, since, received, sent);
            let counts = counts_since(t, since);
            &&& s.today_in == counts.inbound
            &&& s.today_out_ok == counts.sent_ok
            &&& s.today_out_fail == counts.sent_fail
            &&& s.contacts_ok == t.contacts_available
            &&& s.modem == modem
            &&& s.modem_uid == uid
            &&& counts.sent_fail > 0 ==> s.last_fail_error == last_failure(t, since)
            &&& counts.sent_fail == 0 ==> s.last_fail_error is None
            &&& s.last_in is Some <==> last_received(t) is Some
            &&& s.last_out is Some <==> last_sent(t) is Some
            &&& last_received(t) matches Some(last) ==> s.last_in->0.when == received && named(
                t,
                last.0,
                s.last_in->0.label,
            )
            &&& last_sent(t) matches Some(last) ==> s.last_out->0.when == sent && named(
                t,
                last.0,
                s.last_out->0.label,
            )
        }),
{
    if let Some(last) = last_received(t) {
        lemma_named(t, last.0);
    }
    if let Some(last) = last_sent(t) {
        lemma_named(t, last.0);
    }
}

/// The label of a number is the name of the contact that it is stored for, or the
/// number itself.
pub open spec fn named(t: Tables, e164: Seq<char>, label: Seq<char>) -> bool {
    &&& forall|k: int| #[trigger] owner_at(t, e164, k) ==> label == t.contacts[k].display_name
    &&& nobodys_number(t, e164) ==> label == e164
}

proof fn lemma_named(t: Tables, e164: Seq<char>)
    ensures
        named(t, e164, crate::status::label_of(t, e164)),
{
    assert forall|k: int| #[trigger] owner_at(t, e164, k) implies crate::status::label_of(t, e164)
        == t.contacts[k].display_name by {
        law_number_finds_its_contact(t, e164, k);
    }
    law_number_finds_its_contact(t, e164, 0);
}

// ---------------------------------------------------------------------------
// Times in words
// ---------------------------------------------------------------------------

/// What is less than a minute old is just now, what is less than an hour old is
/// told in whole minutes, and what is less than a day old in whole hours.
pub proof fn law_ages_are_told_in_whole_units(age: Elapsed, n: int)
    ensures
        age.secs < 60 ==> ago(age) == Some("just now"@),
        1 <= n < 60 && n * 60 <= age.secs < n * 60 + 60 ==> ago(age) == Some(int_text(n) + "m ago"@),
        1 <= n < 24 && n * 3600 <= age.secs < n * 3600 + 3600 ==> ago(age) == Some(
            int_text(n) + "h ago"@,
        ),
        age.secs >= 86400 ==> ago(age) is None,
{
}

/// A day is told as yesterday exactly when it is the day before, without the year
/// where the year is the same, and in full otherwise.
pub proof fn law_days_are_told_as_short_as_possible(
    then: LocalTime,
    now: LocalTime,
    clock: Seq<char>,
    month: Seq<char>,
    stamp: Seq<char>,
)
    ensures
        now.day_number - then.day_number == 1 ==> dated(then, now, clock, month, stamp)
            == "yesterday "@ + clock,
        now.day_number - then.day_number != 1 && then.year == now.year ==> dated(
            then,
            now,
            clock,
            month,
            stamp,
        ) == month + " "@ + int_text(then.day as int) + " "@ + clock,
        now.day_number - then.day_number != 1 && then.year != now.year ==> dated(
            then,
            now,
            clock,
            month,
            stamp,
        ) == stamp,
{
}

// ---------------------------------------------------------------------------
// The card
// ---------------------------------------------------------------------------

proof fn lemma_holds_mid(a: Seq<char>, b: Seq<char>, c: Seq<char>)
    ensures
        holds(a + b + c, b),
{
    let s = a + b + c;
    assert(s.subrange(a.len() as int, (a.len() + b.len()) as int) =~= b);
}

/// What holds a text holds every part of it.
pub proof fn lemma_holds_part(s: Seq<char>, part: Seq<char>, piece: Seq<char>)
    requires
        holds(s, part),
        holds(part, piece),
    ensures
        holds(s, piece),
{
    let i = choose|i: int|
        0 <= i && i + part.len() <= s.len() && #[trigger] s.subrange(i, i + part.len()) == part;
    let j = choose|j: int|
        0 <= j && j + piece.len() <= part.len() && #[trigger] part.subrange(j, j + piece.len())
            == piece;
    let here = s.subrange(i + j, (i + j) + piece.len());
    assert forall|x: int| 0 <= x < piece.len() implies #[trigger] here[x] == piece[x] by {
        assert(s.subrange(i, i + part.len())[j + x] == part[j + x]);
        assert(part.subrange(j, j + piece.len())[x] == piece[x]);
    }
    assert(here =~= piece);
}

proof fn lemma_holds_added(a: Seq<char>, b: Seq<char>)
    ensures
        holds(a + b, b),
        forall|x: Seq<char>| #[trigger] holds(a, x) ==> holds(a + b, x),
{
    lemma_holds_last(a, b);
    lemma_holds_first(a, b);
    assert forall|x: Seq<char>| #[trigger] holds(a, x) implies holds(a + b, x) by {
        lemma_holds_part(a + b, a, x);
    }
}

proof fn lemma_holds_both(a: Seq<char>, b: Seq<char>, c: Seq<char>)
    ensures
        holds(a + b + c, b + c),
{
    lemma_grouped(a, b, c);
    lemma_holds_last(a, b + c);
}

proof fn lemma_holds_first(a: Seq<char>, b: Seq<char>)
    ensures
        holds(a + b, a),
{
    let none = Seq::<char>::empty();
    lemma_holds_mid(none, a, b);
    assert(none + a + b =~= a + b);
}

proof fn lemma_holds_last(a: Seq<char>, b: Seq<char>)
    ensures
        holds(a + b, b),
{
    let none = Seq::<char>::empty();
    lemma_holds_mid(a, b, none);
    assert(a + b + none =~= a + b);
}

proof fn lemma_grouped(a: Seq<char>, b: Seq<char>, c: Seq<char>)
    ensures
        a + (b + c) == a + b + c,
{
    assert(a + (b + c) =~= a + b + c);
}

proof fn lemma_holds_three(a: Seq<char>, b: Seq<char>, c: Seq<char>, d: Seq<char>)
    ensures
        holds(a + b + c + d, b + c + d),
{
    lemma_grouped(a, b, c);
    lemma_grouped(a, b + c, d);
    lemma_holds_last(a, b + c + d);
}

/// The parts of the card are all on it, and the part about the modem comes first.
proof fn lemma_card_parts(s: StatusView)
    ensures
        status_card(s).take(modem_section(s).len() as int) == modem_section(s),
        holds(status_card(s), modem_section(s)),
        holds(status_card(s), today_section(s)),
        holds(status_card(s), last_section(s)),
{
    let none = Seq::<char>::empty();
    let contacts = if s.contacts_ok {
        "Contacts · OK"@
    } else {
        "Contacts · unavailable"@
    };
    assert(status_card(s).take(modem_section(s).len() as int) =~= modem_section(s));
    assert(status_card(s) =~= none + modem_section(s) + rest_of_card(s));
    lemma_holds_mid(none, modem_section(s), rest_of_card(s));
    let a = modem_section(s) + "\n\n"@;
    let b = "\n\n"@ + last_section(s) + "\n\n"@ + contacts;
    assert(status_card(s) =~= a + today_section(s) + b);
    lemma_holds_mid(a, today_section(s), b);
    let c = modem_section(s) + "\n\n"@ + today_section(s) + "\n\n"@;
    let d = "\n\n"@ + contacts;
    assert(status_card(s) =~= c + last_section(s) + d);
    lemma_holds_mid(c, last_section(s), d);
}

/// The card tells how many messages were received, sent and failed today, each
/// with its own word, and the last error, without markup and at most 120
/// characters of it, exactly where something failed.
pub proof fn law_card_tells_the_counts(s: StatusView)
    ensures
        holds(
            status_card(s),
            "<b>Today</b>\n↓ "@ + int_text(s.today_in as int) + " received\n↑ "@ + int_text(
                s.today_out_ok as int,
            ) + " sent\n✗ "@ + int_text(s.today_out_fail as int) + " failed"@,
        ),
        s.today_out_fail > 0 && s.last_fail_error is Some ==> holds(
            status_card(s),
            " failed"@ + ("\n"@ + escaped(head(s.last_fail_error->0, 120))),
        ),
        s.today_out_fail == 0 || s.last_fail_error is None ==> holds(
            status_card(s),
            " failed"@ + "\n\n"@,
        ),
{
    lemma_card_parts(s);
    let numbers = "<b>Today</b>\n↓ "@ + int_text(s.today_in as int) + " received\n↑ "@ + int_text(
        s.today_out_ok as int,
    ) + " sent\n✗ "@ + int_text(s.today_out_fail as int);
    let counts = numbers + " failed"@;
    let fail = crate::status::failure_line(s);
    assert(today_section(s) == counts + fail);
    lemma_holds_first(counts, fail);
    lemma_holds_part(status_card(s), today_section(s), counts);
    if s.today_out_fail > 0 && s.last_fail_error is Some {
        lemma_holds_both(numbers, " failed"@, fail);
        lemma_holds_part(status_card(s), today_section(s), " failed"@ + fail);
    } else {
        assert(counts + fail =~= counts);
        let top = "\n\n"@ + counts + "\n\n"@;
        lemma_grouped("\n\n"@, numbers, " failed"@);
        lemma_holds_both("\n\n"@ + numbers, " failed"@, "\n\n"@);
        let contacts = if s.contacts_ok {
            "Contacts · OK"@
        } else {
            "Contacts · unavailable"@
        };
        let one = top + last_section(s);
        let two = one + "\n\n"@;
        assert(rest_of_card(s) == two + contacts);
        lemma_holds_first(top, last_section(s));
        lemma_holds_first(one, "\n\n"@);
        lemma_holds_first(two, contacts);
        lemma_holds_last(modem_section(s), rest_of_card(s));
        lemma_holds_part(status_card(s), rest_of_card(s), two);
        lemma_holds_part(status_card(s), two, one);
        lemma_holds_part(status_card(s), one, top);
        lemma_holds_part(status_card(s), top, " failed"@ + "\n\n"@);
    }
}

/// The card tells the last received and the last sent message, each with its own
/// arrow, its label without markup, and when it was; and that there are none
/// where there are none. It ends with whether the contacts are available.
pub proof fn law_card_tells_the_last(s: StatusView)
    ensures
        s.last_in is Some ==> holds(
            status_card(s),
            "↓ "@ + escaped(s.last_in->0.label) + " · "@ + s.last_in->0.when,
        ),
        s.last_out is Some ==> holds(
            status_card(s),
            "↑ "@ + escaped(s.last_out->0.label) + " · "@ + s.last_out->0.when,
        ),
        s.last_in is None && s.last_out is None ==> holds(status_card(s), "none yet"@),
        s.contacts_ok ==> "Contacts · OK"@.is_suffix_of(status_card(s)),
        !s.contacts_ok ==> "Contacts · unavailable"@.is_suffix_of(status_card(s)),
{
    lemma_card_parts(s);
    let title = "<b>Last</b>\n"@;
    match (s.last_in, s.last_out) {
        (None, None) => {
            lemma_holds_last(title, "none yet"@);
            lemma_holds_part(status_card(s), last_section(s), "none yet"@);
        },
        (Some(i), None) => {
            let line = crate::status::last_line("↓ "@, i);
            lemma_holds_last(title, line);
            lemma_holds_part(status_card(s), last_section(s), line);
        },
        (None, Some(o)) => {
            let line = crate::status::last_line("↑ "@, o);
            lemma_holds_last(title, line);
            lemma_holds_part(status_card(s), last_section(s), line);
        },
        (Some(i), Some(o)) => {
            let one = crate::status::last_line("↓ "@, i);
            let two = crate::status::last_line("↑ "@, o);
            let both = one + "\n"@ + two;
            lemma_holds_last(title, both);
            lemma_holds_part(status_card(s), last_section(s), both);
            lemma_holds_last(one + "\n"@, two);
            lemma_holds_first(one + "\n"@, two);
            lemma_holds_first(one, "\n"@);
            lemma_holds_part(status_card(s), both, two);
            lemma_holds_part(status_card(s), both, one + "\n"@);
            lemma_holds_part(status_card(s), one + "\n"@, one);
        },
    }
    let rest = "\n\n"@ + today_section(s) + "\n\n"@ + last_section(s) + "\n\n"@;
    let contacts = if s.contacts_ok {
        "Contacts · OK"@
    } else {
        "Contacts · unavailable"@
    };
    assert(rest_of_card(s) == rest + contacts);
    lemma_ends(modem_section(s), rest, contacts);
}

proof fn lemma_ends(a: Seq<char>, b: Seq<char>, c: Seq<char>)
    ensures
        c.is_suffix_of(a + (b + c)),
{
    let s = a + (b + c);
    assert(c =~= s.subrange((s.len() - c.len()) as int, s.len() as int));
}

proof fn lemma_signal_parts(live: ModemLiveView)
    ensures
        ({
            let signal = crate::status::signal_line(live);
            heard(live) ==> {
                &&& holds(signal, " ("@ + int_text(live.signal_percent->0 as int) + "%)"@)
                &&& live.access_tech is Some ==> holds(
                    signal,
                    "%)"@ + " · "@ + radio_words(live.access_tech->0),
                )
                &&& live.rssi_dbm is Some ==> holds(
                    signal,
                    " · "@ + int_text(live.rssi_dbm->0 as int) + " dBm"@,
                )
            }
        }),
{
    if heard(live) {
        let lead = "📶 "@ + crate::status::signal_words(live.signal_percent);
        let n = int_text(live.signal_percent->0 as int);
        let radio = crate::status::dotted(
            match live.access_tech {
                Some(radio) => Some(radio_words(radio)),
                None => None,
            },
        );
        let dbm = crate::status::dotted(
            match live.rssi_dbm {
                Some(dbm) => Some(int_text(dbm as int) + " dBm"@),
                None => None,
            },
        );
        let p1 = lead + " ("@ + n;
        let p2 = p1 + "%)"@;
        let p3 = p2 + radio;
        assert(crate::status::signal_line(live) == p3 + dbm);
        lemma_holds_three(lead, " ("@, n, "%)"@);
        lemma_holds_added(p2, radio);
        lemma_holds_both(p1, "%)"@, radio);
        lemma_holds_added(p3, dbm);
        if live.access_tech is Some {
            lemma_grouped("%)"@, " · "@, radio_words(live.access_tech->0));
        }
        if live.rssi_dbm is Some {
            lemma_grouped(" · "@, int_text(live.rssi_dbm->0 as int), " dBm"@);
        }
    }
}

/// There is a signal.
pub open spec fn heard(live: ModemLiveView) -> bool {
    live.signal_percent matches Some(p) && p > 0
}

/// The card tells the modem: its state, operator and registration, the strength
/// of its signal and the radio where there is a signal, and its SIM; or that it
/// is not there, and which one is missed.
pub proof fn law_card_tells_the_modem(s: StatusView, live: ModemLiveView)
    ensures
        status_card(s).take(modem_section(s).len() as int) == modem_section(s),
        s.modem is Offline ==> modem_section(s)
            == "<b>Modem</b>\n🔴 Offline\n<i>Stick not found ("@ + escaped(s.modem_uid) + ")</i>"@,
        s.modem == ModemShown::Live(live) ==> {
            &&& live.state == ModemState::Failed ==> holds(modem_section(s), "🔴"@)
            &&& live.state == ModemState::Registered || live.state == ModemState::Connected
                ==> holds(modem_section(s), "🟢"@)
            &&& holds(modem_section(s), crate::modem::state_label(live.state))
            &&& live.operator is Some && live.operator->0.len() > 0 ==> holds(
                modem_section(s),
                " · "@ + escaped(live.operator->0),
            )
            &&& live.operator is None || live.operator->0.len() == 0 ==> holds(
                modem_section(s),
                " · no operator"@,
            )
            &&& live.registration == Some(Registration::Home) ==> holds(
                modem_section(s),
                " · "@ + "home"@ + "\n"@,
            )
            &&& live.registration == Some(Registration::Roaming) ==> holds(
                modem_section(s),
                " · "@ + "roaming"@ + "\n"@,
            )
            &&& live.signal_percent == Some(0u32) || live.signal_percent is None ==> holds(
                modem_section(s),
                "📶 No signal"@,
            )
            &&& heard(live) ==> holds(
                modem_section(s),
                " ("@ + int_text(live.signal_percent->0 as int) + "%)"@,
            )
            &&& heard(live) && live.access_tech is Some ==> holds(
                modem_section(s),
                "%)"@ + " · "@ + radio_words(live.access_tech->0),
            )
            &&& heard(live) && live.rssi_dbm is Some ==> holds(
                modem_section(s),
                " · "@ + int_text(live.rssi_dbm->0 as int) + " dBm"@,
            )
            &&& ("\n"@ + sim_words(live.sim)).is_suffix_of(modem_section(s))
        },
{
    lemma_card_parts(s);
    if s.modem == ModemShown::Live(live) {
        let dot = crate::status::dot_of(live.state);
        let label = crate::modem::state_label(live.state);
        let operator = crate::status::operator_part(live.operator);
        let registration = crate::status::dotted(
            match live.registration {
                Some(reg) => Some(registration_words(reg)),
                None => None,
            },
        );
        let signal = crate::status::signal_line(live);
        let p1 = "<b>Modem</b>\n"@ + dot;
        let p2 = p1 + " "@;
        let p3 = p2 + label;
        let p4 = p3 + operator;
        let p5 = p4 + registration;
        let p6 = p5 + "\n"@;
        let p7 = p6 + signal;
        let p8 = p7 + "\n"@;
        let sim = sim_words(live.sim);
        assert(modem_section(s) == p8 + sim);
        lemma_holds_added("<b>Modem</b>\n"@, dot);
        lemma_holds_added(p1, " "@);
        lemma_holds_added(p2, label);
        lemma_holds_added(p3, operator);
        lemma_holds_added(p4, registration);
        lemma_holds_added(p5, "\n"@);
        lemma_holds_both(p4, registration, "\n"@);
        lemma_holds_added(p6, signal);
        lemma_holds_added(p7, "\n"@);
        lemma_holds_added(p8, sim);
        lemma_signal_parts(live);
        assert(("\n"@ + sim) =~= (p8 + sim).subrange(
            (p8 + sim).len() - ("\n"@ + sim).len(),
            (p8 + sim).len() as int,
        ));
        assert(holds(p7, signal));
        if heard(live) {
            let percent = " ("@ + int_text(live.signal_percent->0 as int) + "%)"@;
            lemma_holds_part(modem_section(s), signal, percent);
            if live.access_tech is Some {
                lemma_holds_part(
                    modem_section(s),
                    signal,
                    "%)"@ + " · "@ + radio_words(live.access_tech->0),
                );
            }
            if live.rssi_dbm is Some {
                lemma_holds_part(
                    modem_section(s),
                    signal,
                    " · "@ + int_text(live.rssi_dbm->0 as int) + " dBm"@,
                );
            }
        }
    }
}

/// The words for a signal go up with it in steps of twenty percent, and each radio
/// and each SIM has its own.
pub proof fn law_words_for_the_modem(p: u32)
    ensures
        p == 0 ==> signal_words(Some(p)) == "No signal"@,
        1 <= p <= 19 ==> signal_words(Some(p)) == "Poor"@,
        20 <= p <= 39 ==> signal_words(Some(p)) == "Fair"@,
        40 <= p <= 59 ==> signal_words(Some(p)) == "Good"@,
        60 <= p <= 79 ==> signal_words(Some(p)) == "Very good"@,
        p >= 80 ==> signal_words(Some(p)) == "Excellent"@,
        signal_words(None) == "No signal"@,
        radio_words(Radio::Gsm) == "2G"@,
        radio_words(Radio::Umts) == "3G"@,
        radio_words(Radio::Lte) == "4G LTE"@,
        radio_words(Radio::Nr) == "5G"@,
        sim_words(SimStatus::Ready) == "SIM ok"@,
        sim_words(SimStatus::Missing) == "SIM missing"@,
        sim_words(SimStatus::PinRequired) == "PIN required"@,
{
}

/// Escaping goes character by character: the three characters of markup are
/// replaced by their names, and every other one stays.
pub proof fn law_escaping_goes_by_character(a: Seq<char>, b: Seq<char>, c: char)
    ensures
        escaped(a + b) == escaped(a) + escaped(b),
        escaped(seq!['&']) == "&amp;"@,
        escaped(seq!['<']) == "&lt;"@,
        escaped(seq!['>']) == "&gt;"@,
        c != '&' && c != '<' && c != '>' ==> escaped(seq![c]) == seq![c],
    decreases b.len(),
{
    lemma_escaped_one('&');
    lemma_escaped_one('<');
    lemma_escaped_one('>');
    lemma_escaped_one(c);
    if b.len() == 0 {
        assert(a + b =~= a);
        assert(escaped(a) + escaped(b) =~= escaped(a));
    } else {
        law_escaping_goes_by_character(a, b.drop_last(), c);
        assert((a + b).drop_last() =~= a + b.drop_last());
        assert(escaped(a + b) =~= escaped(a) + escaped(b));
    }
}

proof fn lemma_escaped_one(c: char)
    ensures
        escaped(seq![c]) == crate::status::escaped_char(c),
{
    assert(seq![c].drop_last() =~= Seq::<char>::empty());
    reveal_with_fuel(escaped, 2);
    assert(escaped(seq![c]) =~= crate::status::escaped_char(c));
}

// ---------------------------------------------------------------------------
// Reports
// ---------------------------------------------------------------------------

/// A report says what the modem says; of a modem that is not there it says
/// nothing but that.
pub proof fn law_report_says_what_the_modem_says(live: ModemLiveView)
    ensures
        ({
            let r = reported(ModemShown::Live(live));
            &&& r.state == lower(crate::modem::state_label(live.state))
            &&& r.operator == live.operator
            &&& r.signal_percent == live.signal_percent
            &&& r.rssi_dbm == live.rssi_dbm
            &&& r.registration is Some <==> live.registration is Some
            &&& live.registration == Some(Registration::Home) ==> r.registration == Some("home"@)
            &&& live.registration == Some(Registration::Roaming) ==> r.registration == Some(
                "roaming"@,
            )
            &&& r.access_tech is Some <==> live.access_tech is Some
            &&& live.access_tech == Some(Radio::Gsm) ==> r.access_tech == Some("gsm"@)
            &&& live.access_tech == Some(Radio::Umts) ==> r.access_tech == Some("umts"@)
            &&& live.access_tech == Some(Radio::Lte) ==> r.access_tech == Some("lte"@)
            &&& live.access_tech == Some(Radio::Nr) ==> r.access_tech == Some("nr"@)
            &&& live.sim == SimStatus::Ready ==> r.sim == Some("ok"@)
            &&& live.sim == SimStatus::Missing ==> r.sim == Some("missing"@)
            &&& live.sim == SimStatus::PinRequired ==> r.sim == Some("pin_required"@)
        }),
        ({
            let r = reported(ModemShown::Offline);
            &&& r.state == "offline"@
            &&& r.operator is None && r.registration is None && r.signal_percent is None
                && r.rssi_dbm is None && r.access_tech is None && r.sim is None
        }),
{
}

/// Forwarding is told by the name of the contact, or by the number; that it is
/// off, where it is; and that it cannot be said, where the modem did not.
pub proof fn law_forwarding_is_told_by_name(
    t: Tables,
    e164: Seq<char>,
    e: ModemErrorView,
    k: int,
)
    ensures
        ({
            let on = CallForwardStateView { enabled: true, e164: Some(e164) };
            let off = CallForwardStateView { enabled: false, e164: None };
            &&& owner_at(t, e164, k) ==> forward_line(forward_shown(t, Ok(on)))
                == "↪️ Forward · "@ + escaped(t.contacts[k].display_name)
            &&& nobodys_number(t, e164) ==> forward_line(forward_shown(t, Ok(on)))
                == "↪️ Forward · "@ + escaped(e164)
            &&& forward_line(forward_shown(t, Ok(off))) == "↪️ Forward · off"@
            &&& forward_line(forward_shown(t, Err(e))) == "↪️ Forward · unavailable"@
        }),
{
    law_number_finds_its_contact(t, e164, k);
}

/// The day begins at midnight where the owner is.
pub proof fn law_day_begins_at_midnight(
    now: UtcTime,
    zone: Seq<char>,
    today: LocalTime,
    midnight: UtcTime,
)
    requires
        zoned_time(now, zone) == Some(today),
        zoned_instants(today.day_number, 0, 0, 0, zone) == Some(Instants::One(midnight)),
    ensures
        today_start(now, zone) == rfc3339_text(midnight),
{
}

/// When a row is from is told by its time, and one without a readable time is just
/// now.
pub proof fn law_row_is_told_by_its_time(
    stamp: Seq<char>,
    then: UtcTime,
    now: UtcTime,
    zone: Seq<char>,
    age: Elapsed,
)
    ensures
        rfc3339_time(stamp) is None ==> row_when(stamp, now, zone) == Some("just now"@),
        rfc3339_time(stamp) == Some(then) && time_between(then, now) == Some(age) && age.secs
            < 86400 ==> row_when(stamp, now, zone) == ago(age),
        rfc3339_time(stamp) == Some(then) && time_between(then, now) is None ==> row_when(
            stamp,
            now,
            zone,
        ) is None,
{
}

/// What is gathered is the snapshot since the local day began, with the words for
/// when the last messages were.
pub proof fn law_gathered_is_of_today(
    t: Tables,
    modem: Result<ModemLiveView, ModemErrorView>,
    zone: Seq<char>,
    uid: Seq<char>,
    now: UtcTime,
)
    ensures
        gathered(t, modem, zone, uid, now) matches Some(s) ==> {
            &&& today_start(now, zone) is Some
            &&& s.modem is Offline <==> modem is Err
            &&& modem matches Ok(live) ==> s.modem == ModemShown::Live(live)
            &&& last_received(t) matches Some(last) ==> s.last_in is Some && row_when(
                last.1,
                now,
                zone,
            ) == Some(s.last_in->0.when)
            &&& last_sent(t) matches Some(last) ==> s.last_out is Some && row_when(
                last.1,
                now,
                zone,
            ) == Some(s.last_out->0.when)
            &&& s.today_in == counts_since(t, today_start(now, zone)->0).inbound
            &&& s.today_out_ok == counts_since(t, today_start(now, zone)->0).sent_ok
            &&& s.today_out_fail == counts_since(t, today_start(now, zone)->0).sent_fail
        },
{
}

} // verus!
