//! What the pages of the history show, said of the stored rows.
use vstd::prelude::*;

use crate::actions::history::{chats_page_of, messages_page_of, page_asked, PageView};
use crate::actions::ActionErrorView;
use crate::collate::{at_most, below, law_order_total};
use crate::db::history::{
    all_entries, chat_shown, chats_of, heads, in_chat, listed, message_shown, messages_of, newer,
    received_entry, sent_entry, thread_of_number, threads_filled, time_line, ChatSummaryView,
    EntryView, MessageRowView,
};
use crate::db::paging::{
    chat_line, law_time_line_is_ordered, law_time_line_keeps_all, lemma_chat_line,
    lemma_head_is_newest, lemma_heads, lemma_in_line,
};
use crate::decimal::int_text;
use crate::laws::found::{
    law_id_finds_its_contact, law_thread_finds_its_topic, lemma_filter_from, lemma_filter_keeps,
    nobodys_default, owns,
};
use crate::tables::{InboundRowView, OutboundRowView, Tables};

verus! {

/// A row is in a thread; one without a thread is in General.
pub open spec fn row_in(row: Option<i32>, thread_id: i32) -> bool {
    match row {
        Some(id) => id == thread_id,
        None => thread_id == 1,
    }
}

/// A time is later than one and earlier than the other, where they are given.
pub open spec fn between(
    stamp: Seq<char>,
    before: Option<Seq<char>>,
    after: Option<Seq<char>>,
) -> bool {
    (before is Some ==> below(stamp, before->0)) && (after is Some ==> below(after->0, stamp))
}

/// The message shows a received row: what was written, by whom, and when. It
/// went well, as all that was received did.
pub open spec fn shows_received(m: MessageRowView, r: InboundRowView) -> bool {
    &&& m.id == "in"@ + ":"@ + int_text(r.id as int)
    &&& m.direction == "in"@
    &&& m.e164 == r.e164
    &&& m.body == r.body
    &&& m.timestamp == r.created_at
    &&& m.status == "ok"@
    &&& r.sms_ts is Some && r.sms_ts->0.len() > 0 ==> m.sms_ts == r.sms_ts
    &&& r.sms_ts is None || r.sms_ts->0.len() == 0 ==> m.sms_ts is None
}

/// The message shows a sent row: what was written, to whom, and when. It went
/// well exactly when the result is "ok", and failed otherwise.
pub open spec fn shows_sent(m: MessageRowView, r: OutboundRowView) -> bool {
    &&& m.id == "out"@ + ":"@ + int_text(r.id as int)
    &&& m.direction == "out"@
    &&& m.e164 == r.e164
    &&& m.body == r.body
    &&& m.timestamp == r.created_at
    &&& r.result == "ok"@ ==> m.status == "ok"@
    &&& r.result != "ok"@ ==> m.status == "failed"@
    &&& m.sms_ts is None
}

/// The message shows one of the stored rows of the thread.
pub open spec fn shows_a_row(
    t: Tables,
    m: MessageRowView,
    thread_id: i32,
    before: Option<Seq<char>>,
    after: Option<Seq<char>>,
) -> bool {
    ||| exists|r: int|
        0 <= r < t.inbound.len() && shows_received(m, #[trigger] t.inbound[r]) && row_in(
            t.inbound[r].thread_id,
            thread_id,
        ) && between(t.inbound[r].created_at, before, after)
    ||| exists|r: int|
        0 <= r < t.outbound.len() && shows_sent(m, #[trigger] t.outbound[r]) && row_in(
            t.outbound[r].thread_id,
            thread_id,
        ) && between(t.outbound[r].created_at, before, after)
}

proof fn lemma_entry(t: Tables, e: EntryView)
    requires
        all_entries(t).contains(e),
    ensures
        (exists|r: int| 0 <= r < t.inbound.len() && received_entry()(#[trigger] t.inbound[r]) == e)
            || (exists|r: int|
            0 <= r < t.outbound.len() && sent_entry()(#[trigger] t.outbound[r]) == e),
{
    let k = all_entries(t).index_of(e);
    if k < t.inbound.len() {
        assert(received_entry()(t.inbound[k]) == e);
    } else {
        assert(sent_entry()(t.outbound[k - t.inbound.len()]) == e);
    }
}

proof fn lemma_row_is_entry(t: Tables, r: int)
    ensures
        0 <= r < t.inbound.len() ==> all_entries(t).contains(received_entry()(t.inbound[r])),
        0 <= r < t.outbound.len() ==> all_entries(t).contains(sent_entry()(t.outbound[r])),
{
    if 0 <= r < t.inbound.len() {
        assert(all_entries(t)[r] == received_entry()(t.inbound[r]));
    }
    if 0 <= r < t.outbound.len() {
        assert(all_entries(t)[t.inbound.len() + r] == sent_entry()(t.outbound[r]));
    }
}

/// Every message on a page is one of the rows of its thread, shown as it is
/// stored.
pub proof fn law_page_shows_the_rows(
    t: Tables,
    thread_id: i32,
    limit: int,
    before: Option<Seq<char>>,
    after: Option<Seq<char>>,
    i: int,
)
    requires
        0 <= i < messages_of(t, thread_id, limit, before, after).len(),
    ensures
        shows_a_row(
            t,
            messages_of(t, thread_id, limit, before, after)[i],
            thread_id,
            before,
            after,
        ),
{
    let line = chat_line(t, thread_id, before, after);
    let e = line[i];
    assert(messages_of(t, thread_id, limit, before, after)[i] == message_shown()(e));
    lemma_chat_line(t, thread_id, before, after, e);
    assert(line.contains(e));
    lemma_entry(t, e);
}

/// How many rows of the thread lie between the times.
pub open spec fn rows_between(
    t: Tables,
    thread_id: i32,
    before: Option<Seq<char>>,
    after: Option<Seq<char>>,
) -> nat {
    t.inbound.filter(
        |r: InboundRowView| row_in(r.thread_id, thread_id) && between(r.created_at, before, after),
    ).len() + t.outbound.filter(
        |r: OutboundRowView| row_in(r.thread_id, thread_id) && between(r.created_at, before, after),
    ).len()
}

proof fn lemma_filter_mapped<A, B>(
    s: Seq<A>,
    f: spec_fn(A) -> B,
    p: spec_fn(B) -> bool,
    q: spec_fn(A) -> bool,
)
    requires
        forall|a: A| #[trigger] q(a) == p(f(a)),
    ensures
        s.map_values(f).filter(p).len() == s.filter(q).len(),
    decreases s.len(),
{
    reveal(Seq::filter);
    if s.len() > 0 {
        lemma_filter_mapped(s.drop_last(), f, p, q);
        assert(s.map_values(f).drop_last() =~= s.drop_last().map_values(f));
        assert(q(s.last()) == p(f(s.last())));
    }
}

proof fn lemma_filter_joined<A>(a: Seq<A>, b: Seq<A>, p: spec_fn(A) -> bool)
    ensures
        (a + b).filter(p).len() == a.filter(p).len() + b.filter(p).len(),
    decreases b.len(),
{
    reveal(Seq::filter);
    if b.len() > 0 {
        lemma_filter_joined(a, b.drop_last(), p);
        assert((a + b).drop_last() =~= a + b.drop_last());
        assert((a + b).last() == b.last());
    } else {
        assert(a + b =~= a);
    }
}

/// A page leaves out no row and shows none twice: without a limit it has as many
/// messages as there are rows, and a limit only cuts it off.
pub proof fn law_page_counts_the_rows(
    t: Tables,
    thread_id: i32,
    limit: int,
    before: Option<Seq<char>>,
    after: Option<Seq<char>>,
    i: int,
)
    ensures
        ({
            let whole = messages_of(t, thread_id, -1, before, after);
            let page = messages_of(t, thread_id, limit, before, after);
            &&& whole.len() == rows_between(t, thread_id, before, after)
            &&& limit < 0 || whole.len() <= limit ==> page == whole
            &&& 0 <= limit < whole.len() ==> page.len() == limit
            &&& 0 <= i < page.len() ==> page[i] == whole[i]
        }),
{
    let p = in_chat(thread_id, before, after);
    law_time_line_keeps_all(all_entries(t).filter(p));
    lemma_filter_joined(
        t.inbound.map_values(received_entry()),
        t.outbound.map_values(sent_entry()),
        p,
    );
    lemma_filter_mapped(
        t.inbound,
        received_entry(),
        p,
        |r: InboundRowView| row_in(r.thread_id, thread_id) && between(r.created_at, before, after),
    );
    lemma_filter_mapped(
        t.outbound,
        sent_entry(),
        p,
        |r: OutboundRowView| row_in(r.thread_id, thread_id) && between(r.created_at, before, after),
    );
}

/// Every row of the thread between the times is on the page without a limit.
pub proof fn law_every_row_is_shown(
    t: Tables,
    thread_id: i32,
    before: Option<Seq<char>>,
    after: Option<Seq<char>>,
    r: int,
)
    ensures
        ({
            let whole = messages_of(t, thread_id, -1, before, after);
            &&& 0 <= r < t.inbound.len() && row_in(t.inbound[r].thread_id, thread_id) && between(
                t.inbound[r].created_at,
                before,
                after,
            ) ==> exists|i: int|
                0 <= i < whole.len() && shows_received(#[trigger] whole[i], t.inbound[r])
            &&& 0 <= r < t.outbound.len() && row_in(t.outbound[r].thread_id, thread_id) && between(
                t.outbound[r].created_at,
                before,
                after,
            ) ==> exists|i: int|
                0 <= i < whole.len() && shows_sent(#[trigger] whole[i], t.outbound[r])
        }),
{
    let whole = messages_of(t, thread_id, -1, before, after);
    let line = chat_line(t, thread_id, before, after);
    lemma_row_is_entry(t, r);
    if 0 <= r < t.inbound.len() && row_in(t.inbound[r].thread_id, thread_id) && between(
        t.inbound[r].created_at,
        before,
        after,
    ) {
        let e = received_entry()(t.inbound[r]);
        lemma_chat_line(t, thread_id, before, after, e);
        let i = line.index_of(e);
        assert(shows_received(whole[i], t.inbound[r]));
    }
    if 0 <= r < t.outbound.len() && row_in(t.outbound[r].thread_id, thread_id) && between(
        t.outbound[r].created_at,
        before,
        after,
    ) {
        let e = sent_entry()(t.outbound[r]);
        lemma_chat_line(t, thread_id, before, after, e);
        let i = line.index_of(e);
        assert(shows_sent(whole[i], t.outbound[r]));
    }
}

/// A page goes from the newest message to the oldest, and of messages of the same
/// time the one with the greater id comes first.
pub proof fn law_page_goes_back_in_time(
    t: Tables,
    thread_id: i32,
    limit: int,
    before: Option<Seq<char>>,
    after: Option<Seq<char>>,
    i: int,
    j: int,
)
    requires
        0 <= i < j < messages_of(t, thread_id, limit, before, after).len(),
    ensures
        ({
            let page = messages_of(t, thread_id, limit, before, after);
            &&& at_most(page[j].timestamp, page[i].timestamp)
            &&& page[i].timestamp == page[j].timestamp ==> exists|a: i64, b: i64|
                a >= b && page[i].id == page[i].direction + ":"@ + #[trigger] int_text(a as int)
                    && page[j].id == page[j].direction + ":"@ + #[trigger] int_text(b as int)
        }),
{
    let page = messages_of(t, thread_id, limit, before, after);
    let line = chat_line(t, thread_id, before, after);
    law_time_line_is_ordered(all_entries(t).filter(in_chat(thread_id, before, after)));
    assert(page[i] == message_shown()(line[i]));
    assert(page[j] == message_shown()(line[j]));
    assert(!newer(line[j], line[i]));
    if page[i].timestamp == page[j].timestamp {
        assert(page[i].id == page[i].direction + ":"@ + int_text(line[i].id as int));
        assert(page[j].id == page[j].direction + ":"@ + int_text(line[j].id as int));
    }
}

// ---------------------------------------------------------------------------
// Chats
// ---------------------------------------------------------------------------

/// The chat shows the row as its last message.
pub open spec fn last_is_received(c: ChatSummaryView, r: InboundRowView) -> bool {
    &&& row_in(r.thread_id, c.thread_id)
    &&& c.last_message_at == r.created_at
    &&& c.last_message_preview == r.body
    &&& c.last_message_direction == "in"@
}

pub open spec fn last_is_sent(c: ChatSummaryView, r: OutboundRowView) -> bool {
    &&& row_in(r.thread_id, c.thread_id)
    &&& c.last_message_at == r.created_at
    &&& c.last_message_preview == r.body
    &&& c.last_message_direction == "out"@
}

/// A chat shows the newest row of its thread, and its topic as it is stored:
/// title, contact, the name of the contact, and default number. A thread without
/// a topic is General.
pub proof fn law_chat_shows_its_newest_row(
    t: Tables,
    limit: int,
    before: Option<Seq<char>>,
    after: Option<Seq<char>>,
    i: int,
)
    requires
        t.wf(),
        0 <= i < chats_of(t, limit, before, after).len(),
    ensures
        ({
            let c = chats_of(t, limit, before, after)[i];
            &&& between(c.last_message_at, before, after)
            &&& (exists|r: int|
                0 <= r < t.inbound.len() && last_is_received(c, #[trigger] t.inbound[r])) || (
            exists|r: int|
                0 <= r < t.outbound.len() && last_is_sent(c, #[trigger] t.outbound[r]))
            &&& forall|r: int|
                0 <= r < t.inbound.len() && row_in((#[trigger] t.inbound[r]).thread_id, c.thread_id)
                    ==> at_most(t.inbound[r].created_at, c.last_message_at)
            &&& forall|r: int|
                0 <= r < t.outbound.len() && row_in(
                    (#[trigger] t.outbound[r]).thread_id,
                    c.thread_id,
                ) ==> at_most(t.outbound[r].created_at, c.last_message_at)
            &&& forall|k: int|
                0 <= k < t.topics.len() && (#[trigger] t.topics[k]).topic.thread_id == c.thread_id
                    ==> c.title == t.topics[k].topic.title && c.contact_id
                    == t.topics[k].topic.contact_id && c.default_e164
                    == t.topics[k].topic.default_e164
            &&& forall|k: int|
                0 <= k < t.contacts.len() && c.contact_id == Some((#[trigger] t.contacts[k]).id)
                    ==> c.display_name == Some(t.contacts[k].display_name)
            &&& c.contact_id is None ==> c.display_name is None
            &&& (forall|k: int|
                0 <= k < t.topics.len() ==> (#[trigger] t.topics[k]).topic.thread_id != c.thread_id)
                ==> c.thread_id == 1 && c.title == "General"@ && c.contact_id is None
                && c.default_e164 is None
        }),
{
    let p = listed(t, before, after);
    let line = time_line(all_entries(t));
    let all = heads(line);
    let kept = all.filter(p);
    let c = chats_of(t, limit, before, after)[i];
    assert(c == chat_shown(t)(kept[i]));
    let h = lemma_filter_from(all, p, i);
    let e = all[h];
    assert(e == kept[i]);
    lemma_heads(line);
    assert(line.contains(all[h]));
    lemma_in_line(all_entries(t), e);
    lemma_entry(t, e);
    law_time_line_is_ordered(all_entries(t));
    assert forall|x: EntryView|
        all_entries(t).contains(x) && x.thread_id == e.thread_id implies #[trigger] at_most(
        x.timestamp,
        e.timestamp,
    ) by {
        lemma_in_line(all_entries(t), x);
        let k = line.index_of(x);
        lemma_head_is_newest(line, k);
        let m = choose|m: int|
            0 <= m < all.len() && (#[trigger] all[m]).thread_id == line[k].thread_id && !newer(
                line[k],
                all[m],
            );
        if m < h {
            assert(all[m].thread_id != all[h].thread_id);
        }
        if h < m {
            assert(all[h].thread_id != all[m].thread_id);
        }
        law_order_total(x.timestamp, e.timestamp);
    }
    assert forall|r: int|
        0 <= r < t.inbound.len() && row_in(
            (#[trigger] t.inbound[r]).thread_id,
            c.thread_id,
        ) implies at_most(t.inbound[r].created_at, c.last_message_at) by {
        lemma_row_is_entry(t, r);
        let x = received_entry()(t.inbound[r]);
        assert(at_most(x.timestamp, e.timestamp));
    }
    assert forall|r: int|
        0 <= r < t.outbound.len() && row_in(
            (#[trigger] t.outbound[r]).thread_id,
            c.thread_id,
        ) implies at_most(t.outbound[r].created_at, c.last_message_at) by {
        lemma_row_is_entry(t, r);
        let x = sent_entry()(t.outbound[r]);
        assert(at_most(x.timestamp, e.timestamp));
    }
    assert forall|k: int|
        0 <= k < t.topics.len() && (#[trigger] t.topics[k]).topic.thread_id
            == c.thread_id implies c.title == t.topics[k].topic.title && c.contact_id
        == t.topics[k].topic.contact_id && c.default_e164 == t.topics[k].topic.default_e164 by {
        law_thread_finds_its_topic(t, k, c.thread_id);
    }
    assert forall|k: int|
        0 <= k < t.contacts.len() && c.contact_id == Some(
            (#[trigger] t.contacts[k]).id,
        ) implies c.display_name == Some(t.contacts[k].display_name) by {
        law_id_finds_its_contact(t, k, t.contacts[k].id);
    }
    law_thread_finds_its_topic(t, -1, c.thread_id);
    if exists|r: int| 0 <= r < t.inbound.len() && received_entry()(#[trigger] t.inbound[r]) == e {
        let r = choose|r: int|
            0 <= r < t.inbound.len() && received_entry()(#[trigger] t.inbound[r]) == e;
        assert(last_is_received(c, t.inbound[r]));
    } else {
        let r = choose|r: int|
            0 <= r < t.outbound.len() && sent_entry()(#[trigger] t.outbound[r]) == e;
        assert(last_is_sent(c, t.outbound[r]));
    }
}

/// Every thread with a row that is General or has a topic is among the chats that
/// are listed without a limit or a time.
pub proof fn law_every_chat_is_listed(t: Tables, thread_id: i32, r: int)
    requires
        t.wf(),
        (0 <= r < t.inbound.len() && row_in(t.inbound[r].thread_id, thread_id)) || (0 <= r
            < t.outbound.len() && row_in(t.outbound[r].thread_id, thread_id)),
        thread_id == 1 || exists|k: int|
            0 <= k < t.topics.len() && (#[trigger] t.topics[k]).topic.thread_id == thread_id,
    ensures
        ({
            let chats = chats_of(t, -1, None, None);
            exists|i: int| 0 <= i < chats.len() && (#[trigger] chats[i]).thread_id == thread_id
        }),
{
    let p = listed(t, None, None);
    let line = time_line(all_entries(t));
    let all = heads(line);
    lemma_row_is_entry(t, r);
    let e = if 0 <= r < t.inbound.len() && row_in(t.inbound[r].thread_id, thread_id) {
        received_entry()(t.inbound[r])
    } else {
        sent_entry()(t.outbound[r])
    };
    lemma_in_line(all_entries(t), e);
    law_time_line_is_ordered(all_entries(t));
    let k = line.index_of(e);
    lemma_head_is_newest(line, k);
    let m = choose|m: int|
        0 <= m < all.len() && (#[trigger] all[m]).thread_id == line[k].thread_id && !newer(
            line[k],
            all[m],
        );
    if thread_id != 1 {
        let k2 = choose|k2: int|
            0 <= k2 < t.topics.len() && (#[trigger] t.topics[k2]).topic.thread_id == thread_id;
        law_thread_finds_its_topic(t, k2, thread_id);
    }
    assert(p(all[m]));
    let i = lemma_filter_keeps(all, p, m);
    assert(chats_of(t, -1, None, None)[i].thread_id == thread_id);
}

/// The heads of a time line stand in its order.
proof fn lemma_heads_ordered(s: Seq<EntryView>)
    requires
        forall|i: int, j: int| 0 <= i < j < s.len() ==> !newer(#[trigger] s[j], #[trigger] s[i]),
    ensures
        forall|i: int, j: int|
            0 <= i < j < heads(s).len() ==> !newer(#[trigger] heads(s)[j], #[trigger] heads(s)[i]),
    decreases s.len(),
{
    if s.len() > 0 {
        let front = s.drop_last();
        lemma_heads_ordered(front);
        lemma_heads(front);
        assert forall|i: int, j: int| 0 <= i < j < heads(s).len() implies !newer(
            #[trigger] heads(s)[j],
            #[trigger] heads(s)[i],
        ) by {
            let k = front.index_of(heads(front)[i]);
            assert(front.contains(heads(front)[i]));
            assert(s[k] == heads(s)[i]);
            if j < heads(front).len() {
                assert(!newer(heads(front)[j], heads(front)[i]));
            } else {
                assert(heads(s)[j] == s[s.len() - 1]);
            }
        }
    }
}

/// The chat with the newest message comes first.
pub proof fn law_chats_go_back_in_time(
    t: Tables,
    limit: int,
    before: Option<Seq<char>>,
    after: Option<Seq<char>>,
    i: int,
    j: int,
)
    requires
        0 <= i < j < chats_of(t, limit, before, after).len(),
    ensures
        at_most(
            chats_of(t, limit, before, after)[j].last_message_at,
            chats_of(t, limit, before, after)[i].last_message_at,
        ),
{
    let p = listed(t, before, after);
    let line = time_line(all_entries(t));
    law_time_line_is_ordered(all_entries(t));
    lemma_heads_ordered(line);
    let all = heads(line);
    let (a, b) = crate::laws::found::lemma_filter_back(all, p, i, j);
    assert(!newer(all[b], all[a]));
    assert(chats_of(t, limit, before, after)[i] == chat_shown(t)(all[a]));
    assert(chats_of(t, limit, before, after)[j] == chat_shown(t)(all[b]));
}

// ---------------------------------------------------------------------------
// Pages
// ---------------------------------------------------------------------------

/// The next page begins where a full page ends; a page that is not full is the
/// last one.
pub proof fn law_next_page_begins_at_the_end(t: Tables, page: PageView, thread_id: i32)
    requires
        page.limit > 0,
    ensures
        ({
            let chats = chats_page_of(t, page);
            &&& chats.chats == chats_of(t, page.limit as int, page.before, page.after)
            &&& chats.chats.len() == page.limit ==> chats.next_before == Some(
                chats.chats.last().last_message_at,
            )
            &&& chats.chats.len() < page.limit ==> chats.next_before is None
        }),
        messages_page_of(t, thread_id, page, None, None) matches Ok(m) ==> {
            &&& m.thread_id == thread_id
            &&& m.messages == messages_of(
                t,
                thread_id,
                page.limit as int,
                page.before,
                page.after,
            )
            &&& m.messages.len() == page.limit ==> m.next_before == Some(
                m.messages.last().timestamp,
            )
            &&& m.messages.len() < page.limit ==> m.next_before is None
        },
{
}

/// The messages of General can always be listed, and so can those of every
/// thread with a topic, under its title; those of another thread cannot.
pub proof fn law_messages_of_a_topic_are_listed(t: Tables, page: PageView, k: int, thread_id: i32)
    requires
        t.wf(),
    ensures
        messages_page_of(t, 1, page, None, None) matches Ok(m) && m.title == "General"@
            && m.contact_id is None,
        0 <= k < t.topics.len() && t.topics[k].topic.thread_id != 1 ==> (messages_page_of(
            t,
            t.topics[k].topic.thread_id,
            page,
            None,
            None,
        ) matches Ok(m) && m.title == t.topics[k].topic.title && m.contact_id
            == t.topics[k].topic.contact_id),
        thread_id != 1 && (forall|j: int|
            0 <= j < t.topics.len() ==> (#[trigger] t.topics[j]).topic.thread_id != thread_id)
            ==> messages_page_of(t, thread_id, page, None, None) == Err::<
            crate::actions::history::MessageListView,
            ActionErrorView,
        >(ActionErrorView::NotFound("unknown thread"@)),
{
    law_thread_finds_its_topic(t, k, thread_id);
}

/// A page holds fifty entries unless another number from one to a hundred is
/// asked for.
pub proof fn law_page_size(limit: Option<i64>)
    ensures
        page_asked(limit, None, None) is Ok <==> (limit matches Some(n) ==> 1 <= n && n <= 100),
        page_asked(limit, None, None) matches Ok(page) ==> page.before is None && page.after is None
            && page.limit == match limit {
            Some(n) => n,
            None => 50,
        },
{
}

// ---------------------------------------------------------------------------
// Old rows
// ---------------------------------------------------------------------------

/// The topic is of a contact that the number is stored for.
pub open spec fn knows(t: Tables, i: int, e164: Seq<char>) -> bool {
    t.topics[i].topic.contact_id is Some && owns(t, t.topics[i].topic.contact_id->0, e164)
}

/// The number is the default one of no topic, and the topic is the first one of
/// a contact that it is stored for.
pub open spec fn knowing_topic_at(t: Tables, e164: Seq<char>, i: int) -> bool {
    &&& nobodys_default(t, e164)
    &&& 0 <= i < t.topics.len()
    &&& knows(t, i, e164)
    &&& forall|j: int| 0 <= j < i ==> !#[trigger] knows(t, j, e164)
}

proof fn lemma_knowing_topic(t: Tables, e164: Seq<char>, i: int)
    ensures
        knowing_topic_at(t, e164, i) ==> thread_of_number(t, e164) == Some(
            t.topics[i].topic.thread_id,
        ),
{
    if knowing_topic_at(t, e164, i) {
        let p = crate::db::history::knows_number(t, e164);
        crate::laws::found::law_default_finds_its_topic(t, e164, i);
        assert forall|j: int| 0 <= j < i implies !p(#[trigger] t.topics[j]) by {
            assert(!knows(t, j, e164));
            if let Some(c) = t.topics[j].topic.contact_id {
                crate::laws::found::lemma_owns(t, c, e164);
            }
        }
        crate::laws::found::lemma_owns(t, t.topics[i].topic.contact_id->0, e164);
        crate::laws::found::lemma_first_at(t.topics, p, i);
    }
}

/// A row without a thread gets the thread of the topic that its number leads to,
/// and every other row keeps its thread; nothing else of a row changes.
pub proof fn law_old_rows_find_their_threads(t: Tables, r: int, i: int)
    requires
        t.wf(),
    ensures
        ({
            let after = threads_filled(t);
            &&& after.inbound.len() == t.inbound.len() && after.outbound.len() == t.outbound.len()
            &&& 0 <= r < t.inbound.len() ==> after.inbound[r] == (InboundRowView {
                thread_id: after.inbound[r].thread_id,
                ..t.inbound[r]
            })
            &&& 0 <= r < t.outbound.len() ==> after.outbound[r] == (OutboundRowView {
                thread_id: after.outbound[r].thread_id,
                ..t.outbound[r]
            })
            &&& 0 <= r < t.inbound.len() && t.inbound[r].thread_id is Some ==> after.inbound[r]
                == t.inbound[r]
            &&& 0 <= r < t.outbound.len() && t.outbound[r].thread_id is Some ==> after.outbound[r]
                == t.outbound[r]
            &&& 0 <= r < t.inbound.len() && t.inbound[r].thread_id is None
                && crate::laws::found::default_topic_at(t, t.inbound[r].e164, i)
                ==> after.inbound[r].thread_id == Some(t.topics[i].topic.thread_id)
            &&& 0 <= r < t.outbound.len() && t.outbound[r].thread_id is None
                && crate::laws::found::default_topic_at(t, t.outbound[r].e164, i)
                ==> after.outbound[r].thread_id == Some(t.topics[i].topic.thread_id)
            &&& 0 <= r < t.inbound.len() && t.inbound[r].thread_id is None && knowing_topic_at(
                t,
                t.inbound[r].e164,
                i,
            ) ==> after.inbound[r].thread_id == Some(t.topics[i].topic.thread_id)
            &&& 0 <= r < t.outbound.len() && t.outbound[r].thread_id is None && knowing_topic_at(
                t,
                t.outbound[r].e164,
                i,
            ) ==> after.outbound[r].thread_id == Some(t.topics[i].topic.thread_id)
        }),
{
    if 0 <= r < t.inbound.len() {
        crate::laws::found::law_default_finds_its_topic(t, t.inbound[r].e164, i);
        lemma_knowing_topic(t, t.inbound[r].e164, i);
    }
    if 0 <= r < t.outbound.len() {
        crate::laws::found::law_default_finds_its_topic(t, t.outbound[r].e164, i);
        lemma_knowing_topic(t, t.outbound[r].e164, i);
    }
}

} // verus!
