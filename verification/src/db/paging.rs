//! What the time line and its pages promise.
use vstd::prelude::*;

use crate::collate::{
    at_most, below, law_order_antisymmetric, law_order_total, law_order_transitive,
};
use crate::db::history::{
    all_entries, chat_shown, chats_of, heads, in_chat, listed, message_shown, messages_of, newer,
    of_thread, older_than, placed, thread_of_number, threads_filled, time_line, within, EntryView,
};
use crate::rows::{find, first, lemma_find};
use crate::tables::Tables;

verus! {

/// No message stands behind one that it is newer than.
pub open spec fn newest_first(s: Seq<EntryView>) -> bool {
    forall|i: int, j: int| 0 <= i < j < s.len() ==> !newer(#[trigger] s[j], #[trigger] s[i])
}

proof fn lemma_newer_transitive(a: EntryView, b: EntryView, c: EntryView)
    requires
        newer(a, b),
        newer(b, c),
    ensures
        newer(a, c),
{
    law_order_total(a.timestamp, b.timestamp);
    law_order_total(b.timestamp, c.timestamp);
    law_order_total(a.timestamp, c.timestamp);
    law_order_transitive(c.timestamp, b.timestamp, a.timestamp);
    if at_most(a.timestamp, c.timestamp) {
        law_order_antisymmetric(a.timestamp, c.timestamp);
        law_order_transitive(b.timestamp, c.timestamp, a.timestamp);
    }
}

proof fn lemma_placed(s: Seq<EntryView>, e: EntryView)
    requires
        newest_first(s),
    ensures
        newest_first(placed(s, e)),
{
    let p = older_than(e);
    let k = find(s, p);
    lemma_find(s, p);
    let new = placed(s, e);
    assert forall|i: int, j: int| 0 <= i < j < new.len() implies !newer(
        #[trigger] new[j],
        #[trigger] new[i],
    ) by {
        let x = if i < k { i } else { i - 1 };
        let y = if j < k { j } else { j - 1 };
        if i != k && j != k {
            assert(new[i] == s[x] && new[j] == s[y]);
        } else if j == k {
            assert(new[i] == s[i]);
            assert(!p(s[i]));
        } else {
            assert(new[j] == s[j - 1]);
            assert(p(s[k]));
            if newer(s[j - 1], e) {
                lemma_newer_transitive(s[j - 1], e, s[k]);
                if j - 1 == k {
                    law_order_total(s[k].timestamp, s[k].timestamp);
                } else {
                    assert(!newer(s[j - 1], s[k]));
                }
            }
        }
    }
}

/// A time line goes from the newest message to the oldest.
pub proof fn law_time_line_is_ordered(s: Seq<EntryView>)
    ensures
        newest_first(time_line(s)),
    decreases s.len(),
{
    if s.len() > 0 {
        law_time_line_is_ordered(s.drop_last());
        lemma_placed(time_line(s.drop_last()), s.last());
    }
}

/// A time line holds the messages that it was made of, each as often as it
/// was there.
pub proof fn law_time_line_keeps_all(s: Seq<EntryView>)
    ensures
        time_line(s).to_multiset() == s.to_multiset(),
        time_line(s).len() == s.len(),
    decreases s.len(),
{
    broadcast use vstd::seq_lib::group_to_multiset_ensures;

    if s.len() > 0 {
        let front = s.drop_last();
        law_time_line_keeps_all(front);
        let line = time_line(front);
        lemma_find(line, older_than(s.last()));
        line.insert_ensures(find(line, older_than(s.last())), s.last());
        assert(s =~= front.push(s.last()));
        assert(time_line(s).to_multiset() =~= s.to_multiset());
    } else {
        assert(time_line(s) =~= s);
    }
}

pub(crate) proof fn lemma_in_line(s: Seq<EntryView>, e: EntryView)
    ensures
        time_line(s).contains(e) == s.contains(e),
{
    broadcast use vstd::seq_lib::group_to_multiset_ensures;

    law_time_line_keeps_all(s);
    assert(time_line(s).contains(e) <==> time_line(s).to_multiset().count(e) > 0);
    assert(s.contains(e) <==> s.to_multiset().count(e) > 0);
}

/// A page is no longer than its limit.
pub proof fn law_page_is_limited(
    t: Tables,
    thread_id: i32,
    limit: int,
    before: Option<Seq<char>>,
    after: Option<Seq<char>>,
)
    requires
        limit >= 0,
    ensures
        messages_of(t, thread_id, limit, before, after).len() <= limit,
        chats_of(t, limit, before, after).len() <= limit,
{
}

/// The messages of a thread within the cursors, newest first.
pub open spec fn chat_line(
    t: Tables,
    thread_id: i32,
    before: Option<Seq<char>>,
    after: Option<Seq<char>>,
) -> Seq<EntryView> {
    time_line(all_entries(t).filter(in_chat(thread_id, before, after)))
}

pub(crate) proof fn lemma_chat_line(
    t: Tables,
    thread_id: i32,
    before: Option<Seq<char>>,
    after: Option<Seq<char>>,
    e: EntryView,
)
    ensures
        chat_line(t, thread_id, before, after).contains(e) <==> all_entries(t).contains(e)
            && in_chat(thread_id, before, after)(e),
{
    broadcast use vstd::seq_lib::group_filter_ensures;

    let p = in_chat(thread_id, before, after);
    let kept = all_entries(t).filter(p);
    lemma_in_line(kept, e);
    if kept.contains(e) {
        let i = kept.index_of(e);
        assert(p(kept[i]));
        all_entries(t).lemma_filter_contains_rev(p, e);
    }
    if all_entries(t).contains(e) && p(e) {
        let i = all_entries(t).index_of(e);
        all_entries(t).lemma_filter_contains(p, i);
    }
}

/// Every message on a page lies within the cursors, and none is stamped later
/// than the one before it.
pub proof fn law_page_is_ordered(
    t: Tables,
    thread_id: i32,
    limit: int,
    before: Option<Seq<char>>,
    after: Option<Seq<char>>,
)
    ensures
        ({
            let page = messages_of(t, thread_id, limit, before, after);
            &&& forall|i: int|
                0 <= i < page.len() ==> within((#[trigger] page[i]).timestamp, before, after)
            &&& forall|i: int, j: int|
                0 <= i < j < page.len() ==> at_most(
                    (#[trigger] page[j]).timestamp,
                    (#[trigger] page[i]).timestamp,
                )
        }),
{
    let line = chat_line(t, thread_id, before, after);
    let page = messages_of(t, thread_id, limit, before, after);
    law_time_line_is_ordered(all_entries(t).filter(in_chat(thread_id, before, after)));
    assert forall|i: int| 0 <= i < page.len() implies within(
        (#[trigger] page[i]).timestamp,
        before,
        after,
    ) by {
        assert(page[i] == message_shown()(line[i]));
        lemma_chat_line(t, thread_id, before, after, line[i]);
    }
    assert forall|i: int, j: int| 0 <= i < j < page.len() implies at_most(
        (#[trigger] page[j]).timestamp,
        (#[trigger] page[i]).timestamp,
    ) by {
        assert(page[i] == message_shown()(line[i]));
        assert(page[j] == message_shown()(line[j]));
        assert(!newer(line[j], line[i]));
    }
}

/// The page that begins before the last message of a page shows only messages
/// that are strictly older than all of that page.
pub proof fn law_pages_do_not_overlap(
    t: Tables,
    thread_id: i32,
    limit: int,
    before: Option<Seq<char>>,
    after: Option<Seq<char>>,
    i: int,
    j: int,
)
    requires
        ({
            let page = messages_of(t, thread_id, limit, before, after);
            let next = messages_of(t, thread_id, limit, Some(page.last().timestamp), after);
            0 <= i < page.len() && 0 <= j < next.len()
        }),
    ensures
        ({
            let page = messages_of(t, thread_id, limit, before, after);
            let next = messages_of(t, thread_id, limit, Some(page.last().timestamp), after);
            below(next[j].timestamp, page[i].timestamp)
        }),
{
    let page = messages_of(t, thread_id, limit, before, after);
    let edge = page.last().timestamp;
    let next = messages_of(t, thread_id, limit, Some(edge), after);
    law_page_is_ordered(t, thread_id, limit, before, after);
    law_page_is_ordered(t, thread_id, limit, Some(edge), after);
    law_order_total(edge, edge);
    assert(at_most(edge, page[i].timestamp));
    assert(within(next[j].timestamp, Some(edge), after));
    if at_most(page[i].timestamp, next[j].timestamp) {
        law_order_transitive(edge, page[i].timestamp, next[j].timestamp);
    }
}

/// A page skips nothing: a message of the thread within the cursors is on the
/// page or stamped no later than its last message.
pub proof fn law_page_skips_nothing(
    t: Tables,
    thread_id: i32,
    limit: int,
    before: Option<Seq<char>>,
    after: Option<Seq<char>>,
    e: EntryView,
)
    requires
        limit > 0,
        all_entries(t).contains(e),
        in_chat(thread_id, before, after)(e),
    ensures
        ({
            let page = messages_of(t, thread_id, limit, before, after);
            page.len() > 0 && (page.contains(message_shown()(e)) || at_most(
                e.timestamp,
                page.last().timestamp,
            ))
        }),
{
    let line = chat_line(t, thread_id, before, after);
    let page = messages_of(t, thread_id, limit, before, after);
    law_time_line_is_ordered(all_entries(t).filter(in_chat(thread_id, before, after)));
    lemma_chat_line(t, thread_id, before, after, e);
    let i = line.index_of(e);
    assert(line[i] == e);
    let last = page.len() - 1;
    assert(page[last] == message_shown()(line[last]));
    if i <= last {
        assert(page[i] == message_shown()(e));
    } else {
        assert(!newer(line[i], line[last]));
    }
}

pub(crate) proof fn lemma_heads(s: Seq<EntryView>)
    ensures
        forall|i: int, j: int|
            0 <= i < j < heads(s).len() ==> (#[trigger] heads(s)[i]).thread_id != (
            #[trigger] heads(s)[j]).thread_id,
        forall|i: int| 0 <= i < heads(s).len() ==> s.contains(#[trigger] heads(s)[i]),
    decreases s.len(),
{
    if s.len() > 0 {
        let front = s.drop_last();
        lemma_heads(front);
        let p = of_thread(s.last().thread_id);
        lemma_find(front, p);
        assert forall|i: int| 0 <= i < heads(s).len() implies s.contains(
            #[trigger] heads(s)[i],
        ) by {
            if i < heads(front).len() {
                let k = front.index_of(heads(front)[i]);
                assert(s[k] == heads(s)[i]);
            } else {
                assert(s[s.len() - 1] == heads(s)[i]);
            }
        }
        if first(front, p) is None {
            assert forall|i: int| 0 <= i < heads(front).len() implies (
            #[trigger] heads(front)[i]).thread_id != s.last().thread_id by {
                let k = front.index_of(heads(front)[i]);
                assert(!p(front[k]));
            }
        }
    }
}

pub(crate) proof fn lemma_head_is_newest(s: Seq<EntryView>, k: int)
    requires
        newest_first(s),
        0 <= k < s.len(),
    ensures
        exists|i: int|
            0 <= i < heads(s).len() && (#[trigger] heads(s)[i]).thread_id == s[k].thread_id
                && !newer(s[k], heads(s)[i]),
    decreases s.len(),
{
    let front = s.drop_last();
    let p = of_thread(s.last().thread_id);
    lemma_find(front, p);
    if k < front.len() {
        lemma_head_is_newest(front, k);
        let i = choose|i: int|
            0 <= i < heads(front).len() && (#[trigger] heads(front)[i]).thread_id
                == front[k].thread_id && !newer(front[k], heads(front)[i]);
        assert(heads(s)[i] == heads(front)[i]);
    } else if first(front, p) is Some {
        let m = find(front, p);
        lemma_head_is_newest(front, m);
        let i = choose|i: int|
            0 <= i < heads(front).len() && (#[trigger] heads(front)[i]).thread_id
                == front[m].thread_id && !newer(front[m], heads(front)[i]);
        assert(heads(s)[i] == heads(front)[i]);
        lemma_heads(front);
        let n = front.index_of(heads(front)[i]);
        assert(s[n] == heads(front)[i]);
        assert(!newer(s[k], s[n]));
    } else {
        law_order_total(s[k].timestamp, s[k].timestamp);
        assert(heads(s)[heads(front).len() as int] == s[k]);
    }
}

/// Every thread that has a message has one at its head, and no message of the
/// thread is newer than that one.
pub proof fn law_head_is_newest(t: Tables, e: EntryView)
    requires
        all_entries(t).contains(e),
    ensures
        ({
            let all = heads(time_line(all_entries(t)));
            exists|i: int|
                0 <= i < all.len() && (#[trigger] all[i]).thread_id == e.thread_id && !newer(
                    e,
                    all[i],
                )
        }),
{
    let line = time_line(all_entries(t));
    law_time_line_is_ordered(all_entries(t));
    lemma_in_line(all_entries(t), e);
    let k = line.index_of(e);
    lemma_head_is_newest(line, k);
}

proof fn lemma_filter_distinct(s: Seq<EntryView>, p: spec_fn(EntryView) -> bool)
    requires
        forall|i: int, j: int|
            0 <= i < j < s.len() ==> (#[trigger] s[i]).thread_id != (#[trigger] s[j]).thread_id,
    ensures
        forall|i: int, j: int|
            0 <= i < j < s.filter(p).len() ==> (#[trigger] s.filter(p)[i]).thread_id != (
            #[trigger] s.filter(p)[j]).thread_id,
    decreases s.len(),
{
    broadcast use vstd::seq_lib::group_filter_ensures;

    reveal(Seq::filter);
    if s.len() > 0 {
        let front = s.drop_last();
        lemma_filter_distinct(front, p);
        let kept = front.filter(p);
        assert forall|i: int| 0 <= i < kept.len() implies (#[trigger] kept[i]).thread_id
            != s.last().thread_id by {
            front.lemma_filter_contains_rev(p, kept[i]);
            let k = front.index_of(kept[i]);
            assert(s[k] == kept[i]);
        }
    }
}

/// No chat is listed twice.
pub proof fn law_chats_are_distinct(
    t: Tables,
    limit: int,
    before: Option<Seq<char>>,
    after: Option<Seq<char>>,
)
    ensures
        ({
            let chats = chats_of(t, limit, before, after);
            forall|i: int, j: int|
                0 <= i < j < chats.len() ==> (#[trigger] chats[i]).thread_id != (
                #[trigger] chats[j]).thread_id
        }),
{
    let all = heads(time_line(all_entries(t)));
    lemma_heads(time_line(all_entries(t)));
    lemma_filter_distinct(all, listed(t, before, after));
    let kept = all.filter(listed(t, before, after));
    let chats = chats_of(t, limit, before, after);
    assert forall|i: int, j: int| 0 <= i < j < chats.len() implies (#[trigger] chats[i]).thread_id
        != (#[trigger] chats[j]).thread_id by {
        assert(chats[i] == chat_shown(t)(kept[i]));
        assert(chats[j] == chat_shown(t)(kept[j]));
    }
}

/// Looking for the threads of old messages a second time finds no more than
/// the first did.
pub proof fn law_threads_are_filled_once(t: Tables)
    ensures
        threads_filled(threads_filled(t)) == threads_filled(t),
{
    let once = threads_filled(t);
    let twice = threads_filled(once);
    assert forall|e164: Seq<char>| #[trigger] thread_of_number(once, e164) == thread_of_number(
        t,
        e164,
    ) by {
        assert(crate::db::history::knows_number(once, e164) =~= crate::db::history::knows_number(
            t,
            e164,
        ));
    }
    assert(twice.inbound =~= once.inbound);
    assert(twice.outbound =~= once.outbound);
}

} // verus!
