//! What storing changes, row by row, and what it leaves alone.
use vstd::prelude::*;

use crate::laws::found::{lemma_filter_from, lemma_filter_keeps};
use crate::rows::{find, lemma_find};
use crate::tables::{
    contact_put, default_put, forward_dropped, forward_put, from_thread_on, ignored_put,
    incoming_marked, not_of_contact, numbers_put, pending_in, pending_put, topic_put, with_resource,
    ContactRowView, NumberRowView, PendingForward, Tables, TopicRowView, TopicView,
};

verus! {

/// A number that wrote just now is marked with the time, under every contact that
/// it is stored for; no other number is, and nothing else changes.
pub proof fn law_only_the_writer_is_marked(t: Tables, e164: Seq<char>, now: Seq<char>, i: int)
    ensures
        ({
            let after = incoming_marked(t, e164, now);
            &&& after == (Tables { numbers: after.numbers, ..t })
            &&& after.numbers.len() == t.numbers.len()
            &&& 0 <= i < t.numbers.len() && t.numbers[i].e164 == e164 ==> after.numbers[i] == (
            NumberRowView { last_seen_incoming: Some(now), ..t.numbers[i] })
            &&& 0 <= i < t.numbers.len() && t.numbers[i].e164 != e164 ==> after.numbers[i]
                == t.numbers[i]
        }),
{
}

/// A default number is set in its own topic; the topic keeps all else, and no
/// other row changes.
pub proof fn law_only_that_default_is_set(t: Tables, thread_id: i32, e164: Seq<char>, i: int)
    ensures
        ({
            let after = default_put(t, thread_id, e164);
            &&& after == (Tables { topics: after.topics, ..t })
            &&& after.topics.len() == t.topics.len()
            &&& 0 <= i < t.topics.len() && t.topics[i].topic.thread_id == thread_id
                ==> after.topics[i] == (TopicRowView {
                topic: TopicView { default_e164: Some(e164), ..t.topics[i].topic },
                ..t.topics[i]
            })
            &&& 0 <= i < t.topics.len() && t.topics[i].topic.thread_id != thread_id
                ==> after.topics[i] == t.topics[i]
        }),
{
}

/// A text waits in its own topic with the message that it came from, and no other
/// row changes.
pub proof fn law_only_that_text_waits(
    t: Tables,
    thread_id: i32,
    text: Option<Seq<char>>,
    reply_to: Option<i32>,
    i: int,
)
    ensures
        ({
            let after = pending_put(t, thread_id, text, reply_to);
            &&& after == (Tables { topics: after.topics, ..t })
            &&& after.topics.len() == t.topics.len()
            &&& 0 <= i < t.topics.len() && t.topics[i].topic.thread_id == thread_id
                ==> after.topics[i] == (TopicRowView {
                topic: t.topics[i].topic,
                pending_outbound: text,
                pending_reply_to: reply_to,
            })
            &&& 0 <= i < t.topics.len() && t.topics[i].topic.thread_id != thread_id
                ==> after.topics[i] == t.topics[i]
        }),
{
}

/// The text that waits in a topic is the one in its row.
pub proof fn law_waiting_text_is_the_stored_one(t: Tables, i: int, text: Seq<char>)
    requires
        t.wf(),
        0 <= i < t.topics.len(),
    ensures
        t.topics[i].pending_outbound == Some(text) ==> pending_in(t, t.topics[i].topic.thread_id)
            == Some((text, t.topics[i].pending_reply_to)),
        t.topics[i].pending_outbound is None ==> pending_in(t, t.topics[i].topic.thread_id) is None,
{
    let p = crate::tables::in_thread(t.topics[i].topic.thread_id);
    assert forall|j: int| 0 <= j < i implies !p(#[trigger] t.topics[j]) by {
        assert(t.topics[j].topic.thread_id < t.topics[i].topic.thread_id);
    }
    crate::laws::found::lemma_first_at(t.topics, p, i);
}

/// A topic is stored as it is; the rows of all other threads stay, and nothing
/// else changes.
pub proof fn law_only_that_topic_is_stored(t: Tables, topic: TopicView, i: int)
    requires
        t.wf(),
    ensures
        ({
            let after = topic_put(t, topic);
            &&& after == (Tables { topics: after.topics, ..t })
            &&& exists|k: int| 0 <= k < after.topics.len() && (#[trigger] after.topics[k]).topic
                == topic
            &&& 0 <= i < t.topics.len() && t.topics[i].topic.thread_id != topic.thread_id
                ==> after.topics.contains(t.topics[i])
            &&& 0 <= i < t.topics.len() && t.topics[i].topic.thread_id == topic.thread_id
                ==> after.topics.len() == t.topics.len() && after.topics[i].pending_outbound
                == t.topics[i].pending_outbound
            &&& after.topics.len() <= t.topics.len() + 1
        }),
{
    let after = topic_put(t, topic);
    let k = find(t.topics, from_thread_on(topic.thread_id));
    lemma_find(t.topics, from_thread_on(topic.thread_id));
    assert(after.topics[k].topic == topic);
    if 0 <= i < t.topics.len() {
        if t.topics[i].topic.thread_id != topic.thread_id {
            if k < t.topics.len() && t.topics[k].topic.thread_id == topic.thread_id {
                assert(after.topics[i] == t.topics[i]);
            } else if i < k {
                assert(after.topics[i] == t.topics[i]);
            } else {
                assert(after.topics[i + 1] == t.topics[i]);
            }
        } else {
            if i < k {
                assert(!from_thread_on(topic.thread_id)(t.topics[i]));
            }
            if k < i {
                assert(t.topics[k].topic.thread_id < t.topics[i].topic.thread_id);
                assert(from_thread_on(topic.thread_id)(t.topics[k]));
            }
        }
    }
}

/// A number that is ignored is added once, behind the others.
pub proof fn law_number_is_ignored_once(t: Tables, e164: Seq<char>)
    ensures
        t.ignored.contains(e164) ==> ignored_put(t, e164) == t,
        !t.ignored.contains(e164) ==> ignored_put(t, e164) == (Tables {
            ignored: t.ignored + seq![e164],
            ..t
        }),
{
    assert(t.ignored + seq![e164] =~= t.ignored.push(e164));
}

/// The numbers of a contact are replaced by the given ones, none of them seen yet;
/// those of all others stay.
pub proof fn law_only_those_numbers_are_replaced(
    t: Tables,
    id: i64,
    e164s: Seq<Seq<char>>,
    i: int,
    n: NumberRowView,
)
    ensures
        ({
            let after = numbers_put(t, id, e164s);
            &&& after == (Tables { numbers: after.numbers, ..t })
            &&& n.contact_id == id ==> (after.numbers.contains(n) <==> n.last_seen_incoming is None
                && e164s.contains(n.e164))
            &&& n.contact_id != id ==> (after.numbers.contains(n) <==> t.numbers.contains(n))
        }),
{
    let p = not_of_contact(id);
    let kept = t.numbers.filter(p);
    let fresh = e164s.map_values(crate::tables::fresh_number(id));
    let after = numbers_put(t, id, e164s).numbers;
    if after.contains(n) {
        let a = after.index_of(n);
        if a < kept.len() {
            let k = lemma_filter_from(t.numbers, p, a);
            assert(t.numbers[k] == n);
        } else {
            assert(after[a] == fresh[a - kept.len()]);
            assert(e164s[a - kept.len()] == n.e164);
        }
    }
    if n.contact_id == id && n.last_seen_incoming is None && e164s.contains(n.e164) {
        let b = e164s.index_of(n.e164);
        assert(after[kept.len() + b] == fresh[b]);
        assert(after[kept.len() + b] == n);
    }
    if n.contact_id != id && t.numbers.contains(n) {
        let k = t.numbers.index_of(n);
        let a = lemma_filter_keeps(t.numbers, p, k);
        assert(after[a] == n);
    }
}

/// A contact that is known by its resource gets the new name and keeps its id; all
/// others stay.
pub proof fn law_only_that_contact_is_stored(
    t: Tables,
    resource: Seq<char>,
    name: Seq<char>,
    now: Seq<char>,
    i: int,
)
    requires
        t.wf(),
    ensures
        ({
            let after = contact_put(t, resource, name, now);
            &&& after == (Tables { contacts: after.contacts, ..t })
            &&& 0 <= i < t.contacts.len() && t.contacts[i].google_resource != resource
                ==> after.contacts[i] == t.contacts[i]
            &&& 0 <= i < t.contacts.len() && t.contacts[i].google_resource == resource
                ==> after.contacts[i] == (ContactRowView {
                id: t.contacts[i].id,
                google_resource: resource,
                display_name: name,
                last_synced: now,
            })
        }),
{
    let p = with_resource(resource);
    lemma_find(t.contacts, p);
    if 0 <= i < t.contacts.len() && t.contacts[i].google_resource == resource {
        let k = find(t.contacts, p);
        if i < k {
            assert(!p(t.contacts[i]));
        }
        if k < i {
            assert(t.contacts[k].google_resource != t.contacts[i].google_resource);
        }
    }
}

/// A dialogue that begins in a thread takes the place of the one there, one that
/// ends leaves none, and those of other threads stay.
pub proof fn law_only_that_dialogue_changes(
    t: Tables,
    thread_id: i32,
    pending: PendingForward,
    f: (i32, PendingForward),
)
    ensures
        forward_put(t, thread_id, pending).forwards.contains(f) <==> f == (thread_id, pending) || (
        f.0 != thread_id && t.forwards.contains(f)),
        forward_dropped(t, thread_id).forwards.contains(f) <==> f.0 != thread_id
            && t.forwards.contains(f),
        forward_put(t, thread_id, pending) == (Tables {
            forwards: forward_put(t, thread_id, pending).forwards,
            ..t
        }),
        forward_dropped(t, thread_id) == (Tables {
            forwards: forward_dropped(t, thread_id).forwards,
            ..t
        }),
{
    let p = crate::tables::dialogue_elsewhere(thread_id);
    let kept = t.forwards.filter(p);
    let put = kept.push((thread_id, pending));
    if kept.contains(f) {
        let a = kept.index_of(f);
        let k = lemma_filter_from(t.forwards, p, a);
        assert(t.forwards[k] == f);
        assert(put[a] == f);
    }
    if f.0 != thread_id && t.forwards.contains(f) {
        let k = t.forwards.index_of(f);
        let a = lemma_filter_keeps(t.forwards, p, k);
        assert(kept[a] == f);
        assert(put[a] == f);
    }
    assert(put[kept.len() as int] == (thread_id, pending));
    if put.contains(f) {
        let a = put.index_of(f);
        if a < kept.len() {
            assert(kept[a] == f);
            let k = lemma_filter_from(t.forwards, p, a);
        }
    }
}

} // verus!
