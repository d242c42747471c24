//! What the store keeps for its callers: a read gives back what was written,
//! and a write touches nothing else.
use vstd::prelude::*;

use crate::db::log::inbound_after;
use crate::rows::{find, first, lemma_find, lemma_find_is};
use crate::tables::{
    about_contact, at_path, awaiting, contact_by_e164, contact_by_id, contact_id_for, contact_put,
    default_put, defaulting, dialogue_elsewhere, dialogue_in, e164_of, first_topic,
    forward_dropped, forward_in, forward_put, fresh_number, from_thread_on, has_number, holding,
    ignored_put, in_thread, inbound_put, is_ignored, next_inbound_id, not_of_contact, numbers_fit,
    numbers_of, numbers_put, of_contact, path_seen, pending_in, pending_put, record_of, sms_seen,
    topic_by_contact, topic_by_e164, topic_by_thread, topic_put, with_default, with_id,
    with_resource, ContactRowView, InboundRowView, NumberRowView, PendingForward, Tables,
    TopicRowView, TopicView,
};

verus! {

// ---------------------------------------------------------------------------
// Topics
// ---------------------------------------------------------------------------

/// Changing rows one by one without touching their threads: each thread has
/// its changed row.
proof fn lemma_mapped_row(t: Tables, f: spec_fn(TopicRowView) -> TopicRowView, thread_id: i32)
    requires
        forall|r: TopicRowView| (#[trigger] f(r)).topic.thread_id == r.topic.thread_id,
    ensures
        first(t.topics.map_values(f), in_thread(thread_id)) == match first(
            t.topics,
            in_thread(thread_id),
        ) {
            Some(r) => Some(f(r)),
            None => None,
        },
{
    let p = in_thread(thread_id);
    let new = t.topics.map_values(f);
    let i = find(t.topics, p);
    lemma_find(t.topics, p);
    assert forall|j: int| 0 <= j < i implies !p(#[trigger] new[j]) by {
        assert(new[j] == f(t.topics[j]));
        assert(!p(t.topics[j]));
    }
    if i < new.len() {
        assert(new[i] == f(t.topics[i]));
    }
    lemma_find_is(new, p, i);
}

/// A topic that was stored is the one of its thread, and the topics of other
/// threads are as they were.
pub proof fn law_topic_comes_back(t: Tables, topic: TopicView, other: i32)
    requires
        t.wf(),
    ensures
        topic_by_thread(topic_put(t, topic), topic.thread_id) == Some(topic),
        other != topic.thread_id ==> topic_by_thread(topic_put(t, topic), other)
            == topic_by_thread(t, other),
{
    let new = topic_put(t, topic).topics;
    let from = from_thread_on(topic.thread_id);
    let i = find(t.topics, from);
    lemma_find(t.topics, from);
    let here = i < t.topics.len() && t.topics[i].topic.thread_id == topic.thread_id;
    let p = in_thread(topic.thread_id);
    assert forall|j: int| 0 <= j < i implies !p(#[trigger] new[j]) by {
        assert(new[j] == t.topics[j]);
        assert(!from(t.topics[j]));
    }
    lemma_find_is(new, p, i);
    if other != topic.thread_id {
        let q = in_thread(other);
        let k = find(t.topics, q);
        lemma_find(t.topics, q);
        let m = if here || k < i { k } else { k + 1 };
        assert forall|j: int| 0 <= j < m implies !q(#[trigger] new[j]) by {
            if here || j < i {
                if j != i {
                    assert(new[j] == t.topics[j]);
                    assert(!q(t.topics[j]));
                }
            } else if j > i {
                assert(new[j] == t.topics[j - 1]);
                assert(!q(t.topics[j - 1]));
            }
        }
        if k < t.topics.len() {
            assert(new[m] == t.topics[k]);
        }
        lemma_find_is(new, q, m);
    }
}

/// Storing a topic where none had the property: the first that has it is the
/// stored one, if that one has it.
proof fn lemma_first_after_put(
    t: Tables,
    topic: TopicView,
    p: spec_fn(TopicRowView) -> bool,
    hit: bool,
)
    requires
        first_topic(t, p) is None,
        forall|r: TopicRowView| r.topic == topic ==> #[trigger] p(r) == hit,
    ensures
        first_topic(topic_put(t, topic), p) == if hit {
            Some(topic)
        } else {
            None
        },
{
    let new = topic_put(t, topic).topics;
    let from = from_thread_on(topic.thread_id);
    let i = find(t.topics, from);
    lemma_find(t.topics, from);
    lemma_find(t.topics, p);
    let here = i < t.topics.len() && t.topics[i].topic.thread_id == topic.thread_id;
    assert(new[i].topic == topic);
    assert forall|j: int| 0 <= j < new.len() && j != i implies !p(#[trigger] new[j]) by {
        if here || j < i {
            assert(new[j] == t.topics[j]);
            assert(!p(t.topics[j]));
        } else {
            assert(new[j] == t.topics[j - 1]);
            assert(!p(t.topics[j - 1]));
        }
    }
    if hit {
        lemma_find_is(new, p, i);
    } else {
        assert(!p(new[i]));
        lemma_find_is(new, p, new.len() as int);
    }
}

/// The first topic of a contact is found through that contact, and the first
/// topic with a default number through that number. Storing a topic changes no
/// contact.
pub proof fn law_first_topic_is_found(t: Tables, topic: TopicView, id: i64, e164: Seq<char>)
    ensures
        topic_by_contact(t, id) is None ==> topic_by_contact(topic_put(t, topic), id)
            == if topic.contact_id == Some(id) {
            Some(topic)
        } else {
            None
        },
        topic_by_e164(t, e164) is None ==> topic_by_e164(topic_put(t, topic), e164)
            == if topic.default_e164 == Some(e164) {
            Some(topic)
        } else {
            None
        },
        contact_by_id(topic_put(t, topic), id) == contact_by_id(t, id),
        contact_by_e164(topic_put(t, topic), e164) == contact_by_e164(t, e164),
{
    if topic_by_contact(t, id) is None {
        lemma_first_after_put(t, topic, about_contact(id), topic.contact_id == Some(id));
    }
    if topic_by_e164(t, e164) is None {
        lemma_first_after_put(t, topic, with_default(e164), topic.default_e164 == Some(e164));
    }
    assert(holding(topic_put(t, topic), e164) =~= holding(t, e164));
}

/// The default number that was set is the one of its topic; nothing else of
/// that topic changes, nor anything of the topics of other threads, nor what
/// waits in them.
pub proof fn law_default_comes_back(t: Tables, thread_id: i32, e164: Seq<char>, other: i32)
    ensures
        topic_by_thread(default_put(t, thread_id, e164), thread_id) == match topic_by_thread(
            t,
            thread_id,
        ) {
            Some(topic) => Some(TopicView { default_e164: Some(e164), ..topic }),
            None => None,
        },
        other != thread_id ==> topic_by_thread(default_put(t, thread_id, e164), other)
            == topic_by_thread(t, other),
        pending_in(default_put(t, thread_id, e164), other) == pending_in(t, other),
{
    lemma_find(t.topics, in_thread(thread_id));
    lemma_find(t.topics, in_thread(other));
    lemma_mapped_row(t, defaulting(thread_id, e164), thread_id);
    lemma_mapped_row(t, defaulting(thread_id, e164), other);
}

/// A text that was put to wait in a topic is handed out as it was put there,
/// and once it is handed out nothing waits there. The topics themselves stay.
pub proof fn law_pending_comes_back(
    t: Tables,
    thread_id: i32,
    text: Seq<char>,
    reply_to: Option<i32>,
    other: i32,
)
    requires
        topic_by_thread(t, thread_id) is Some,
    ensures
        pending_in(pending_put(t, thread_id, Some(text), reply_to), thread_id) == Some(
            (text, reply_to),
        ),
        pending_in(pending_put(t, thread_id, None, None), thread_id) is None,
        topic_by_thread(pending_put(t, thread_id, Some(text), reply_to), other) == topic_by_thread(
            t,
            other,
        ),
        topic_by_thread(pending_put(t, thread_id, None, None), other) == topic_by_thread(t, other),
        other != thread_id ==> pending_in(
            pending_put(t, thread_id, Some(text), reply_to),
            other,
        ) == pending_in(t, other),
{
    lemma_find(t.topics, in_thread(thread_id));
    lemma_find(t.topics, in_thread(other));
    lemma_mapped_row(t, awaiting(thread_id, Some(text), reply_to), thread_id);
    lemma_mapped_row(t, awaiting(thread_id, Some(text), reply_to), other);
    lemma_mapped_row(t, awaiting(thread_id, None, None), thread_id);
    lemma_mapped_row(t, awaiting(thread_id, None, None), other);
}

// ---------------------------------------------------------------------------
// Ignored numbers and forwarding dialogues
// ---------------------------------------------------------------------------

/// A number that was ignored is ignored, no other number is touched, and to
/// ignore it again changes nothing.
pub proof fn law_ignored_stays(t: Tables, e164: Seq<char>, other: Seq<char>)
    ensures
        is_ignored(ignored_put(t, e164), e164),
        other != e164 ==> is_ignored(ignored_put(t, e164), other) == is_ignored(t, other),
        ignored_put(ignored_put(t, e164), e164) == ignored_put(t, e164),
{
    let new = t.ignored.push(e164);
    assert(new[t.ignored.len() as int] == e164);
    if other != e164 && t.ignored.contains(other) {
        let i = t.ignored.index_of(other);
        assert(new[i] == other);
    }
    if other != e164 && new.contains(other) {
        let i = new.index_of(other);
        assert(t.ignored[i] == other);
    }
}

proof fn lemma_filtered_first(
    s: Seq<(i32, PendingForward)>,
    thread_id: i32,
    other: i32,
)
    ensures
        first(s.filter(dialogue_elsewhere(thread_id)), dialogue_in(thread_id)) is None,
        other != thread_id ==> first(
            s.filter(dialogue_elsewhere(thread_id)),
            dialogue_in(other),
        ) == first(s, dialogue_in(other)),
    decreases s.len(),
{
    let keep = dialogue_elsewhere(thread_id);
    let p = dialogue_in(thread_id);
    let q = dialogue_in(other);
    let kept = s.filter(keep);
    reveal(Seq::filter);
    if s.len() > 0 {
        let front = s.drop_last();
        lemma_filtered_first(front, thread_id, other);
        let left = front.filter(keep);
        lemma_find(left, p);
        lemma_find(left, q);
        lemma_find(front, q);
        lemma_find(kept, p);
        if find(kept, p) < kept.len() {
            if find(kept, p) < left.len() {
                assert(kept[find(kept, p)] == left[find(kept, p)]);
                assert(!p(left[find(kept, p)]));
            }
        }
        if other != thread_id {
            let k = find(front, q);
            if k < front.len() {
                assert forall|j: int| 0 <= j < k implies !q(#[trigger] s[j]) by {
                    assert(s[j] == front[j]);
                }
                lemma_find_is(s, q, k);
                let m = find(left, q);
                assert forall|j: int| 0 <= j < m implies !q(#[trigger] kept[j]) by {
                    assert(kept[j] == left[j]);
                }
                lemma_find_is(kept, q, m);
            } else {
                assert forall|j: int| 0 <= j < front.len() implies !q(#[trigger] s[j]) by {
                    assert(s[j] == front[j]);
                }
                assert forall|j: int| 0 <= j < left.len() implies !q(#[trigger] kept[j]) by {
                    assert(kept[j] == left[j]);
                    assert(find(left, q) == left.len());
                }
                if q(s.last()) {
                    lemma_find_is(s, q, front.len() as int);
                    lemma_find_is(kept, q, left.len() as int);
                } else {
                    lemma_find_is(s, q, s.len() as int);
                    lemma_find_is(kept, q, kept.len() as int);
                }
            }
        }
    } else {
        assert(kept.len() == 0);
    }
}

/// The dialogue that was begun in a thread is the one that waits there, and
/// once it is dropped none does. The dialogues of other threads stay.
pub proof fn law_dialogue_comes_back(t: Tables, thread_id: i32, pending: PendingForward, other: i32)
    ensures
        forward_in(forward_put(t, thread_id, pending), thread_id) == Some(pending),
        forward_in(forward_dropped(t, thread_id), thread_id) is None,
        other != thread_id ==> forward_in(forward_put(t, thread_id, pending), other) == forward_in(
            t,
            other,
        ),
        other != thread_id ==> forward_in(forward_dropped(t, thread_id), other) == forward_in(
            t,
            other,
        ),
{
    lemma_filtered_first(t.forwards, thread_id, other);
    let left = t.forwards.filter(dialogue_elsewhere(thread_id));
    let new = left.push((thread_id, pending));
    let p = dialogue_in(thread_id);
    lemma_find(left, p);
    assert forall|j: int| 0 <= j < left.len() implies !p(#[trigger] new[j]) by {
        assert(new[j] == left[j]);
    }
    lemma_find_is(new, p, left.len() as int);
    if other != thread_id {
        let q = dialogue_in(other);
        let k = find(left, q);
        lemma_find(left, q);
        assert forall|j: int| 0 <= j < k implies !q(#[trigger] new[j]) by {
            assert(new[j] == left[j]);
        }
        if k < left.len() {
            lemma_find_is(new, q, k);
        } else {
            lemma_find_is(new, q, new.len() as int);
        }
    }
}

// ---------------------------------------------------------------------------
// Received messages
// ---------------------------------------------------------------------------

/// A message that was recorded counts as seen: under its own path, and, where
/// the modem gave it a time, under any other.
pub proof fn law_recorded_is_seen(t: Tables, row: InboundRowView, path: Seq<char>)
    requires
        path_seen(t, row.mm_path) || next_inbound_id(t) <= i64::MAX,
    ensures
        path_seen(inbound_after(t, row), row.mm_path),
        row.sms_ts matches Some(ts) && (ts.len() > 0 || path == row.mm_path) ==> sms_seen(
            inbound_after(t, row),
            path,
            row.e164,
            row.body,
            row.sms_ts->0,
        ),
{
    let p = at_path(row.mm_path);
    let i = find(t.inbound, p);
    let new = inbound_put(t, row).inbound;
    lemma_find(t.inbound, p);
    assert forall|j: int| 0 <= j < i implies !p(#[trigger] new[j]) by {
        assert(new[j] == t.inbound[j]);
    }
    lemma_find_is(new, p, i);
    if row.sms_ts is Some {
        let ts = row.sms_ts->0;
        let q = record_of(path, row.e164, row.body, ts);
        lemma_find(new, q);
        if ts.len() > 0 || path == row.mm_path {
            assert(q(new[i]));
        }
    }
}

/// A path alone never makes a message seen: one whose number, text and time were
/// not recorded is new, though its path may have been given out before.
pub proof fn law_reused_path_is_not_seen(
    t: Tables,
    path: Seq<char>,
    e164: Seq<char>,
    body: Seq<char>,
    sms_ts: Seq<char>,
)
    requires
        forall|i: int|
            0 <= i < t.inbound.len() ==> !((#[trigger] t.inbound[i]).e164 == e164
                && t.inbound[i].body == body && t.inbound[i].sms_ts == Some(sms_ts)),
    ensures
        !sms_seen(t, path, e164, body, sms_ts),
{
    let q = record_of(path, e164, body, sms_ts);
    lemma_find(t.inbound, q);
    if find(t.inbound, q) < t.inbound.len() {
        assert(q(t.inbound[find(t.inbound, q)]));
    }
}

/// A path that was seen stays seen, whatever is recorded after it.
pub proof fn law_seen_path_stays(t: Tables, path: Seq<char>, row: InboundRowView)
    requires
        path_seen(t, path),
    ensures
        path_seen(inbound_after(t, row), path),
{
    let p = at_path(path);
    let k = find(t.inbound, p);
    let new = inbound_after(t, row).inbound;
    let slot = find(t.inbound, at_path(row.mm_path));
    lemma_find(t.inbound, p);
    lemma_find(t.inbound, at_path(row.mm_path));
    lemma_find(new, p);
    assert(p(new[k])) by {
        if slot == k {
            assert(t.inbound[k].mm_path == row.mm_path);
        }
    }
}

/// A message that was seen stays seen when another is recorded under a path
/// that was free.
pub proof fn law_seen_message_stays(
    t: Tables,
    path: Seq<char>,
    e164: Seq<char>,
    body: Seq<char>,
    sms_ts: Seq<char>,
    row: InboundRowView,
)
    requires
        sms_seen(t, path, e164, body, sms_ts),
        !path_seen(t, row.mm_path),
    ensures
        sms_seen(inbound_after(t, row), path, e164, body, sms_ts),
{
    let q = record_of(path, e164, body, sms_ts);
    let k = find(t.inbound, q);
    let new = inbound_after(t, row).inbound;
    lemma_find(t.inbound, q);
    lemma_find(t.inbound, at_path(row.mm_path));
    lemma_find(new, q);
    assert(new[k] == t.inbound[k]);
}

// ---------------------------------------------------------------------------
// Contacts
// ---------------------------------------------------------------------------

proof fn lemma_row_of_id(s: Seq<ContactRowView>, i: int)
    requires
        0 <= i < s.len(),
        forall|a: int, b: int| 0 <= a < b < s.len() ==> (#[trigger] s[a]).id < (#[trigger] s[b]).id,
    ensures
        first(s, with_id(s[i].id)) == Some(s[i]),
{
    let p = with_id(s[i].id);
    assert forall|j: int| 0 <= j < i implies !p(#[trigger] s[j]) by {}
    lemma_find_is(s, p, i);
}

/// A contact that was stored is found under its id, with its name. Its numbers
/// are those it had.
pub proof fn law_contact_comes_back(t: Tables, resource: Seq<char>, name: Seq<char>, now: Seq<char>)
    requires
        t.wf(),
        contact_id_for(t, resource) <= i64::MAX,
    ensures
        ({
            let id = contact_id_for(t, resource) as i64;
            let c = contact_by_id(contact_put(t, resource, name, now), id);
            &&& c is Some
            &&& c->0.id == id
            &&& c->0.google_resource == resource
            &&& c->0.display_name == name
            &&& c->0.numbers == numbers_of(t, id)
        }),
        contact_id_for(contact_put(t, resource, name, now), resource) == contact_id_for(t, resource),
{
    let p = with_resource(resource);
    let i = find(t.contacts, p);
    lemma_find(t.contacts, p);
    let id = contact_id_for(t, resource) as i64;
    let new = contact_put(t, resource, name, now).contacts;
    assert(new[i].id == id);
    assert forall|j: int| 0 <= j < i implies !p(#[trigger] new[j]) by {
        assert(new[j] == t.contacts[j]);
    }
    lemma_find_is(new, p, i);
    assert forall|a: int, b: int| 0 <= a < b < new.len() implies (#[trigger] new[a]).id < (
    #[trigger] new[b]).id by {
        if b < t.contacts.len() {
            assert(t.contacts[a].id < t.contacts[b].id);
        } else {
            assert(t.contacts[a].id <= t.contacts.last().id);
        }
    }
    lemma_row_of_id(new, i);
}

pub(crate) proof fn lemma_filter_all<A>(s: Seq<A>, p: spec_fn(A) -> bool)
    requires
        forall|i: int| 0 <= i < s.len() ==> p(#[trigger] s[i]),
    ensures
        s.filter(p) == s,
    decreases s.len(),
{
    reveal(Seq::filter);
    if s.len() > 0 {
        assert(p(s.last()));
        lemma_filter_all(s.drop_last(), p);
        assert(s.drop_last().push(s.last()) =~= s);
    } else {
        assert(s.filter(p) =~= s);
    }
}

proof fn lemma_filter_twice(s: Seq<NumberRowView>, id: i64, other: i64)
    ensures
        s.filter(not_of_contact(id)).filter(of_contact(id)) == Seq::<NumberRowView>::empty(),
        other != id ==> s.filter(not_of_contact(id)).filter(of_contact(other)) == s.filter(
            of_contact(other),
        ),
    decreases s.len(),
{
    reveal(Seq::filter);
    if s.len() > 0 {
        let front = s.drop_last();
        lemma_filter_twice(front, id, other);
        let kept = front.filter(not_of_contact(id));
        let last = s.last();
        assert(kept.push(last).drop_last() =~= kept);
    } else {
        assert(s.filter(not_of_contact(id)) =~= s);
    }
}

/// The numbers that a contact was given are the ones it has, in that order, and
/// the numbers of other contacts stay.
pub proof fn law_numbers_come_back(t: Tables, id: i64, e164s: Seq<Seq<char>>, other: i64)
    ensures
        numbers_of(numbers_put(t, id, e164s), id) == e164s,
        other != id ==> numbers_of(numbers_put(t, id, e164s), other) == numbers_of(t, other),
{
    let kept = t.numbers.filter(not_of_contact(id));
    let added = e164s.map_values(fresh_number(id));
    lemma_filter_twice(t.numbers, id, other);
    Seq::filter_distributes_over_add(kept, added, of_contact(id));
    Seq::filter_distributes_over_add(kept, added, of_contact(other));
    lemma_filter_all(added, of_contact(id));
    assert(Seq::<NumberRowView>::empty() + added =~= added);
    assert(added.map_values(e164_of()) =~= e164s);
    if other != id {
        added.lemma_all_neg_filter_empty(of_contact(other));
        assert(kept.filter(of_contact(other)) + Seq::<NumberRowView>::empty() =~= kept.filter(
            of_contact(other),
        ));
    }
}

/// Every number that a contact was given leads to a contact that has it.
pub proof fn law_given_number_is_found(t: Tables, id: i64, e164s: Seq<Seq<char>>, i: int)
    requires
        numbers_fit(t, id, e164s),
        0 <= i < e164s.len(),
    ensures
        contact_by_e164(numbers_put(t, id, e164s), e164s[i]) is Some,
        has_number(numbers_put(t, id, e164s), id, e164s[i]),
{
    let after = numbers_put(t, id, e164s);
    let kept = t.numbers.filter(not_of_contact(id));
    assert(after.numbers[kept.len() + i] == fresh_number(id)(e164s[i]));
    let p = holding(after, e164s[i]);
    lemma_find(after.contacts, p);
    let k = choose|k: int| 0 <= k < t.contacts.len() && (#[trigger] t.contacts[k]).id == id;
    assert(p(after.contacts[k]));
}

} // verus!
