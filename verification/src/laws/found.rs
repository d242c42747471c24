//! What the queries find, said of the rows alone.
use vstd::prelude::*;

use crate::rows::{find, first, lemma_find_is};
use crate::tables::{
    about_contact, contact_by_e164, contact_by_id, has_number, holding, in_thread, of_contact,
    numbers_of, topic_by_contact, topic_by_e164, topic_by_thread, with_default, with_id, Tables,
};

verus! {

/// The place holds the first item that has the property.
pub proof fn lemma_first_at<A>(s: Seq<A>, p: spec_fn(A) -> bool, i: int)
    requires
        0 <= i < s.len(),
        p(s[i]),
        forall|j: int| 0 <= j < i ==> !p(#[trigger] s[j]),
    ensures
        first(s, p) == Some(s[i]),
        find(s, p) == i,
{
    lemma_find_is(s, p, i);
}

/// No item has the property.
pub proof fn lemma_first_none<A>(s: Seq<A>, p: spec_fn(A) -> bool)
    requires
        forall|j: int| 0 <= j < s.len() ==> !p(#[trigger] s[j]),
    ensures
        first(s, p) is None,
        find(s, p) == s.len(),
{
    lemma_find_is(s, p, s.len() as int);
}

/// The first topic whose default number this is.
pub open spec fn default_topic_at(t: Tables, e164: Seq<char>, i: int) -> bool {
    &&& 0 <= i < t.topics.len()
    &&& t.topics[i].topic.default_e164 == Some(e164)
    &&& forall|j: int| 0 <= j < i ==> (#[trigger] t.topics[j]).topic.default_e164 != Some(e164)
}

/// The number is the default one of no topic.
pub open spec fn nobodys_default(t: Tables, e164: Seq<char>) -> bool {
    forall|j: int|
        0 <= j < t.topics.len() ==> (#[trigger] t.topics[j]).topic.default_e164 != Some(e164)
}

/// A number is stored for a contact.
pub open spec fn owns(t: Tables, id: i64, e164: Seq<char>) -> bool {
    exists|n: int|
        0 <= n < t.numbers.len() && (#[trigger] t.numbers[n]).contact_id == id && t.numbers[n].e164
            == e164
}

/// The first contact that a number is stored for.
pub open spec fn owner_at(t: Tables, e164: Seq<char>, k: int) -> bool {
    &&& 0 <= k < t.contacts.len()
    &&& owns(t, t.contacts[k].id, e164)
    &&& forall|j: int| 0 <= j < k ==> !owns(t, (#[trigger] t.contacts[j]).id, e164)
}

/// The number is stored for no contact.
pub open spec fn nobodys_number(t: Tables, e164: Seq<char>) -> bool {
    forall|j: int| 0 <= j < t.contacts.len() ==> !owns(t, (#[trigger] t.contacts[j]).id, e164)
}

/// The first topic of a contact.
pub open spec fn topic_of_at(t: Tables, id: i64, i: int) -> bool {
    &&& 0 <= i < t.topics.len()
    &&& t.topics[i].topic.contact_id == Some(id)
    &&& forall|j: int| 0 <= j < i ==> (#[trigger] t.topics[j]).topic.contact_id != Some(id)
}

/// The contact has no topic.
pub open spec fn topicless(t: Tables, id: i64) -> bool {
    forall|j: int|
        0 <= j < t.topics.len() ==> (#[trigger] t.topics[j]).topic.contact_id != Some(id)
}

pub proof fn lemma_owns(t: Tables, id: i64, e164: Seq<char>)
    ensures
        has_number(t, id, e164) == owns(t, id, e164),
{
    if owns(t, id, e164) {
        let n = choose|n: int|
            0 <= n < t.numbers.len() && (#[trigger] t.numbers[n]).contact_id == id
                && t.numbers[n].e164 == e164;
        assert(t.numbers[n].contact_id == id);
    }
    if has_number(t, id, e164) {
        let n = choose|n: int|
            0 <= n < t.numbers.len() && (#[trigger] t.numbers[n]).contact_id == id
                && t.numbers[n].e164 == e164;
        assert(t.numbers[n].contact_id == id);
    }
}

/// A topic is found by its default number: the first one.
pub proof fn law_default_finds_its_topic(t: Tables, e164: Seq<char>, i: int)
    ensures
        default_topic_at(t, e164, i) ==> topic_by_e164(t, e164) == Some(t.topics[i].topic),
        nobodys_default(t, e164) ==> topic_by_e164(t, e164) is None,
{
    if default_topic_at(t, e164, i) {
        lemma_first_at(t.topics, with_default(e164), i);
    }
    if nobodys_default(t, e164) {
        lemma_first_none(t.topics, with_default(e164));
    }
}

/// A topic is found by its contact: the first one.
pub proof fn law_contact_finds_its_topic(t: Tables, id: i64, i: int)
    ensures
        topic_of_at(t, id, i) ==> topic_by_contact(t, id) == Some(t.topics[i].topic),
        topicless(t, id) ==> topic_by_contact(t, id) is None,
{
    if topic_of_at(t, id, i) {
        lemma_first_at(t.topics, about_contact(id), i);
    }
    if topicless(t, id) {
        lemma_first_none(t.topics, about_contact(id));
    }
}

/// A topic is found by its thread.
pub proof fn law_thread_finds_its_topic(t: Tables, i: int, thread_id: i32)
    requires
        t.wf(),
    ensures
        0 <= i < t.topics.len() ==> topic_by_thread(t, t.topics[i].topic.thread_id) == Some(
            t.topics[i].topic,
        ),
        (forall|j: int|
            0 <= j < t.topics.len() ==> (#[trigger] t.topics[j]).topic.thread_id != thread_id)
            ==> topic_by_thread(t, thread_id) is None,
{
    if 0 <= i < t.topics.len() {
        let p = in_thread(t.topics[i].topic.thread_id);
        assert forall|j: int| 0 <= j < i implies !p(#[trigger] t.topics[j]) by {
            assert(t.topics[j].topic.thread_id < t.topics[i].topic.thread_id);
        }
        lemma_first_at(t.topics, p, i);
    }
    if forall|j: int|
        0 <= j < t.topics.len() ==> (#[trigger] t.topics[j]).topic.thread_id != thread_id {
        lemma_first_none(t.topics, in_thread(thread_id));
    }
}

/// A number finds the first contact that it is stored for, with that contact's
/// id, name and resource; it is ambiguous exactly when it is stored for another
/// contact too.
pub proof fn law_number_finds_its_contact(t: Tables, e164: Seq<char>, k: int)
    ensures
        owner_at(t, e164, k) ==> (contact_by_e164(t, e164) matches Some(c) && {
            &&& c.id == t.contacts[k].id
            &&& c.display_name == t.contacts[k].display_name
            &&& c.google_resource == t.contacts[k].google_resource
            &&& c.numbers == numbers_of(t, c.id)
            &&& c.ambiguous <==> exists|m: int|
                k < m < t.contacts.len() && owns(t, (#[trigger] t.contacts[m]).id, e164)
        }),
        nobodys_number(t, e164) ==> contact_by_e164(t, e164) is None,
{
    let p = holding(t, e164);
    assert forall|c: crate::tables::ContactRowView| #[trigger] p(c) == owns(t, c.id, e164) by {
        lemma_owns(t, c.id, e164);
    }
    if owner_at(t, e164, k) {
        assert forall|j: int| 0 <= j < k implies !p(#[trigger] t.contacts[j]) by {
            assert(!owns(t, t.contacts[j].id, e164));
        }
        assert(p(t.contacts[k]));
        lemma_first_at(t.contacts, p, k);
        lemma_more_than_one(t.contacts, p, k);
        if exists|m: int| k < m < t.contacts.len() && #[trigger] p(t.contacts[m]) {
            let m = choose|m: int| k < m < t.contacts.len() && #[trigger] p(t.contacts[m]);
            assert(owns(t, t.contacts[m].id, e164));
        }
        if exists|m: int| k < m < t.contacts.len() && owns(t, (#[trigger] t.contacts[m]).id, e164) {
            let m = choose|m: int|
                k < m < t.contacts.len() && owns(t, (#[trigger] t.contacts[m]).id, e164);
            assert(p(t.contacts[m]));
        }
    }
    if nobodys_number(t, e164) {
        assert forall|j: int| 0 <= j < t.contacts.len() implies !p(#[trigger] t.contacts[j]) by {
            assert(!owns(t, t.contacts[j].id, e164));
        }
        lemma_first_none(t.contacts, p);
    }
}

/// A filter keeps more than one item exactly when another follows the first.
proof fn lemma_more_than_one<A>(s: Seq<A>, p: spec_fn(A) -> bool, k: int)
    requires
        0 <= k < s.len(),
        p(s[k]),
        forall|j: int| 0 <= j < k ==> !p(#[trigger] s[j]),
    ensures
        (s.filter(p).len() > 1) <==> exists|m: int| k < m < s.len() && #[trigger] p(s[m]),
        s.filter(p).len() >= 1,
    decreases s.len(),
{
    reveal(Seq::filter);
    let front = s.drop_last();
    if k < front.len() {
        assert forall|j: int| 0 <= j < k implies !p(#[trigger] front[j]) by {
            assert(front[j] == s[j]);
        }
        lemma_more_than_one(front, p, k);
        if exists|m: int| k < m < front.len() && #[trigger] p(front[m]) {
            let m = choose|m: int| k < m < front.len() && #[trigger] p(front[m]);
            assert(p(s[m]));
        }
        if exists|m: int| k < m < s.len() && #[trigger] p(s[m]) {
            let m = choose|m: int| k < m < s.len() && #[trigger] p(s[m]);
            if m < front.len() {
                assert(p(front[m]));
            }
        }
        if p(s.last()) {
            assert(p(s[s.len() - 1]));
        }
    } else {
        assert forall|j: int| 0 <= j < front.len() implies !p(#[trigger] front[j]) by {
            assert(front[j] == s[j]);
        }
        front.lemma_all_neg_filter_empty(p);
    }
}

/// A contact is found by its id, with its name, its resource and its numbers.
pub proof fn law_id_finds_its_contact(t: Tables, k: int, id: i64)
    requires
        t.wf(),
    ensures
        0 <= k < t.contacts.len() && t.contacts[k].id == id ==> (contact_by_id(t, id) matches Some(
            c,
        ) && c.id == id && c.display_name == t.contacts[k].display_name && c.google_resource
            == t.contacts[k].google_resource && !c.ambiguous && c.numbers == numbers_of(t, id)),
        (forall|j: int| 0 <= j < t.contacts.len() ==> (#[trigger] t.contacts[j]).id != id)
            ==> contact_by_id(t, id) is None,
{
    if 0 <= k < t.contacts.len() && t.contacts[k].id == id {
        assert forall|j: int| 0 <= j < k implies !with_id(id)(#[trigger] t.contacts[j]) by {
            assert(t.contacts[j].id < t.contacts[k].id);
        }
        lemma_first_at(t.contacts, with_id(id), k);
    }
    if forall|j: int| 0 <= j < t.contacts.len() ==> (#[trigger] t.contacts[j]).id != id {
        lemma_first_none(t.contacts, with_id(id));
    }
}

/// The numbers of a contact are those that are stored for it, each as often as
/// it is stored, and in that order.
pub proof fn law_numbers_are_the_stored_ones(t: Tables, id: i64, e164: Seq<char>)
    ensures
        numbers_of(t, id).contains(e164) <==> owns(t, id, e164),
        forall|i: int, j: int|
            0 <= i < j < t.numbers.len() && (#[trigger] t.numbers[i]).contact_id == id && (
            #[trigger] t.numbers[j]).contact_id == id ==> exists|a: int, b: int|
                0 <= a < b < numbers_of(t, id).len() && #[trigger] numbers_of(t, id)[a]
                    == t.numbers[i].e164 && #[trigger] numbers_of(t, id)[b] == t.numbers[j].e164,
        t.wf() ==> numbers_of(t, id).no_duplicates(),
{
    let p = of_contact(id);
    let kept = t.numbers.filter(p);
    let numbers = numbers_of(t, id);
    if owns(t, id, e164) {
        let n = choose|n: int|
            0 <= n < t.numbers.len() && (#[trigger] t.numbers[n]).contact_id == id
                && t.numbers[n].e164 == e164;
        let a = lemma_filter_keeps(t.numbers, p, n);
        assert(numbers[a] == e164);
    }
    if numbers.contains(e164) {
        let a = choose|a: int| 0 <= a < numbers.len() && numbers[a] == e164;
        assert(numbers[a] == kept[a].e164);
        let n = lemma_filter_from(t.numbers, p, a);
        assert(t.numbers[n].contact_id == id && t.numbers[n].e164 == e164);
    }
    assert forall|i: int, j: int|
        0 <= i < j < t.numbers.len() && (#[trigger] t.numbers[i]).contact_id == id && (
        #[trigger] t.numbers[j]).contact_id == id implies exists|a: int, b: int|
        0 <= a < b < numbers.len() && #[trigger] numbers[a] == t.numbers[i].e164
            && #[trigger] numbers[b] == t.numbers[j].e164 by {
        let (a, b) = lemma_filter_order(t.numbers, p, i, j);
        assert(numbers[a] == t.numbers[i].e164 && numbers[b] == t.numbers[j].e164);
    }
    if t.wf() {
        assert forall|a: int, b: int| 0 <= a < b < numbers.len() implies numbers[a] != numbers[b] by {
            let (i, j) = lemma_filter_back(t.numbers, p, a, b);
            assert(t.numbers[i].contact_id == t.numbers[j].contact_id);
            assert(t.numbers[i].e164 != t.numbers[j].e164);
        }
    }
}

/// Two items that a filter keeps keep their order.
pub proof fn lemma_filter_order<A>(s: Seq<A>, p: spec_fn(A) -> bool, i: int, j: int) -> (r: (int, int))
    requires
        0 <= i < j < s.len(),
        p(s[i]),
        p(s[j]),
    ensures
        0 <= r.0 < r.1 < s.filter(p).len(),
        s.filter(p)[r.0] == s[i],
        s.filter(p)[r.1] == s[j],
    decreases s.len(),
{
    reveal(Seq::filter);
    let front = s.drop_last();
    if j < front.len() {
        lemma_filter_order(front, p, i, j)
    } else {
        let a = lemma_filter_keeps(front, p, i);
        (a, s.filter(p).len() - 1)
    }
}

/// An item that has the property is kept.
pub proof fn lemma_filter_keeps<A>(s: Seq<A>, p: spec_fn(A) -> bool, i: int) -> (a: int)
    requires
        0 <= i < s.len(),
        p(s[i]),
    ensures
        0 <= a < s.filter(p).len(),
        s.filter(p)[a] == s[i],
    decreases s.len(),
{
    reveal(Seq::filter);
    let front = s.drop_last();
    if i < front.len() {
        lemma_filter_keeps(front, p, i)
    } else {
        s.filter(p).len() - 1
    }
}

/// An item of a filtered sequence is one of the sequence, and has the property.
pub proof fn lemma_filter_from<A>(s: Seq<A>, p: spec_fn(A) -> bool, a: int) -> (i: int)
    requires
        0 <= a < s.filter(p).len(),
    ensures
        0 <= i < s.len(),
        p(s[i]),
        s[i] == s.filter(p)[a],
    decreases s.len(),
{
    reveal(Seq::filter);
    let front = s.drop_last();
    if a < front.filter(p).len() {
        lemma_filter_from(front, p, a)
    } else {
        s.len() - 1
    }
}

/// Two items of a filtered sequence stand in the same order in the sequence.
pub proof fn lemma_filter_back<A>(s: Seq<A>, p: spec_fn(A) -> bool, a: int, b: int) -> (r: (int, int))
    requires
        0 <= a < b < s.filter(p).len(),
    ensures
        0 <= r.0 < r.1 < s.len(),
        p(s[r.0]) && s[r.0] == s.filter(p)[a],
        p(s[r.1]) && s[r.1] == s.filter(p)[b],
    decreases s.len(),
{
    reveal(Seq::filter);
    let front = s.drop_last();
    if b < front.filter(p).len() {
        lemma_filter_back(front, p, a, b)
    } else {
        let i = lemma_filter_from(front, p, a);
        (i, s.len() - 1)
    }
}

} // verus!
