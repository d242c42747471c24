//! What becomes of the people of the address book.
use vstd::prelude::*;

use crate::db::laws::law_numbers_come_back;
use crate::google::{
    contact_of, contact_synced, contacts_of, people_failure, person_numbers, redirected,
    sync_result, synced, token_failure, GoogleErrorView, ParsedView, PersonView,
};
use crate::laws::texts::law_value_is_the_first;
use crate::normalize::{normalized, NormalizeErrorView};
use crate::rows::{find, lemma_find};
use crate::tables::{contact_put, contacts_ok, numbers_of, numbers_put, with_resource, Tables};
use crate::text::{holds, lower};

verus! {

/// The person can be told from others.
pub open spec fn has_resource() -> spec_fn(PersonView) -> bool {
    |p: PersonView| p.resource_name is Some
}

/// One of the phone numbers of the person reads as this one.
pub open spec fn phones(p: PersonView, region: Seq<char>, e164: Seq<char>) -> bool {
    exists|j: int|
        0 <= j < p.phone_numbers.len() && (#[trigger] p.phone_numbers[j]) is Some && normalized(
            p.phone_numbers[j]->0,
            region,
        ) == Ok::<Seq<char>, NormalizeErrorView>(e164)
}

/// The contact is the person: under the same resource, with the first name if
/// there is one, and with exactly the numbers that can be read, each once.
pub open spec fn is_contact_of(c: ParsedView, p: PersonView, region: Seq<char>) -> bool {
    &&& p.resource_name == Some(c.0)
    &&& p.names.len() > 0 && p.names[0] is Some && p.names[0]->0.len() > 0 ==> p.names[0] == Some(
        c.1,
    )
    &&& p.names.len() == 0 || p.names[0] is None || p.names[0]->0.len() == 0 ==> c.1 == "Unknown"@
    &&& forall|e164: Seq<char>| #[trigger] c.2.contains(e164) <==> phones(p, region, e164)
    &&& c.2.no_duplicates()
}

/// The numbers of a person are those that can be read.
proof fn lemma_person_numbers(values: Seq<Option<Seq<char>>>, region: Seq<char>, e164: Seq<char>)
    ensures
        person_numbers(values, region).contains(e164) <==> exists|j: int|
            0 <= j < values.len() && (#[trigger] values[j]) is Some && normalized(
                values[j]->0,
                region,
            ) == Ok::<Seq<char>, NormalizeErrorView>(e164),
    decreases values.len(),
{
    if values.len() > 0 {
        let front = values.drop_last();
        lemma_person_numbers(front, region, e164);
        let before = person_numbers(front, region);
        let all = person_numbers(values, region);
        let n = values.len() - 1;
        if before.contains(e164) {
            let j = choose|j: int|
                0 <= j < front.len() && (#[trigger] front[j]) is Some && normalized(
                    front[j]->0,
                    region,
                ) == Ok::<Seq<char>, NormalizeErrorView>(e164);
            assert(values[j] is Some);
            let a = before.index_of(e164);
            assert(all[a] == e164);
        }
        if values[n] is Some && normalized(values[n]->0, region) == Ok::<
            Seq<char>,
            NormalizeErrorView,
        >(e164) {
            if !before.contains(e164) {
                assert(all[before.len() as int] == e164);
            }
        }
        if all.contains(e164) && !before.contains(e164) {
            let a = all.index_of(e164);
            if a < before.len() {
                assert(before[a] == e164);
            }
            assert(values[n] is Some);
        }
        if exists|j: int|
            0 <= j < values.len() && (#[trigger] values[j]) is Some && normalized(
                values[j]->0,
                region,
            ) == Ok::<Seq<char>, NormalizeErrorView>(e164) {
            let j = choose|j: int|
                0 <= j < values.len() && (#[trigger] values[j]) is Some && normalized(
                    values[j]->0,
                    region,
                ) == Ok::<Seq<char>, NormalizeErrorView>(e164);
            if j < n {
                assert(front[j] is Some);
            }
        }
    }
}

/// The first number that can be read comes first.
pub proof fn law_first_number_comes_first(
    values: Seq<Option<Seq<char>>>,
    region: Seq<char>,
    i: int,
    e164: Seq<char>,
)
    requires
        0 <= i < values.len(),
        values[i] is Some,
        normalized(values[i]->0, region) == Ok::<Seq<char>, NormalizeErrorView>(e164),
        forall|j: int|
            0 <= j < i ==> (#[trigger] values[j]) is None || normalized(values[j]->0, region) is Err,
    ensures
        person_numbers(values, region).len() > 0,
        person_numbers(values, region)[0] == e164,
    decreases values.len(),
{
    let front = values.drop_last();
    if i < front.len() {
        assert forall|j: int| 0 <= j < i implies (#[trigger] front[j]) is None || normalized(
            front[j]->0,
            region,
        ) is Err by {
            assert(values[j] is None || normalized(values[j]->0, region) is Err);
        }
        law_first_number_comes_first(front, region, i, e164);
    } else {
        let before = person_numbers(front, region);
        if before.len() > 0 {
            lemma_person_numbers(front, region, before[0]);
            assert(before.contains(before[0]));
            let j = choose|j: int|
                0 <= j < front.len() && (#[trigger] front[j]) is Some && normalized(
                    front[j]->0,
                    region,
                ) == Ok::<Seq<char>, NormalizeErrorView>(before[0]);
            assert(values[j] is None || normalized(values[j]->0, region) is Err);
        }
        assert(!before.contains(e164));
    }
}

/// Every person of a page that can be told from others becomes a contact, and
/// nobody else does: there are as many contacts as such people, in their order.
pub proof fn law_every_person_becomes_a_contact(
    people: Seq<PersonView>,
    region: Seq<char>,
    i: int,
)
    ensures
        contacts_of(people, region).len() == people.filter(has_resource()).len(),
        0 <= i < people.len() && people[i].resource_name is Some ==> {
            let k = people.take(i).filter(has_resource()).len() as int;
            &&& 0 <= k < contacts_of(people, region).len()
            &&& is_contact_of(contacts_of(people, region)[k], people[i], region)
        },
    decreases people.len(),
{
    reveal(Seq::filter);
    if people.len() > 0 {
        let front = people.drop_last();
        law_every_person_becomes_a_contact(front, region, i);
        if 0 <= i < people.len() && people[i].resource_name is Some {
            if i < front.len() {
                assert(people.take(i) =~= front.take(i));
                assert(people[i] == front[i]);
            } else {
                assert(people.take(i) =~= front);
                law_every_person_becomes_a_contact(front, region, -1);
                let p = people[i];
                let c = contact_of(p, region)->0;
                crate::google::law_numbers_are_distinct(p.phone_numbers, region);
                assert forall|e164: Seq<char>| #[trigger]
                    c.2.contains(e164) <==> phones(p, region, e164) by {
                    lemma_person_numbers(p.phone_numbers, region, e164);
                }
            }
        }
    }
}

// ---------------------------------------------------------------------------
// Storing them
// ---------------------------------------------------------------------------

proof fn lemma_contact_put(
    t: Tables,
    resource: Seq<char>,
    name: Seq<char>,
    now: Seq<char>,
)
    requires
        contacts_ok(t.contacts),
        crate::tables::contact_id_for(t, resource) <= i64::MAX,
    ensures
        ({
            let after = contact_put(t, resource, name, now);
            &&& contacts_ok(after.contacts)
            &&& after.contacts.len() >= t.contacts.len()
            &&& after.numbers == t.numbers && after.topics == t.topics && after.ignored == t.ignored
                && after.inbound == t.inbound && after.outbound == t.outbound
            &&& forall|k: int|
                0 <= k < t.contacts.len() ==> (#[trigger] after.contacts[k]).id == t.contacts[k].id
                    && after.contacts[k].google_resource == t.contacts[k].google_resource
            &&& forall|k: int|
                0 <= k < t.contacts.len() && t.contacts[k].google_resource != resource
                    ==> #[trigger] after.contacts[k] == t.contacts[k]
            &&& exists|k: int|
                0 <= k < after.contacts.len() && (#[trigger] after.contacts[k]).google_resource
                    == resource && after.contacts[k].display_name == name && after.contacts[k].id
                    == crate::tables::contact_id_for(t, resource)
        }),
{
    let p = with_resource(resource);
    let i = find(t.contacts, p);
    lemma_find(t.contacts, p);
    let after = contact_put(t, resource, name, now);
    if i < t.contacts.len() {
        assert(after.contacts[i].google_resource == resource);
        assert forall|k: int|
            0 <= k < t.contacts.len() && t.contacts[k].google_resource
                != resource implies #[trigger] after.contacts[k] == t.contacts[k] by {
            assert(k != i);
        }
    } else {
        assert(after.contacts[i].google_resource == resource);
        assert forall|a: int, b: int| 0 <= a < b < after.contacts.len() implies (
        #[trigger] after.contacts[a]).id < (#[trigger] after.contacts[b]).id by {
            if b == i {
                assert(after.contacts[a] == t.contacts[a]);
                if a < t.contacts.len() - 1 {
                    assert(t.contacts[a].id < t.contacts[t.contacts.len() - 1].id);
                }
            }
        }
        assert forall|a: int, b: int| 0 <= a < b < after.contacts.len() implies (
        #[trigger] after.contacts[a]).google_resource != (
        #[trigger] after.contacts[b]).google_resource by {
            if b == i {
                assert(!p(t.contacts[a]));
            }
        }
    }
}

/// The tables hold the contact: a row with its resource and name, and exactly
/// its numbers.
pub open spec fn holds_contact(t: Tables, c: ParsedView) -> bool {
    exists|k: int|
        0 <= k < t.contacts.len() && (#[trigger] t.contacts[k]).google_resource == c.0
            && t.contacts[k].display_name == c.1 && numbers_of(t, t.contacts[k].id) == c.2
}

/// Storing one contact keeps every other one, and nothing but contacts and
/// numbers changes.
proof fn lemma_one_synced(t: Tables, c: ParsedView, now: Seq<char>)
    requires
        contacts_ok(t.contacts),
        contact_synced(t, c, now).1 is None,
    ensures
        ({
            let after = contact_synced(t, c, now).0;
            &&& contacts_ok(after.contacts)
            &&& holds_contact(after, c)
            &&& after.contacts.len() >= t.contacts.len()
            &&& after.topics == t.topics && after.ignored == t.ignored && after.inbound == t.inbound
                && after.outbound == t.outbound
            &&& forall|k: int|
                0 <= k < t.contacts.len() ==> (#[trigger] after.contacts[k]).id == t.contacts[k].id
                    && after.contacts[k].google_resource == t.contacts[k].google_resource
            &&& forall|k: int|
                0 <= k < t.contacts.len() && t.contacts[k].google_resource != c.0
                    ==> #[trigger] after.contacts[k] == t.contacts[k] && numbers_of(
                    after,
                    t.contacts[k].id,
                ) == numbers_of(t, t.contacts[k].id)
        }),
{
    let id = crate::tables::contact_id_for(t, c.0) as i64;
    let stored = contact_put(t, c.0, c.1, now);
    lemma_contact_put(t, c.0, c.1, now);
    let after = numbers_put(stored, id, c.2);
    law_numbers_come_back(stored, id, c.2, id);
    let m = choose|m: int|
        0 <= m < stored.contacts.len() && (#[trigger] stored.contacts[m]).google_resource == c.0
            && stored.contacts[m].display_name == c.1 && stored.contacts[m].id == id;
    assert(after.contacts[m].google_resource == c.0);
    assert forall|k: int|
        0 <= k < t.contacts.len() && t.contacts[k].google_resource != c.0 implies #[trigger] after.contacts[k]
        == t.contacts[k] && numbers_of(after, t.contacts[k].id) == numbers_of(t, t.contacts[k].id) by {
        assert(stored.contacts[k] == t.contacts[k]);
        if k < m {
            assert(stored.contacts[k].id < stored.contacts[m].id);
        } else {
            assert(stored.contacts[m].id < stored.contacts[k].id);
        }
        law_numbers_come_back(stored, id, c.2, t.contacts[k].id);
        assert(numbers_of(stored, t.contacts[k].id) == numbers_of(t, t.contacts[k].id));
    }
}

/// After a sync every contact that was given is stored, with its name and exactly
/// its numbers, unless one of the same resource was given after it. Contacts that
/// were not given stay as they were, and so does everything else. The count is
/// that of the contacts given.
pub proof fn law_sync_stores_everybody(
    t: Tables,
    contacts: Seq<ParsedView>,
    now: Seq<char>,
    i: int,
    k: int,
)
    requires
        contacts_ok(t.contacts),
        synced(t, contacts, now).1 is None,
    ensures
        ({
            let after = synced(t, contacts, now).0;
            &&& contacts_ok(after.contacts)
            &&& 0 <= i < contacts.len() && (forall|j: int|
                i < j < contacts.len() ==> (#[trigger] contacts[j]).0 != contacts[i].0)
                ==> holds_contact(after, contacts[i])
            &&& after.contacts.len() >= t.contacts.len()
            &&& 0 <= k < t.contacts.len() ==> after.contacts[k].id == t.contacts[k].id
                && after.contacts[k].google_resource == t.contacts[k].google_resource
            &&& 0 <= k < t.contacts.len() && (forall|j: int|
                0 <= j < contacts.len() ==> (#[trigger] contacts[j]).0
                    != t.contacts[k].google_resource) ==> after.contacts[k] == t.contacts[k]
                && numbers_of(after, t.contacts[k].id) == numbers_of(t, t.contacts[k].id)
            &&& after.topics == t.topics && after.ignored == t.ignored && after.inbound == t.inbound
                && after.outbound == t.outbound
            &&& contacts.len() <= usize::MAX ==> sync_result(t, contacts, now) == Ok::<
                usize,
                GoogleErrorView,
            >(contacts.len() as usize)
        }),
    decreases contacts.len(),
{
    if contacts.len() > 0 {
        let front = contacts.drop_last();
        let last = contacts.last();
        let before = synced(t, front, now).0;
        law_sync_stores_everybody(t, front, now, i, k);
        lemma_one_synced(before, last, now);
        let after = synced(t, contacts, now).0;
        if 0 <= i < contacts.len() && (forall|j: int|
            i < j < contacts.len() ==> (#[trigger] contacts[j]).0 != contacts[i].0) {
            if i < front.len() {
                assert forall|j: int| i < j < front.len() implies (#[trigger] front[j]).0
                    != front[i].0 by {
                    assert(contacts[j].0 != contacts[i].0);
                }
                assert(contacts[contacts.len() - 1].0 != contacts[i].0);
                let m = choose|m: int|
                    0 <= m < before.contacts.len() && (
                    #[trigger] before.contacts[m]).google_resource == front[i].0
                        && before.contacts[m].display_name == front[i].1 && numbers_of(
                        before,
                        before.contacts[m].id,
                    ) == front[i].2;
                assert(after.contacts[m] == before.contacts[m]);
                assert(holds_contact(after, contacts[i]));
            }
        }
        if 0 <= k < t.contacts.len() {
            assert(after.contacts[k].id == before.contacts[k].id);
            if forall|j: int|
                0 <= j < contacts.len() ==> (#[trigger] contacts[j]).0
                    != t.contacts[k].google_resource {
                assert forall|j: int| 0 <= j < front.len() implies (#[trigger] front[j]).0
                    != t.contacts[k].google_resource by {
                    assert(contacts[j].0 != t.contacts[k].google_resource);
                }
                assert(contacts[contacts.len() - 1].0 != t.contacts[k].google_resource);
                assert(after.contacts[k] == before.contacts[k]);
            }
        }
    }
}

// ---------------------------------------------------------------------------
// What the service answers
// ---------------------------------------------------------------------------

/// An error of the service, or too many requests, passes; a refused token does
/// not, and neither does anything else. The words of the answer are kept.
pub proof fn law_service_failures_are_told_apart(
    status: u16,
    url: Seq<char>,
    words: Seq<char>,
    body: Seq<char>,
)
    ensures
        people_failure(status, url, words) is Transient <==> status >= 500 || status == 429,
        people_failure(status, url, words) is Auth <==> status == 401,
        people_failure(status, url, words) is Other <==> status < 500 && status != 429 && status
            != 401,
        token_failure(status, body) is Auth <==> (status == 400 || status == 401) && (holds(
            lower(body),
            "invalid_grant"@,
        ) || holds(lower(body), "invalid_client"@)),
        token_failure(status, body) is Transient <==> status >= 500,
        token_failure(status, body) is Other || token_failure(status, body) is Auth
            || token_failure(status, body) is Transient,
{
}

/// The redirect is taken only with both a code and a state, and gives the first
/// of each.
pub proof fn law_redirect_needs_code_and_state(
    pairs: Seq<(Seq<char>, Seq<char>)>,
    i: int,
    j: int,
)
    requires
        0 <= i < pairs.len() && pairs[i].0 == "code"@,
        forall|k: int| 0 <= k < i ==> (#[trigger] pairs[k]).0 != "code"@,
        0 <= j < pairs.len() && pairs[j].0 == "state"@,
        forall|k: int| 0 <= k < j ==> (#[trigger] pairs[k]).0 != "state"@,
    ensures
        redirected(Ok(pairs)) == Ok::<(Seq<char>, Seq<char>), GoogleErrorView>(
            (pairs[i].1, pairs[j].1),
        ),
{
    law_value_is_the_first(pairs, "code"@, i);
    law_value_is_the_first(pairs, "state"@, j);
}

/// Without a code, or without a state, there is no redirect, and the error says
/// which is missing, the code first; what cannot be read is an error too.
pub proof fn law_redirect_without_code_or_state(
    pairs: Seq<(Seq<char>, Seq<char>)>,
    words: Seq<char>,
)
    requires
        (forall|k: int| 0 <= k < pairs.len() ==> (#[trigger] pairs[k]).0 != "code"@) || (forall|
            k: int,
        |
            0 <= k < pairs.len() ==> (#[trigger] pairs[k]).0 != "state"@),
    ensures
        redirected(Ok(pairs)) is Err,
        (forall|k: int| 0 <= k < pairs.len() ==> (#[trigger] pairs[k]).0 != "code"@) ==> redirected(
            Ok(pairs),
        ) == Err::<(Seq<char>, Seq<char>), GoogleErrorView>(
            GoogleErrorView::Other("redirect missing code"@),
        ),
        (exists|k: int| 0 <= k < pairs.len() && (#[trigger] pairs[k]).0 == "code"@) ==> redirected(
            Ok(pairs),
        ) == Err::<(Seq<char>, Seq<char>), GoogleErrorView>(
            GoogleErrorView::Other("redirect missing state"@),
        ),
        redirected(Err(words)) == Err::<(Seq<char>, Seq<char>), GoogleErrorView>(
            GoogleErrorView::Other(words),
        ),
{
    law_value_is_the_first(pairs, "code"@, -1);
    law_value_is_the_first(pairs, "state"@, -1);
    if exists|k: int| 0 <= k < pairs.len() && (#[trigger] pairs[k]).0 == "code"@ {
        let p = crate::text::named("code"@);
        crate::rows::lemma_find(pairs, p);
        let k = choose|k: int| 0 <= k < pairs.len() && (#[trigger] pairs[k]).0 == "code"@;
        assert(p(pairs[k]));
    }
}

} // verus!
