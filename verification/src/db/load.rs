//! The rows of the tables, handed out to be kept and taken back in.
use vstd::prelude::*;

use crate::db::laws::lemma_filter_all;
use crate::db::{ContactRow, Db, DbError, DbErrorView, InboundRow, NumberRow, OutboundRow, TopicRow};
use crate::rows::{find, lemma_find, lemma_find_is, views};
use crate::tables::{
    at_path, contacts_ok, dialogue_elsewhere, forward_put, has_number, ignored_put, inbound_ok,
    known_contact, numbers_ok, outbound_ok, path_seen, topics_ok, with_resource, ContactRowView,
    InboundRowView, NumberRowView, OutboundRowView, PendingForward, Tables, TopicRowView,
};
use crate::text::str_eq;

verus! {

/// The row follows the ones that are there and its resource is new.
pub open spec fn contact_follows(t: Tables, row: ContactRowView) -> bool {
    &&& t.contacts.len() > 0 ==> t.contacts.last().id < row.id
    &&& find(t.contacts, with_resource(row.google_resource)) >= t.contacts.len()
}

/// The contact is there and does not have the number yet.
pub open spec fn number_follows(t: Tables, row: NumberRowView) -> bool {
    known_contact(t.contacts, row.contact_id) && !has_number(t, row.contact_id, row.e164)
}

/// The thread follows the ones that are there, and the contact is there.
pub open spec fn topic_follows(t: Tables, row: TopicRowView) -> bool {
    &&& t.topics.len() > 0 ==> t.topics.last().topic.thread_id < row.topic.thread_id
    &&& row.topic.contact_id matches Some(c) ==> known_contact(t.contacts, c)
}

/// The row follows the ones that are there and its path is new.
pub open spec fn inbound_follows(t: Tables, row: InboundRowView) -> bool {
    &&& t.inbound.len() > 0 ==> t.inbound.last().id < row.id
    &&& !path_seen(t, row.mm_path)
}

pub open spec fn outbound_follows(t: Tables, row: OutboundRowView) -> bool {
    t.outbound.len() > 0 ==> t.outbound.last().id < row.id
}

fn out_of_order() -> (r: DbError)
    ensures
        r@ == DbErrorView::Sqlite("row out of order"@),
{
    DbError::Sqlite("row out of order".to_owned())
}

impl Db {
    pub fn contact_rows(&self) -> (r: &Vec<ContactRow>)
        ensures
            views(r@) == self@.contacts,
    {
        &self.contacts
    }

    pub fn number_rows(&self) -> (r: &Vec<NumberRow>)
        ensures
            views(r@) == self@.numbers,
    {
        &self.numbers
    }

    pub fn topic_rows(&self) -> (r: &Vec<TopicRow>)
        ensures
            views(r@) == self@.topics,
    {
        &self.topics
    }

    pub fn ignored_rows(&self) -> (r: &Vec<String>)
        ensures
            views(r@) == self@.ignored,
    {
        &self.ignored
    }

    pub fn inbound_rows(&self) -> (r: &Vec<InboundRow>)
        ensures
            views(r@) == self@.inbound,
    {
        &self.inbound
    }

    pub fn outbound_rows(&self) -> (r: &Vec<OutboundRow>)
        ensures
            views(r@) == self@.outbound,
    {
        &self.outbound
    }

    pub fn forward_rows(&self) -> (r: &Vec<(i32, PendingForward)>)
        ensures
            r@ == self@.forwards,
    {
        &self.forwards
    }

    /// Takes a contact back in, behind the others.
    pub fn restore_contact(&mut self, row: ContactRow) -> (r: Result<(), DbError>)
        requires
            old(self)@.wf(),
        ensures
            final(self)@.wf(),
            r is Ok <==> contact_follows(old(self)@, row@),
            r is Ok ==> final(self)@ == (Tables {
                contacts: old(self)@.contacts.push(row@),
                ..old(self)@
            }),
            r matches Err(e) ==> final(self)@ == old(self)@ && e@ == DbErrorView::Sqlite(
                "row out of order"@,
            ),
    {
        let ghost t = self@;
        let n = self.contacts.len();
        if n > 0 {
            assert(t.contacts.last() == self.contacts@.last()@);
            if self.contacts[n - 1].id >= row.id {
                return Err(out_of_order());
            }
        }
        let mut i: usize = 0;
        while i < n && !str_eq(
            self.contacts[i].google_resource.as_str(),
            row.google_resource.as_str(),
        )
            invariant
                i <= n == self.contacts@.len(),
                self@ == t,
                t.contacts.len() == n,
                forall|j: int|
                    0 <= j < i ==> (#[trigger] t.contacts[j]).google_resource
                        != row@.google_resource,
            decreases n - i,
        {
            assert(t.contacts[i as int] == self.contacts@[i as int]@);
            i = i + 1;
        }
        proof {
            if i < n {
                assert(t.contacts[i as int] == self.contacts@[i as int]@);
            }
            lemma_find_is(t.contacts, with_resource(row@.google_resource), i as int);
        }
        if i < n {
            return Err(out_of_order());
        }
        let ghost added = row@;
        self.contacts.push(row);
        proof {
            let new = t.contacts.push(added);
            assert(self@.contacts =~= new);
            assert(contacts_ok(new));
            assert forall|id: i64| known_contact(t.contacts, id) implies known_contact(new, id) by {
                let k = choose|k: int| 0 <= k < t.contacts.len() && (#[trigger] t.contacts[k]).id == id;
                assert(new[k].id == id);
            }
            assert(numbers_ok(t.numbers, new));
            assert(topics_ok(t.topics, new));
        }
        Ok(())
    }

    /// Takes a number of a contact back in, behind the others.
    pub fn restore_number(&mut self, row: NumberRow) -> (r: Result<(), DbError>)
        requires
            old(self)@.wf(),
        ensures
            final(self)@.wf(),
            r is Ok <==> number_follows(old(self)@, row@),
            r is Ok ==> final(self)@ == (Tables {
                numbers: old(self)@.numbers.push(row@),
                ..old(self)@
            }),
            r matches Err(e) ==> final(self)@ == old(self)@ && e@ == DbErrorView::Sqlite(
                "row out of order"@,
            ),
    {
        let ghost t = self@;
        if !self.has_contact(row.contact_id) || self.holds_number(
            row.contact_id,
            row.e164.as_str(),
        ) {
            return Err(out_of_order());
        }
        let ghost added = row@;
        self.numbers.push(row);
        proof {
            let new = t.numbers.push(added);
            assert(self@.numbers =~= new);
            assert forall|i: int, j: int| 0 <= i < j < new.len() implies (
            #[trigger] new[i]).contact_id != (#[trigger] new[j]).contact_id || new[i].e164
                != new[j].e164 by {
                assert(new[i] == t.numbers[i]);
            }
            assert(numbers_ok(new, t.contacts));
        }
        Ok(())
    }

    /// Takes a topic back in, behind the others.
    pub fn restore_topic(&mut self, row: TopicRow) -> (r: Result<(), DbError>)
        requires
            old(self)@.wf(),
        ensures
            final(self)@.wf(),
            r is Ok <==> topic_follows(old(self)@, row@),
            r is Ok ==> final(self)@ == (Tables {
                topics: old(self)@.topics.push(row@),
                ..old(self)@
            }),
            r matches Err(e) ==> final(self)@ == old(self)@ && e@ == DbErrorView::Sqlite(
                "row out of order"@,
            ),
    {
        let ghost t = self@;
        let n = self.topics.len();
        if n > 0 {
            assert(t.topics.last() == self.topics@.last()@);
            if self.topics[n - 1].topic.thread_id >= row.topic.thread_id {
                return Err(out_of_order());
            }
        }
        if let Some(c) = row.topic.contact_id {
            if !self.has_contact(c) {
                return Err(out_of_order());
            }
        }
        let ghost added = row@;
        self.topics.push(row);
        proof {
            assert(self@.topics =~= t.topics.push(added));
            assert(topics_ok(self@.topics, t.contacts));
        }
        Ok(())
    }

    /// Takes a received message back in, behind the others.
    pub fn restore_inbound(&mut self, row: InboundRow) -> (r: Result<(), DbError>)
        requires
            old(self)@.wf(),
        ensures
            final(self)@.wf(),
            r is Ok <==> inbound_follows(old(self)@, row@),
            r is Ok ==> final(self)@ == (Tables {
                inbound: old(self)@.inbound.push(row@),
                ..old(self)@
            }),
            r matches Err(e) ==> final(self)@ == old(self)@ && e@ == DbErrorView::Sqlite(
                "row out of order"@,
            ),
    {
        let ghost t = self@;
        let n = self.inbound.len();
        if n > 0 {
            assert(t.inbound.last() == self.inbound@.last()@);
            if self.inbound[n - 1].id >= row.id {
                return Err(out_of_order());
            }
        }
        if self.path_place(row.mm_path.as_str()) < n {
            return Err(out_of_order());
        }
        let ghost added = row@;
        self.inbound.push(row);
        proof {
            let new = t.inbound.push(added);
            assert(self@.inbound =~= new);
            lemma_find(t.inbound, at_path(added.mm_path));
            assert forall|j: int| 0 <= j < t.inbound.len() implies (#[trigger] t.inbound[j]).mm_path
                != added.mm_path by {
                assert(!at_path(added.mm_path)(t.inbound[j]));
            }
            assert(inbound_ok(new));
        }
        Ok(())
    }

    /// Takes a sent message back in, behind the others.
    pub fn restore_outbound(&mut self, row: OutboundRow) -> (r: Result<(), DbError>)
        requires
            old(self)@.wf(),
        ensures
            final(self)@.wf(),
            r is Ok <==> outbound_follows(old(self)@, row@),
            r is Ok ==> final(self)@ == (Tables {
                outbound: old(self)@.outbound.push(row@),
                ..old(self)@
            }),
            r matches Err(e) ==> final(self)@ == old(self)@ && e@ == DbErrorView::Sqlite(
                "row out of order"@,
            ),
    {
        let ghost t = self@;
        let n = self.outbound.len();
        if n > 0 {
            assert(t.outbound.last() == self.outbound@.last()@);
            if self.outbound[n - 1].id >= row.id {
                return Err(out_of_order());
            }
        }
        let ghost added = row@;
        self.outbound.push(row);
        proof {
            assert(self@.outbound =~= t.outbound.push(added));
            assert(outbound_ok(self@.outbound));
        }
        Ok(())
    }
}

/// Rows that were handed out can all be taken back in, table by table and in the
/// same order: each follows the ones before it, so that what was kept comes back
/// whole.
pub proof fn law_rows_come_back(t: Tables, s: Tables, i: int)
    requires
        t.wf(),
        0 <= i,
    ensures
        i < t.contacts.len() && s.contacts == t.contacts.take(i) ==> contact_follows(
            s,
            t.contacts[i],
        ) && s.contacts.push(t.contacts[i]) == t.contacts.take(i + 1),
        i < t.numbers.len() && s.contacts == t.contacts && s.numbers == t.numbers.take(i)
            ==> number_follows(s, t.numbers[i]) && s.numbers.push(t.numbers[i]) == t.numbers.take(
            i + 1,
        ),
        i < t.topics.len() && s.contacts == t.contacts && s.topics == t.topics.take(i)
            ==> topic_follows(s, t.topics[i]) && s.topics.push(t.topics[i]) == t.topics.take(i + 1),
        i < t.ignored.len() && s.ignored == t.ignored.take(i) ==> ignored_put(
            s,
            t.ignored[i],
        ).ignored == t.ignored.take(i + 1),
        i < t.inbound.len() && s.inbound == t.inbound.take(i) ==> inbound_follows(s, t.inbound[i])
            && s.inbound.push(t.inbound[i]) == t.inbound.take(i + 1),
        i < t.outbound.len() && s.outbound == t.outbound.take(i) ==> outbound_follows(
            s,
            t.outbound[i],
        ) && s.outbound.push(t.outbound[i]) == t.outbound.take(i + 1),
        i < t.forwards.len() && s.forwards == t.forwards.take(i) ==> forward_put(
            s,
            t.forwards[i].0,
            t.forwards[i].1,
        ).forwards == t.forwards.take(i + 1),
{
    if i < t.contacts.len() && s.contacts == t.contacts.take(i) {
        lemma_find(s.contacts, with_resource(t.contacts[i].google_resource));
        assert(s.contacts.push(t.contacts[i]) =~= t.contacts.take(i + 1));
    }
    if i < t.numbers.len() && s.numbers == t.numbers.take(i) {
        assert forall|j: int| 0 <= j < i implies (#[trigger] s.numbers[j]).contact_id
            != t.numbers[i].contact_id || s.numbers[j].e164 != t.numbers[i].e164 by {
            assert(s.numbers[j] == t.numbers[j]);
        }
        assert(s.numbers.push(t.numbers[i]) =~= t.numbers.take(i + 1));
    }
    if i < t.topics.len() && s.topics == t.topics.take(i) {
        assert(s.topics.push(t.topics[i]) =~= t.topics.take(i + 1));
    }
    if i < t.ignored.len() && s.ignored == t.ignored.take(i) {
        assert(!s.ignored.contains(t.ignored[i]));
        assert(s.ignored.push(t.ignored[i]) =~= t.ignored.take(i + 1));
    }
    if i < t.inbound.len() && s.inbound == t.inbound.take(i) {
        lemma_find(s.inbound, at_path(t.inbound[i].mm_path));
        assert(s.inbound.push(t.inbound[i]) =~= t.inbound.take(i + 1));
    }
    if i < t.outbound.len() && s.outbound == t.outbound.take(i) {
        assert(s.outbound.push(t.outbound[i]) =~= t.outbound.take(i + 1));
    }
    if i < t.forwards.len() && s.forwards == t.forwards.take(i) {
        let p = dialogue_elsewhere(t.forwards[i].0);
        assert forall|j: int| 0 <= j < s.forwards.len() implies p(#[trigger] s.forwards[j]) by {
            assert(s.forwards[j] == t.forwards[j]);
        }
        lemma_filter_all(s.forwards, p);
        assert(s.forwards.push(t.forwards[i]) =~= t.forwards.take(i + 1));
    }
}

} // verus!
