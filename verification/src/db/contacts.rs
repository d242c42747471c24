use vstd::prelude::*;

use crate::clock::now_text;
use crate::collate::matches_like;
use crate::db::{clone_opt, Contact, ContactRow, Db, DbError, DbErrorView, NumberRow};
use crate::rows::{
    find, lemma_filter_take, lemma_find, lemma_find_is, res_opt, res_plain, res_views, views,
};
use crate::tables::{
    contact_by_e164, contact_by_id, contact_id_for, contact_put, contacts_like, e164_of,
    fresh_number, has_number, holding, incoming_marked, known_contact, named_like, not_of_contact,
    numbers_fit, numbers_of, numbers_ok, numbers_put, of_contact, seen_now, shown, showing,
    topics_ok, with_id, with_resource, ContactRowView, ContactView, Tables,
};
use crate::text::{cat3, str_eq};

verus! {

impl Db {
    /// The numbers of a contact.
    fn load_numbers(&self, contact_id: i64) -> (r: Vec<String>)
        ensures
            views(r@) == numbers_of(self@, contact_id),
    {
        let ghost rows = self@.numbers;
        let mut out: Vec<String> = Vec::new();
        let mut i: usize = 0;
        proof {
            reveal(Seq::filter);
            assert(rows.take(0).filter(of_contact(contact_id)).map_values(e164_of()) =~= views(
                out@,
            ));
        }
        while i < self.numbers.len()
            invariant
                i <= self.numbers@.len(),
                rows == self@.numbers,
                rows.len() == self.numbers@.len(),
                views(out@) == rows.take(i as int).filter(of_contact(contact_id)).map_values(
                    e164_of(),
                ),
            decreases self.numbers@.len() - i,
        {
            let ghost before = out@;
            proof {
                lemma_filter_take(rows, of_contact(contact_id), i as int);
            }
            if self.numbers[i].contact_id == contact_id {
                out.push(self.numbers[i].e164.clone());
                assert(views(out@) =~= views(before).push(rows[i as int].e164));
                assert(rows.take(i as int).filter(of_contact(contact_id)).push(
                    rows[i as int],
                ).map_values(e164_of()) =~= views(out@));
            }
            i = i + 1;
        }
        assert(rows.take(i as int) =~= rows);
        out
    }

    /// Whether the contact has the number.
    pub(crate) fn holds_number(&self, contact_id: i64, e164: &str) -> (r: bool)
        ensures
            r == has_number(self@, contact_id, e164@),
    {
        let ghost rows = self@.numbers;
        let mut i: usize = 0;
        while i < self.numbers.len()
            invariant
                i <= self.numbers@.len(),
                rows == self@.numbers,
                rows.len() == self.numbers@.len(),
                forall|j: int|
                    0 <= j < i ==> (#[trigger] rows[j]).contact_id != contact_id || rows[j].e164
                        != e164@,
            decreases self.numbers@.len() - i,
        {
            assert(rows[i as int] == self.numbers@[i as int]@);
            if self.numbers[i].contact_id == contact_id && str_eq(
                self.numbers[i].e164.as_str(),
                e164,
            ) {
                return true;
            }
            i = i + 1;
        }
        false
    }

    fn show(&self, i: usize, ambiguous: bool) -> (r: Contact)
        requires
            i < self@.contacts.len(),
        ensures
            r@ == shown(self@, self@.contacts[i as int], ambiguous),
    {
        let row = &self.contacts[i];
        assert(self@.contacts[i as int] == row@);
        Contact {
            id: row.id,
            google_resource: row.google_resource.clone(),
            display_name: row.display_name.clone(),
            numbers: self.load_numbers(row.id),
            ambiguous,
        }
    }

    /// The place of the contact with that id.
    fn contact_place(&self, id: i64) -> (r: usize)
        ensures
            r == find(self@.contacts, with_id(id)),
            r <= self@.contacts.len(),
    {
        let ghost rows = self@.contacts;
        let mut i: usize = 0;
        while i < self.contacts.len() && self.contacts[i].id != id
            invariant
                i <= self.contacts@.len(),
                rows == self@.contacts,
                rows.len() == self.contacts@.len(),
                forall|j: int| 0 <= j < i ==> (#[trigger] rows[j]).id != id,
            decreases self.contacts@.len() - i,
        {
            i = i + 1;
        }
        proof {
            lemma_find_is(rows, with_id(id), i as int);
        }
        i
    }

    /// Whether a contact has that id.
    pub(crate) fn has_contact(&self, id: i64) -> (r: bool)
        ensures
            r == known_contact(self@.contacts, id),
    {
        let i = self.contact_place(id);
        proof {
            lemma_find(self@.contacts, with_id(id));
        }
        i < self.contacts.len()
    }

    pub fn contact_numbers(&self, contact_id: i64) -> (r: Result<Vec<String>, DbError>)
        ensures
            r matches Ok(v) && views(v@) == numbers_of(self@, contact_id),
    {
        Ok(self.load_numbers(contact_id))
    }

    pub fn get_contact(&self, id: i64) -> (r: Result<Option<Contact>, DbError>)
        ensures
            res_opt(r) == Ok::<Option<ContactView>, DbErrorView>(contact_by_id(self@, id)),
    {
        let i = self.contact_place(id);
        if i < self.contacts.len() {
            Ok(Some(self.show(i, false)))
        } else {
            Ok(None)
        }
    }

    /// The contact that a number belongs to.
    pub fn find_contact_by_e164(&self, e164: &str) -> (r: Result<Option<Contact>, DbError>)
        ensures
            res_opt(r) == Ok::<Option<ContactView>, DbErrorView>(contact_by_e164(self@, e164@)),
    {
        let ghost rows = self@.contacts;
        let ghost p = holding(self@, e164@);
        let mut i: usize = 0;
        let mut found: usize = self.contacts.len();
        let mut more = false;
        proof {
            reveal(Seq::filter);
        }
        while i < self.contacts.len()
            invariant
                i <= self.contacts@.len(),
                rows == self@.contacts,
                p == holding(self@, e164@),
                rows.len() == self.contacts@.len(),
                found <= rows.len(),
                found < rows.len() ==> found < i && p(rows[found as int]),
                forall|j: int| 0 <= j < i && j < found ==> !p(#[trigger] rows[j]),
                found == rows.len() ==> rows.take(i as int).filter(p).len() == 0 && !more,
                found < rows.len() ==> rows.take(i as int).filter(p).len() >= 1 && more == (
                rows.take(i as int).filter(p).len() > 1),
            decreases self.contacts@.len() - i,
        {
            proof {
                lemma_filter_take(rows, p, i as int);
            }
            assert(rows[i as int] == self.contacts@[i as int]@);
            if self.holds_number(self.contacts[i].id, e164) {
                if found == self.contacts.len() {
                    found = i;
                } else {
                    more = true;
                }
            }
            i = i + 1;
        }
        proof {
            assert(rows.take(i as int) =~= rows);
            lemma_find_is(rows, p, found as int);
        }
        if found < self.contacts.len() {
            Ok(Some(self.show(found, more)))
        } else {
            Ok(None)
        }
    }

    /// The contacts whose name holds the query. A pattern of more than 50000
    /// bytes is refused once there is a name to hold it against.
    pub fn search_contacts(&self, query: &str) -> (r: Result<Vec<Contact>, DbError>)
        ensures
            res_views(r) == searched(self@, query@),
    {
        if !self.contacts_available {
            return Err(DbError::ContactsUnavailable);
        }
        let pattern = cat3("%", query, "%");
        if self.contacts.len() > 0 && pattern.as_str().as_bytes().len() > 50000 {
            return Err(DbError::Sqlite("LIKE or GLOB pattern too complex".to_owned()));
        }
        let ghost rows = self@.contacts;
        let ghost p = named_like(query@);
        let ghost f = showing(self@);
        let mut out: Vec<Contact> = Vec::new();
        let mut i: usize = 0;
        proof {
            reveal(Seq::filter);
            assert(rows.take(0).filter(p).map_values(f) =~= views(out@));
        }
        while i < self.contacts.len()
            invariant
                i <= self.contacts@.len(),
                rows == self@.contacts,
                rows.len() == self.contacts@.len(),
                p == named_like(query@),
                f == showing(self@),
                pattern@ == "%"@ + query@ + "%"@,
                views(out@) == rows.take(i as int).filter(p).map_values(f),
            decreases self.contacts@.len() - i,
        {
            proof {
                lemma_filter_take(rows, p, i as int);
            }
            let ghost before = out@;
            assert(rows[i as int] == self.contacts@[i as int]@);
            if matches_like(pattern.as_str(), self.contacts[i].display_name.as_str()) {
                out.push(self.show(i, false));
                assert(views(out@) =~= views(before).push(f(rows[i as int])));
                assert(rows.take(i as int).filter(p).push(rows[i as int]).map_values(f) =~= views(
                    out@,
                ));
            }
            i = i + 1;
        }
        assert(rows.take(i as int) =~= rows);
        Ok(out)
    }
}

/// What refers to a contact still refers to one when no contact goes away.
proof fn lemma_references_kept(t: Tables, contacts: Seq<ContactRowView>)
    requires
        t.wf(),
        t.contacts.len() <= contacts.len(),
        forall|i: int| 0 <= i < t.contacts.len() ==> contacts[i].id == (#[trigger] t.contacts[i]).id,
    ensures
        numbers_ok(t.numbers, contacts),
        topics_ok(t.topics, contacts),
{
    assert forall|id: i64| known_contact(t.contacts, id) implies known_contact(contacts, id) by {
        let i = choose|i: int| 0 <= i < t.contacts.len() && (#[trigger] t.contacts[i]).id == id;
        assert(contacts[i].id == id);
    }
}

/// A filter keeps the order of what it keeps.
proof fn lemma_filter_places<A>(s: Seq<A>, p: spec_fn(A) -> bool) -> (at: Seq<int>)
    ensures
        at.len() == s.filter(p).len(),
        forall|i: int|
            0 <= i < at.len() ==> 0 <= #[trigger] at[i] < s.len() && s[at[i]] == s.filter(p)[i] && p(
                s[at[i]],
            ),
        forall|i: int, j: int| 0 <= i < j < at.len() ==> at[i] < at[j],
    decreases s.len(),
{
    reveal(Seq::filter);
    if s.len() == 0 {
        Seq::empty()
    } else {
        let before = lemma_filter_places(s.drop_last(), p);
        if p(s.last()) {
            let at = before.push(s.len() - 1);
            assert forall|i: int| 0 <= i < at.len() implies 0 <= #[trigger] at[i] < s.len()
                && s[at[i]] == s.filter(p)[i] && p(s[at[i]]) by {
                if i < before.len() {
                    assert(s.drop_last()[before[i]] == s[before[i]]);
                }
            }
            at
        } else {
            assert forall|i: int| 0 <= i < before.len() implies 0 <= #[trigger] before[i] < s.len()
                && s[before[i]] == s.filter(p)[i] && p(s[before[i]]) by {
                assert(s.drop_last()[before[i]] == s[before[i]]);
            }
            before
        }
    }
}

proof fn lemma_numbers_put_wf(t: Tables, id: i64, e164s: Seq<Seq<char>>)
    requires
        t.wf(),
        numbers_fit(t, id, e164s),
    ensures
        numbers_put(t, id, e164s).wf(),
{
    let kept = t.numbers.filter(not_of_contact(id));
    let at = lemma_filter_places(t.numbers, not_of_contact(id));
    let added = e164s.map_values(fresh_number(id));
    let all = kept + added;
    assert forall|i: int, j: int| 0 <= i < j < all.len() implies (#[trigger] all[i]).contact_id != (
    #[trigger] all[j]).contact_id || all[i].e164 != all[j].e164 by {
        if j < kept.len() {
            assert(all[i] == t.numbers[at[i]]);
            assert(all[j] == t.numbers[at[j]]);
        } else if i < kept.len() {
            assert(all[i] == t.numbers[at[i]]);
        } else {
            assert(e164s[i - kept.len()] != e164s[j - kept.len()]);
        }
    }
    assert forall|i: int| 0 <= i < all.len() implies known_contact(
        t.contacts,
        (#[trigger] all[i]).contact_id,
    ) by {
        if i < kept.len() {
            assert(all[i] == t.numbers[at[i]]);
        }
    }
}

impl Db {
    /// Stores a contact of the address book and gives its id. Ids run out only
    /// with the integers.
    pub fn upsert_contact(&mut self, google_resource: &str, display_name: &str) -> (r: Result<
        i64,
        DbError,
    >)
        requires
            old(self)@.wf(),
        ensures
            final(self)@.wf(),
            exists|now: Seq<char>|
                #[trigger] contact_upserted(
                    old(self)@,
                    google_resource@,
                    display_name@,
                    now,
                    final(self)@,
                    res_plain(r),
                ),
    {
        let now = now_text();
        self.upsert_contact_at(google_resource, display_name, now.as_str())
    }

    /// Stores a contact of the address book, seen there at the given time.
    pub fn upsert_contact_at(
        &mut self,
        google_resource: &str,
        display_name: &str,
        now: &str,
    ) -> (r: Result<i64, DbError>)
        requires
            old(self)@.wf(),
        ensures
            final(self)@.wf(),
            contact_upserted(
                old(self)@,
                google_resource@,
                display_name@,
                now@,
                final(self)@,
                res_plain(r),
            ),
    {
        let ghost t = self@;
        let mut i: usize = 0;
        while i < self.contacts.len() && !str_eq(
            self.contacts[i].google_resource.as_str(),
            google_resource,
        )
            invariant
                i <= self.contacts@.len(),
                self@ == t,
                t.contacts.len() == self.contacts@.len(),
                forall|j: int|
                    0 <= j < i ==> (#[trigger] t.contacts[j]).google_resource != google_resource@,
            decreases self.contacts@.len() - i,
        {
            assert(t.contacts[i as int] == self.contacts@[i as int]@);
            i = i + 1;
        }
        proof {
            if i < self.contacts@.len() {
                assert(t.contacts[i as int] == self.contacts@[i as int]@);
            }
            lemma_find_is(t.contacts, with_resource(google_resource@), i as int);
        }
        if i < self.contacts.len() {
            let id = self.contacts[i].id;
            let row = ContactRow {
                id,
                google_resource: google_resource.to_owned(),
                display_name: display_name.to_owned(),
                last_synced: now.to_owned(),
            };
            assert(t.contacts[i as int] == self.contacts@[i as int]@);
            let ghost row_view = row@;
            self.contacts.set(i, row);
            proof {
                assert(self@.contacts =~= t.contacts.update(i as int, row_view));
                lemma_references_kept(t, self@.contacts);
                assert(self@ == contact_put(t, google_resource@, display_name@, now@));
            }
            return Ok(id);
        }
        let id: i64 = if self.contacts.len() == 0 {
            1
        } else {
            let last = self.contacts[self.contacts.len() - 1].id;
            assert(t.contacts.last() == self.contacts@.last()@);
            if last == i64::MAX {
                return Err(DbError::Sqlite("database or disk is full".to_owned()));
            }
            last + 1
        };
        let row = ContactRow {
            id,
            google_resource: google_resource.to_owned(),
            display_name: display_name.to_owned(),
            last_synced: now.to_owned(),
        };
        let ghost row_view = row@;
        self.contacts.push(row);
        proof {
            assert(self@.contacts =~= t.contacts.push(row_view));
            lemma_references_kept(t, self@.contacts);
            assert(self@ == contact_put(t, google_resource@, display_name@, now@));
        }
        Ok(id)
    }

    /// Replaces the numbers of a contact. A contact that is not there gets
    /// none, and no number comes twice.
    pub fn replace_contact_numbers(&mut self, contact_id: i64, e164s: &[String]) -> (r: Result<
        (),
        DbError,
    >)
        requires
            old(self)@.wf(),
        ensures
            final(self)@.wf(),
            r is Ok <==> numbers_fit(old(self)@, contact_id, views(e164s@)),
            r is Ok ==> final(self)@ == numbers_put(old(self)@, contact_id, views(e164s@)),
            r matches Err(e) ==> final(self)@ == old(self)@ && e@ == numbers_refused(
                old(self)@,
                contact_id,
                views(e164s@),
            ),
    {
        let ghost t = self@;
        let ghost list = views(e164s@);
        if e164s.len() > 0 && !self.has_contact(contact_id) {
            return Err(DbError::Sqlite("FOREIGN KEY constraint failed".to_owned()));
        }
        let mut i: usize = 0;
        while i < e164s.len()
            invariant
                i <= e164s@.len(),
                list == views(e164s@),
                self@ == t,
                list.len() == 0 || known_contact(t.contacts, contact_id),
                t.wf(),
                t == old(self)@,
                *self == *old(self),
                forall|a: int, b: int|
                    0 <= a < b < i ==> list[a] != list[b],
            decreases e164s@.len() - i,
        {
            let mut j: usize = 0;
            while j < i
                invariant
                    j <= i < e164s@.len(),
                    list == views(e164s@),
                    list.len() == 0 || known_contact(t.contacts, contact_id),
                    self@ == t,
                    t.wf(),
                    t == old(self)@,
                    *self == *old(self),
                    forall|a: int| 0 <= a < j ==> list[a] != list[i as int],
                decreases i - j,
            {
                assert(list[j as int] == e164s@[j as int]@);
                assert(list[i as int] == e164s@[i as int]@);
                if str_eq(e164s[j].as_str(), e164s[i].as_str()) {
                    return Err(
                        DbError::Sqlite(
                            "UNIQUE constraint failed: contact_numbers.contact_id, contact_numbers.e164".to_owned(),
                        ),
                    );
                }
                j = j + 1;
            }
            i = i + 1;
        }
        let mut numbers: Vec<NumberRow> = Vec::new();
        let mut k: usize = 0;
        proof {
            reveal(Seq::filter);
            assert(t.numbers.take(0).filter(not_of_contact(contact_id)) =~= views(numbers@));
        }
        while k < self.numbers.len()
            invariant
                k <= self.numbers@.len(),
                self@ == t,
                t.numbers.len() == self.numbers@.len(),
                views(numbers@) == t.numbers.take(k as int).filter(not_of_contact(contact_id)),
            decreases self.numbers@.len() - k,
        {
            proof {
                lemma_filter_take(t.numbers, not_of_contact(contact_id), k as int);
            }
            assert(t.numbers[k as int] == self.numbers@[k as int]@);
            let ghost before = numbers@;
            if self.numbers[k].contact_id != contact_id {
                let row = self.numbers[k].copied();
                numbers.push(row);
                assert(views(numbers@) =~= views(before).push(t.numbers[k as int]));
            }
            k = k + 1;
        }
        assert(t.numbers.take(k as int) =~= t.numbers);
        let ghost kept = t.numbers.filter(not_of_contact(contact_id));
        let ghost added = list.map_values(fresh_number(contact_id));
        let mut m: usize = 0;
        assert(kept + added.take(0) =~= kept);
        while m < e164s.len()
            invariant
                m <= e164s@.len(),
                list == views(e164s@),
                added == list.map_values(fresh_number(contact_id)),
                views(numbers@) == kept + added.take(m as int),
            decreases e164s@.len() - m,
        {
            let ghost before = numbers@;
            let row = NumberRow {
                contact_id,
                e164: e164s[m].clone(),
                last_seen_incoming: None,
            };
            assert(row@ == added[m as int]);
            numbers.push(row);
            assert(views(numbers@) =~= views(before).push(added[m as int]));
            assert((kept + added.take(m as int)).push(added[m as int]) =~= kept + added.take(
                m + 1,
            ));
            m = m + 1;
        }
        assert(added.take(m as int) =~= added);
        self.numbers = numbers;
        proof {
            lemma_numbers_put_wf(t, contact_id, list);
            assert(self@ == numbers_put(t, contact_id, list));
        }
        Ok(())
    }

    /// Notes that a number sent something at the given time.
    pub fn mark_incoming_at(&mut self, e164: &str, now: &str) -> (r: Result<(), DbError>)
        requires
            old(self)@.wf(),
        ensures
            r is Ok,
            final(self)@.wf(),
            final(self)@ == incoming_marked(old(self)@, e164@, now@),
    {
        let ghost t = self@;
        let ghost f = seen_now(e164@, now@);
        let mut numbers: Vec<NumberRow> = Vec::new();
        let mut k: usize = 0;
        while k < self.numbers.len()
            invariant
                k <= self.numbers@.len(),
                self@ == t,
                f == seen_now(e164@, now@),
                t.numbers.len() == self.numbers@.len(),
                views(numbers@) == t.numbers.map_values(f).take(k as int),
            decreases self.numbers@.len() - k,
        {
            assert(t.numbers[k as int] == self.numbers@[k as int]@);
            let ghost before = numbers@;
            let mut row = self.numbers[k].copied();
            if str_eq(row.e164.as_str(), e164) {
                row.last_seen_incoming = Some(now.to_owned());
            }
            assert(row@ == f(t.numbers[k as int]));
            numbers.push(row);
            assert(views(numbers@) =~= views(before).push(f(t.numbers[k as int])));
            k = k + 1;
        }
        assert(t.numbers.map_values(f).take(k as int) =~= t.numbers.map_values(f));
        self.numbers = numbers;
        proof {
            let new = t.numbers.map_values(f);
            assert forall|i: int| 0 <= i < new.len() implies (#[trigger] new[i]).contact_id
                == t.numbers[i].contact_id && new[i].e164 == t.numbers[i].e164 by {}
            assert(numbers_ok(new, t.contacts));
        }
        Ok(())
    }

    /// Notes that a number sent something just now.
    pub fn mark_incoming(&mut self, e164: &str) -> (r: Result<(), DbError>)
        requires
            old(self)@.wf(),
        ensures
            r is Ok,
            final(self)@.wf(),
            exists|now: Seq<char>|
                final(self)@ == #[trigger] incoming_marked(old(self)@, e164@, now),
    {
        let now = now_text();
        self.mark_incoming_at(e164, now.as_str())
    }
}

impl NumberRow {
    fn copied(&self) -> (r: NumberRow)
        ensures
            r@ == self@,
    {
        NumberRow {
            contact_id: self.contact_id,
            e164: self.e164.clone(),
            last_seen_incoming: clone_opt(&self.last_seen_incoming),
        }
    }
}

/// How storing a contact ends: with its id and the contact in the tables, or,
/// when no id is left for a new one, with the tables as they were.
pub open spec fn contact_upserted(
    t: Tables,
    resource: Seq<char>,
    name: Seq<char>,
    now: Seq<char>,
    after: Tables,
    r: Result<i64, DbErrorView>,
) -> bool {
    if contact_id_for(t, resource) <= i64::MAX {
        &&& after == contact_put(t, resource, name, now)
        &&& r == Ok::<i64, DbErrorView>(contact_id_for(t, resource) as i64)
    } else {
        &&& after == t
        &&& r == Err::<i64, DbErrorView>(DbErrorView::Sqlite("database or disk is full"@))
    }
}

/// Why the numbers of a contact cannot be replaced by these.
pub open spec fn numbers_refused(t: Tables, id: i64, e164s: Seq<Seq<char>>) -> DbErrorView {
    if e164s.len() > 0 && !known_contact(t.contacts, id) {
        DbErrorView::Sqlite("FOREIGN KEY constraint failed"@)
    } else {
        DbErrorView::Sqlite(
            "UNIQUE constraint failed: contact_numbers.contact_id, contact_numbers.e164"@,
        )
    }
}

/// The query makes a pattern that is too long to be held against a name, and
/// there is one.
pub open spec fn pattern_refused(t: Tables, query: Seq<char>) -> bool {
    t.contacts.len() > 0 && vstd::utf8::encode_utf8("%"@ + query + "%"@).len() > 50000
}

/// The outcome of a search by name.
pub open spec fn searched(t: Tables, query: Seq<char>) -> Result<Seq<ContactView>, DbErrorView> {
    if !t.contacts_available {
        Err(DbErrorView::ContactsUnavailable)
    } else if pattern_refused(t, query) {
        Err(DbErrorView::Sqlite("LIKE or GLOB pattern too complex"@))
    } else {
        Ok(contacts_like(t, query))
    }
}

} // verus!
