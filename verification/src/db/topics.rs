use vstd::prelude::*;

use crate::db::{clone_opt, Db, DbError, DbErrorView, Topic, TopicRow};
use crate::rows::{find, lemma_filter_take, lemma_find, lemma_find_is, opt_view, res_opt, res_plain};
use crate::tables::{
    about_contact, awaiting, default_put, defaulting, dialogue_elsewhere, dialogue_in, forward_dropped,
    forward_in, forward_put, forwards_ok, from_thread_on, ignored_put, in_thread, is_ignored,
    known_contact, pending_in, pending_put, topic_by_contact, topic_by_e164, topic_by_thread,
    topic_fits, topic_put, topics_ok, with_default, PendingForward, PendingForwardMode, Tables,
    TopicRowView, TopicView,
};
use crate::text::{opt_eq, str_eq};

verus! {

impl TopicRow {
    fn copied(&self) -> (r: TopicRow)
        ensures
            r@ == self@,
    {
        TopicRow {
            topic: self.topic.clone(),
            pending_outbound: clone_opt(&self.pending_outbound),
            pending_reply_to: self.pending_reply_to,
        }
    }
}

/// Changing rows one by one without touching their keys keeps the table in order.
proof fn lemma_topics_mapped(t: Tables, f: spec_fn(TopicRowView) -> TopicRowView)
    requires
        t.wf(),
        forall|r: TopicRowView|
            (#[trigger] f(r)).topic.thread_id == r.topic.thread_id && f(r).topic.contact_id
                == r.topic.contact_id,
    ensures
        topics_ok(t.topics.map_values(f), t.contacts),
{
    let new = t.topics.map_values(f);
    assert forall|i: int, j: int| 0 <= i < j < new.len() implies (
    #[trigger] new[i]).topic.thread_id < (#[trigger] new[j]).topic.thread_id by {
        assert(t.topics[i].topic.thread_id < t.topics[j].topic.thread_id);
        assert(new[i] == f(t.topics[i]));
        assert(new[j] == f(t.topics[j]));
    }
    assert forall|i: int| 0 <= i < new.len() implies ((
    #[trigger] new[i]).topic.contact_id matches Some(c) ==> known_contact(t.contacts, c)) by {
        assert(new[i] == f(t.topics[i]));
        assert(t.topics[i].topic.contact_id matches Some(c) ==> known_contact(t.contacts, c));
    }
}

impl Db {
    fn topic_place(&self, thread_id: i32) -> (r: usize)
        ensures
            r == find(self@.topics, in_thread(thread_id)),
            r <= self@.topics.len(),
    {
        let ghost rows = self@.topics;
        let mut i: usize = 0;
        while i < self.topics.len() && self.topics[i].topic.thread_id != thread_id
            invariant
                i <= self.topics@.len(),
                rows == self@.topics,
                rows.len() == self.topics@.len(),
                forall|j: int| 0 <= j < i ==> (#[trigger] rows[j]).topic.thread_id != thread_id,
            decreases self.topics@.len() - i,
        {
            assert(rows[i as int] == self.topics@[i as int]@);
            i = i + 1;
        }
        proof {
            if i < rows.len() {
                assert(rows[i as int] == self.topics@[i as int]@);
            }
            lemma_find_is(rows, in_thread(thread_id), i as int);
        }
        i
    }

    pub fn get_topic_by_thread(&self, thread_id: i32) -> (r: Result<Option<Topic>, DbError>)
        ensures
            res_opt(r) == Ok::<Option<TopicView>, DbErrorView>(topic_by_thread(self@, thread_id)),
    {
        let i = self.topic_place(thread_id);
        if i < self.topics.len() {
            assert(self@.topics[i as int] == self.topics@[i as int]@);
            Ok(Some(self.topics[i].topic.clone()))
        } else {
            Ok(None)
        }
    }

    pub fn get_topic_by_contact(&self, contact_id: i64) -> (r: Result<Option<Topic>, DbError>)
        ensures
            res_opt(r) == Ok::<Option<TopicView>, DbErrorView>(topic_by_contact(self@, contact_id)),
    {
        let ghost rows = self@.topics;
        let mut i: usize = 0;
        while i < self.topics.len() && self.topics[i].topic.contact_id != Some(contact_id)
            invariant
                i <= self.topics@.len(),
                rows == self@.topics,
                rows.len() == self.topics@.len(),
                forall|j: int|
                    0 <= j < i ==> (#[trigger] rows[j]).topic.contact_id != Some(contact_id),
            decreases self.topics@.len() - i,
        {
            assert(rows[i as int] == self.topics@[i as int]@);
            i = i + 1;
        }
        proof {
            if i < rows.len() {
                assert(rows[i as int] == self.topics@[i as int]@);
            }
            lemma_find_is(rows, about_contact(contact_id), i as int);
        }
        if i < self.topics.len() {
            Ok(Some(self.topics[i].topic.clone()))
        } else {
            Ok(None)
        }
    }

    pub fn get_topic_by_e164(&self, e164: &str) -> (r: Result<Option<Topic>, DbError>)
        ensures
            res_opt(r) == Ok::<Option<TopicView>, DbErrorView>(topic_by_e164(self@, e164@)),
    {
        let ghost rows = self@.topics;
        let mut i: usize = 0;
        while i < self.topics.len() && !opt_eq(&self.topics[i].topic.default_e164, e164)
            invariant
                i <= self.topics@.len(),
                rows == self@.topics,
                rows.len() == self.topics@.len(),
                forall|j: int| 0 <= j < i ==> (#[trigger] rows[j]).topic.default_e164 != Some(e164@),
            decreases self.topics@.len() - i,
        {
            assert(rows[i as int] == self.topics@[i as int]@);
            i = i + 1;
        }
        proof {
            if i < rows.len() {
                assert(rows[i as int] == self.topics@[i as int]@);
            }
            lemma_find_is(rows, with_default(e164@), i as int);
        }
        if i < self.topics.len() {
            Ok(Some(self.topics[i].topic.clone()))
        } else {
            Ok(None)
        }
    }

    /// Stores a topic under its thread. A topic of a contact that is not there
    /// is refused.
    pub fn upsert_topic(&mut self, topic: &Topic) -> (r: Result<(), DbError>)
        requires
            old(self)@.wf(),
        ensures
            final(self)@.wf(),
            r is Ok <==> topic_fits(old(self)@, topic@),
            r is Ok ==> final(self)@ == topic_put(old(self)@, topic@),
            r matches Err(e) ==> final(self)@ == old(self)@ && e@ == DbErrorView::Sqlite(
                "FOREIGN KEY constraint failed"@,
            ),
    {
        let ghost t = self@;
        if let Some(c) = topic.contact_id {
            if !self.has_contact(c) {
                return Err(DbError::Sqlite("FOREIGN KEY constraint failed".to_owned()));
            }
        }
        let mut i: usize = 0;
        while i < self.topics.len() && self.topics[i].topic.thread_id < topic.thread_id
            invariant
                i <= self.topics@.len(),
                self@ == t,
                t.topics.len() == self.topics@.len(),
                forall|j: int|
                    0 <= j < i ==> (#[trigger] t.topics[j]).topic.thread_id < topic.thread_id,
            decreases self.topics@.len() - i,
        {
            assert(t.topics[i as int] == self.topics@[i as int]@);
            i = i + 1;
        }
        proof {
            if i < t.topics.len() {
                assert(t.topics[i as int] == self.topics@[i as int]@);
            }
            lemma_find_is(t.topics, from_thread_on(topic.thread_id), i as int);
        }
        if i < self.topics.len() && self.topics[i].topic.thread_id == topic.thread_id {
            let row = TopicRow {
                topic: topic.clone(),
                pending_outbound: clone_opt(&self.topics[i].pending_outbound),
                pending_reply_to: self.topics[i].pending_reply_to,
            };
            let ghost row_view = row@;
            self.topics.set(i, row);
            proof {
                assert(self@.topics =~= t.topics.update(i as int, row_view));
                assert(self@ == topic_put(t, topic@));
                assert(topics_ok(self@.topics, t.contacts));
            }
        } else {
            let row = TopicRow {
                topic: topic.clone(),
                pending_outbound: None,
                pending_reply_to: None,
            };
            let ghost row_view = row@;
            self.topics.insert(i, row);
            proof {
                let new = t.topics.insert(i as int, row_view);
                assert(self@.topics =~= new);
                assert(self@ == topic_put(t, topic@));
                assert forall|a: int, b: int| 0 <= a < b < new.len() implies (
                #[trigger] new[a]).topic.thread_id < (#[trigger] new[b]).topic.thread_id by {
                    let x = if a < i { a } else { a - 1 };
                    let y = if b < i { b } else { b - 1 };
                    if a != i && b != i {
                        assert(t.topics[x].topic.thread_id < t.topics[y].topic.thread_id);
                    } else if a == i {
                        assert(new[b] == t.topics[b - 1]);
                        assert(t.topics[i as int].topic.thread_id > topic.thread_id);
                        if b - 1 > i {
                            assert(t.topics[i as int].topic.thread_id < t.topics[b
                                - 1].topic.thread_id);
                        }
                    } else {
                        assert(new[a] == t.topics[a]);
                    }
                }
                assert forall|a: int| 0 <= a < new.len() implies ((
                #[trigger] new[a]).topic.contact_id matches Some(c) ==> known_contact(
                    t.contacts,
                    c,
                )) by {
                    if a < i {
                        assert(new[a] == t.topics[a]);
                    } else if a > i {
                        assert(new[a] == t.topics[a - 1]);
                    }
                }
                assert(topics_ok(self@.topics, t.contacts));
            }
        }
        Ok(())
    }

    /// Sets the default number of a topic, if the topic is there.
    pub fn set_default_number(&mut self, thread_id: i32, e164: &str) -> (r: Result<(), DbError>)
        requires
            old(self)@.wf(),
        ensures
            r is Ok,
            final(self)@.wf(),
            final(self)@ == default_put(old(self)@, thread_id, e164@),
    {
        let ghost t = self@;
        let ghost f = defaulting(thread_id, e164@);
        let i = self.topic_place(thread_id);
        proof {
            lemma_find(t.topics, in_thread(thread_id));
            lemma_topics_mapped(t, f);
        }
        if i < self.topics.len() {
            let mut row = self.topics[i].copied();
            assert(t.topics[i as int] == self.topics@[i as int]@);
            row.topic.default_e164 = Some(e164.to_owned());
            let ghost row_view = row@;
            self.topics.set(i, row);
            proof {
                assert(self@.topics =~= t.topics.update(i as int, row_view));
                lemma_one_row(t, thread_id, i as int, f, row_view);
            }
        } else {
            proof {
                lemma_no_row(t, thread_id, f);
            }
        }
        assert(self@ == default_put(t, thread_id, e164@));
        Ok(())
    }

    /// Keeps a text until the number of its topic is chosen.
    pub fn set_pending_outbound(
        &mut self,
        thread_id: i32,
        text: &str,
        reply_to: Option<i32>,
    ) -> (r: Result<(), DbError>)
        requires
            old(self)@.wf(),
        ensures
            r is Ok,
            final(self)@.wf(),
            final(self)@ == pending_put(old(self)@, thread_id, Some(text@), reply_to),
    {
        self.put_pending(thread_id, Some(text.to_owned()), reply_to);
        Ok(())
    }

    fn put_pending(&mut self, thread_id: i32, text: Option<String>, reply_to: Option<i32>)
        requires
            old(self)@.wf(),
        ensures
            final(self)@.wf(),
            final(self)@ == pending_put(old(self)@, thread_id, opt_view(text), reply_to),
    {
        let ghost t = self@;
        let ghost f = awaiting(thread_id, opt_view(text), reply_to);
        let i = self.topic_place(thread_id);
        proof {
            lemma_find(t.topics, in_thread(thread_id));
            lemma_topics_mapped(t, f);
        }
        if i < self.topics.len() {
            let mut row = self.topics[i].copied();
            assert(t.topics[i as int] == self.topics@[i as int]@);
            row.pending_outbound = text;
            row.pending_reply_to = reply_to;
            let ghost row_view = row@;
            self.topics.set(i, row);
            proof {
                assert(self@.topics =~= t.topics.update(i as int, row_view));
                lemma_one_row(t, thread_id, i as int, f, row_view);
            }
        } else {
            proof {
                lemma_no_row(t, thread_id, f);
            }
        }
        assert(self@ == pending_put(t, thread_id, opt_view(text), reply_to));
    }

    /// Hands out the text that waits in a topic; it waits no longer.
    pub fn take_pending_outbound(&mut self, thread_id: i32) -> (r: Result<
        Option<(String, Option<i32>)>,
        DbError,
    >)
        requires
            old(self)@.wf(),
        ensures
            final(self)@.wf(),
            final(self)@ == pending_put(old(self)@, thread_id, None, None),
            r matches Ok(o) && match o {
                Some(p) => pending_in(old(self)@, thread_id) == Some((p.0@, p.1)),
                None => pending_in(old(self)@, thread_id) is None,
            },
    {
        let i = self.topic_place(thread_id);
        let mut out: Option<(String, Option<i32>)> = None;
        if i < self.topics.len() {
            assert(self@.topics[i as int] == self.topics@[i as int]@);
            match &self.topics[i].pending_outbound {
                Some(text) => {
                    out = Some((text.clone(), self.topics[i].pending_reply_to));
                },
                None => {},
            }
        }
        self.put_pending(thread_id, None, None);
        Ok(out)
    }

    /// Ignores a number from now on.
    pub fn ignore_number(&mut self, e164: &str) -> (r: Result<(), DbError>)
        requires
            old(self)@.wf(),
        ensures
            r is Ok,
            final(self)@.wf(),
            final(self)@ == ignored_put(old(self)@, e164@),
    {
        let ghost t = self@;
        if !self.ignores(e164) {
            let ghost before = self.ignored@;
            self.ignored.push(e164.to_owned());
            assert(self@.ignored =~= t.ignored.push(e164@));
            assert(self@ == ignored_put(t, e164@));
        }
        Ok(())
    }

    fn ignores(&self, e164: &str) -> (r: bool)
        ensures
            r == is_ignored(self@, e164@),
    {
        let ghost rows = self@.ignored;
        let mut i: usize = 0;
        while i < self.ignored.len()
            invariant
                i <= self.ignored@.len(),
                rows == self@.ignored,
                rows.len() == self.ignored@.len(),
                forall|j: int| 0 <= j < i ==> rows[j] != e164@,
            decreases self.ignored@.len() - i,
        {
            assert(rows[i as int] == self.ignored@[i as int]@);
            if str_eq(self.ignored[i].as_str(), e164) {
                assert(rows.contains(e164@));
                return true;
            }
            i = i + 1;
        }
        false
    }

    pub fn is_ignored(&self, e164: &str) -> (r: Result<bool, DbError>)
        ensures
            res_plain(r) == Ok::<bool, DbErrorView>(is_ignored(self@, e164@)),
    {
        Ok(self.ignores(e164))
    }

    // -----------------------------------------------------------------------
    // Forwarding dialogues
    // -----------------------------------------------------------------------

    /// Drops the forwarding dialogue of a thread, if there is one.
    pub fn clear_pending_forward(&mut self, thread_id: i32) -> (r: Result<(), DbError>)
        requires
            old(self)@.wf(),
        ensures
            r is Ok,
            final(self)@.wf(),
            final(self)@ == forward_dropped(old(self)@, thread_id),
    {
        let ghost t = self@;
        let ghost p = dialogue_elsewhere(thread_id);
        let mut kept: Vec<(i32, PendingForward)> = Vec::new();
        let mut i: usize = 0;
        proof {
            reveal(Seq::filter);
            assert(t.forwards.take(0).filter(p) =~= kept@);
        }
        while i < self.forwards.len()
            invariant
                i <= self.forwards@.len(),
                self@ == t,
                t.forwards == self.forwards@,
                p == dialogue_elsewhere(thread_id),
                kept@ == t.forwards.take(i as int).filter(p),
                forwards_ok(t.forwards),
                forwards_ok(kept@),
                forall|k: int|
                    0 <= k < kept@.len() ==> (#[trigger] kept@[k]).0 != thread_id && exists|j: int|
                        0 <= j < i && t.forwards[j] == kept@[k],
            decreases self.forwards@.len() - i,
        {
            proof {
                lemma_filter_take(t.forwards, p, i as int);
            }
            let ghost before = kept@;
            if self.forwards[i].0 != thread_id {
                kept.push(self.forwards[i]);
                proof {
                    assert forall|k: int| 0 <= k < kept@.len() implies (
                    #[trigger] kept@[k]).0 != thread_id && exists|j: int|
                        0 <= j < i + 1 && t.forwards[j] == kept@[k] by {
                        if k < before.len() {
                            assert(kept@[k] == before[k]);
                            let j = choose|j: int| 0 <= j < i && t.forwards[j] == before[k];
                            assert(t.forwards[j] == kept@[k]);
                        } else {
                            assert(t.forwards[i as int] == kept@[k]);
                        }
                    }
                    assert forall|a: int, b: int| 0 <= a < b < kept@.len() implies (
                    #[trigger] kept@[a]).0 != (#[trigger] kept@[b]).0 by {
                        if b == before.len() {
                            assert(kept@[a] == before[a]);
                            let j = choose|j: int| 0 <= j < i && t.forwards[j] == before[a];
                            assert(t.forwards[j].0 != t.forwards[i as int].0);
                        } else {
                            assert(before[a].0 != before[b].0);
                        }
                    }
                }
            }
            i = i + 1;
        }
        assert(t.forwards.take(i as int) =~= t.forwards);
        self.forwards = kept;
        assert(self@ == forward_dropped(t, thread_id));
        Ok(())
    }

    /// Starts a forwarding dialogue in a thread, in place of an earlier one.
    pub fn set_pending_forward(
        &mut self,
        thread_id: i32,
        mode: PendingForwardMode,
        edit_chat_id: i64,
        edit_message_id: i32,
    ) -> (r: Result<(), DbError>)
        requires
            old(self)@.wf(),
        ensures
            r is Ok,
            final(self)@.wf(),
            final(self)@ == forward_put(
                old(self)@,
                thread_id,
                (PendingForward { mode, edit_chat_id, edit_message_id }),
            ),
    {
        let ghost t = self@;
        let pending = PendingForward { mode, edit_chat_id, edit_message_id };
        let _ = self.clear_pending_forward(thread_id);
        let ghost kept = self@.forwards;
        self.forwards.push((thread_id, pending));
        proof {
            assert(self@.forwards =~= kept.push((thread_id, pending)));
            assert(self@ == forward_put(t, thread_id, pending));
            assert forall|k: int| 0 <= k < kept.len() implies (#[trigger] kept[k]).0
                != thread_id by {
                broadcast use vstd::seq_lib::group_filter_ensures;

                assert(dialogue_elsewhere(thread_id)(kept[k]));
            }
        }
        Ok(())
    }

    pub fn get_pending_forward(&self, thread_id: i32) -> (r: Result<
        Option<PendingForward>,
        DbError,
    >)
        ensures
            res_plain(r) == Ok::<Option<PendingForward>, DbErrorView>(forward_in(self@, thread_id)),
    {
        let mut i: usize = 0;
        while i < self.forwards.len() && self.forwards[i].0 != thread_id
            invariant
                i <= self.forwards@.len(),
                forall|j: int| 0 <= j < i ==> (#[trigger] self.forwards@[j]).0 != thread_id,
            decreases self.forwards@.len() - i,
        {
            i = i + 1;
        }
        proof {
            lemma_find_is(self@.forwards, dialogue_in(thread_id), i as int);
        }
        if i < self.forwards.len() {
            Ok(Some(self.forwards[i].1))
        } else {
            Ok(None)
        }
    }

    /// Hands out the forwarding dialogue of a thread and drops it.
    pub fn take_pending_forward(&mut self, thread_id: i32) -> (r: Result<
        Option<PendingForward>,
        DbError,
    >)
        requires
            old(self)@.wf(),
        ensures
            final(self)@.wf(),
            final(self)@ == forward_dropped(old(self)@, thread_id),
            res_plain(r) == Ok::<Option<PendingForward>, DbErrorView>(
                forward_in(old(self)@, thread_id),
            ),
    {
        let out = self.get_pending_forward(thread_id);
        let _ = self.clear_pending_forward(thread_id);
        out
    }
}

/// A change that only touches the rows of one thread touches the one row there.
proof fn lemma_one_row(
    t: Tables,
    thread_id: i32,
    i: int,
    f: spec_fn(TopicRowView) -> TopicRowView,
    row: TopicRowView,
)
    requires
        t.wf(),
        0 <= i < t.topics.len(),
        t.topics[i].topic.thread_id == thread_id,
        row == f(t.topics[i]),
        forall|r: TopicRowView| r.topic.thread_id != thread_id ==> #[trigger] f(r) == r,
    ensures
        t.topics.update(i, row) == t.topics.map_values(f),
{
    assert forall|j: int| 0 <= j < t.topics.len() implies t.topics.update(i, row)[j]
        == t.topics.map_values(f)[j] by {
        if j != i {
            if j < i {
                assert(t.topics[j].topic.thread_id < t.topics[i].topic.thread_id);
            } else {
                assert(t.topics[i].topic.thread_id < t.topics[j].topic.thread_id);
            }
            assert(f(t.topics[j]) == t.topics[j]);
        }
    }
    assert(t.topics.update(i, row) =~= t.topics.map_values(f));
}

/// Without a row in the thread such a change changes nothing.
proof fn lemma_no_row(t: Tables, thread_id: i32, f: spec_fn(TopicRowView) -> TopicRowView)
    requires
        find(t.topics, in_thread(thread_id)) >= t.topics.len(),
        forall|r: TopicRowView| r.topic.thread_id != thread_id ==> #[trigger] f(r) == r,
    ensures
        t.topics == t.topics.map_values(f),
{
    lemma_find(t.topics, in_thread(thread_id));
    assert forall|j: int| 0 <= j < t.topics.len() implies t.topics[j] == t.topics.map_values(
        f,
    )[j] by {
        assert(!in_thread(thread_id)(t.topics[j]));
        assert(f(t.topics[j]) == t.topics[j]);
    }
    assert(t.topics =~= t.topics.map_values(f));
}

} // verus!
