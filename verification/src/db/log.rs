use vstd::prelude::*;

use crate::clock::now_text;
use crate::collate::{below, text_at_most};
use crate::db::{Db, DbError, DbErrorView, InboundRow, OutboundRow, TodaySmsCounts};
use crate::rows::{
    count, find, first, lemma_filter_take, lemma_find, lemma_find_is, res_opt, res_plain,
};
use crate::tables::{
    at_path, failed_since, inbound_ok, inbound_put, latest_inbound, latest_outbound,
    next_inbound_id, next_outbound_id, outbound_ok, outbound_put, path_seen, received_since,
    record_of, sent_ok, sent_since, sms_seen, InboundRowView, OutboundRowView, Tables,
};
use crate::text::{opt_eq, str_eq};

verus! {

/// How a query for number and time ends.
pub open spec fn pair_view(r: Result<Option<(String, String)>, DbError>) -> Result<
    Option<(Seq<char>, Seq<char>)>,
    DbErrorView,
> {
    match r {
        Ok(Some(p)) => Ok(Some((p.0@, p.1@))),
        Ok(None) => Ok(None),
        Err(e) => Err(e@),
    }
}

/// Number and time of the last received message.
pub open spec fn last_received(t: Tables) -> Option<(Seq<char>, Seq<char>)> {
    match latest_inbound(t.inbound) {
        Some(r) => Some((r.e164, r.created_at)),
        None => None,
    }
}

/// Number and time of the last message that went out.
pub open spec fn last_sent(t: Tables) -> Option<(Seq<char>, Seq<char>)> {
    match latest_outbound(t.outbound, sent_ok()) {
        Some(r) => Some((r.e164, r.created_at)),
        None => None,
    }
}

/// Why the last message that failed since then did.
pub open spec fn last_failure(t: Tables, since: Seq<char>) -> Option<Seq<char>> {
    match latest_outbound(t.outbound, failed_since(since)) {
        Some(r) => Some(r.result),
        None => None,
    }
}

pub open spec fn counted(n: nat) -> u32 {
    (n % 0x1_0000_0000) as u32
}

/// The messages received, sent and failed since then. Counts are kept modulo
/// two to the thirty-second.
pub open spec fn counts_since(t: Tables, since: Seq<char>) -> TodaySmsCounts {
    TodaySmsCounts {
        inbound: counted(count(t.inbound, received_since(since))),
        sent_ok: counted(count(t.outbound, sent_since(since))),
        sent_fail: counted(count(t.outbound, failed_since(since))),
    }
}

pub open spec fn inbound_thread(t: Tables, path: Seq<char>) -> Option<i32> {
    match first(t.inbound, at_path(path)) {
        Some(r) => r.thread_id,
        None => None,
    }
}

/// What recording a received message changes. Without an id left for it, nothing.
pub open spec fn inbound_after(t: Tables, row: InboundRowView) -> Tables {
    if path_seen(t, row.mm_path) || next_inbound_id(t) <= i64::MAX {
        inbound_put(t, row)
    } else {
        t
    }
}

/// How recording a received message ends.
pub open spec fn inbound_verdict(t: Tables, row: InboundRowView) -> Result<(), DbErrorView> {
    if path_seen(t, row.mm_path) || next_inbound_id(t) <= i64::MAX {
        Ok(())
    } else {
        Err(DbErrorView::Sqlite("database or disk is full"@))
    }
}

pub open spec fn inbound_recorded(
    t: Tables,
    row: InboundRowView,
    after: Tables,
    r: Result<(), DbErrorView>,
) -> bool {
    after == inbound_after(t, row) && r == inbound_verdict(t, row)
}

/// What recording a sent message changes. Without an id left for it, nothing.
pub open spec fn outbound_after(t: Tables, row: OutboundRowView) -> Tables {
    if next_outbound_id(t) <= i64::MAX {
        outbound_put(t, row)
    } else {
        t
    }
}

/// How recording a sent message ends.
pub open spec fn outbound_verdict(t: Tables) -> Result<(), DbErrorView> {
    if next_outbound_id(t) <= i64::MAX {
        Ok(())
    } else {
        Err(DbErrorView::Sqlite("database or disk is full"@))
    }
}

pub open spec fn outbound_recorded(
    t: Tables,
    row: OutboundRowView,
    after: Tables,
    r: Result<(), DbErrorView>,
) -> bool {
    after == outbound_after(t, row) && r == outbound_verdict(t)
}

/// The row of a received message before it has an id.
pub open spec fn inbound_row(
    path: Seq<char>,
    e164: Seq<char>,
    body: Seq<char>,
    tg_msg: Option<i32>,
    created_at: Seq<char>,
    sms_ts: Option<Seq<char>>,
    thread_id: Option<i32>,
) -> InboundRowView {
    InboundRowView { id: 0, mm_path: path, e164, body, tg_msg, created_at, sms_ts, thread_id }
}

/// The row of a sent message before it has an id.
pub open spec fn outbound_row(
    e164: Seq<char>,
    body: Seq<char>,
    result: Seq<char>,
    created_at: Seq<char>,
    thread_id: Option<i32>,
) -> OutboundRowView {
    OutboundRowView { id: 0, e164, body, result, created_at, thread_id }
}

impl Db {
    pub(crate) fn path_place(&self, path: &str) -> (r: usize)
        ensures
            r == find(self@.inbound, at_path(path@)),
            r <= self@.inbound.len(),
    {
        let ghost rows = self@.inbound;
        let mut i: usize = 0;
        while i < self.inbound.len() && !str_eq(self.inbound[i].mm_path.as_str(), path)
            invariant
                i <= self.inbound@.len(),
                rows == self@.inbound,
                rows.len() == self.inbound@.len(),
                forall|j: int| 0 <= j < i ==> (#[trigger] rows[j]).mm_path != path@,
            decreases self.inbound@.len() - i,
        {
            assert(rows[i as int] == self.inbound@[i as int]@);
            i = i + 1;
        }
        proof {
            if i < rows.len() {
                assert(rows[i as int] == self.inbound@[i as int]@);
            }
            lemma_find_is(rows, at_path(path@), i as int);
        }
        i
    }

    pub fn seen_sms_path(&self, path: &str) -> (r: Result<bool, DbError>)
        ensures
            res_plain(r) == Ok::<bool, DbErrorView>(path_seen(self@, path@)),
    {
        let i = self.path_place(path);
        Ok(i < self.inbound.len())
    }

    /// Whether a message was recorded before. D-Bus paths change when
    /// ModemManager reloads the inbox, and are given out again after a restart;
    /// number, text and modem time are stable. The path counts only where the
    /// modem gave the message no time.
    pub fn seen_sms(&self, path: &str, e164: &str, text: &str, sms_ts: &str) -> (r: Result<
        bool,
        DbError,
    >)
        ensures
            res_plain(r) == Ok::<bool, DbErrorView>(
                sms_seen(self@, path@, e164@, text@, sms_ts@),
            ),
    {
        let ghost rows = self@.inbound;
        let ghost p = record_of(path@, e164@, text@, sms_ts@);
        let timed = !sms_ts.is_empty();
        let mut i: usize = 0;
        while i < self.inbound.len() && !(str_eq(self.inbound[i].e164.as_str(), e164) && str_eq(
            self.inbound[i].body.as_str(),
            text,
        ) && opt_eq(&self.inbound[i].sms_ts, sms_ts) && (timed || str_eq(
            self.inbound[i].mm_path.as_str(),
            path,
        )))
            invariant
                i <= self.inbound@.len(),
                rows == self@.inbound,
                rows.len() == self.inbound@.len(),
                timed == (sms_ts@.len() > 0),
                p == record_of(path@, e164@, text@, sms_ts@),
                forall|j: int| 0 <= j < i ==> !p(#[trigger] rows[j]),
            decreases self.inbound@.len() - i,
        {
            assert(rows[i as int] == self.inbound@[i as int]@);
            i = i + 1;
        }
        proof {
            if i < rows.len() {
                assert(rows[i as int] == self.inbound@[i as int]@);
            }
            lemma_find_is(rows, p, i as int);
        }
        Ok(i < self.inbound.len())
    }

    /// The thread that a message was recorded under.
    pub fn inbound_thread_id(&self, path: &str) -> (r: Result<Option<i32>, DbError>)
        ensures
            res_plain(r) == Ok::<Option<i32>, DbErrorView>(inbound_thread(self@, path@)),
    {
        let i = self.path_place(path);
        if i < self.inbound.len() {
            assert(self@.inbound[i as int] == self.inbound@[i as int]@);
            Ok(self.inbound[i].thread_id)
        } else {
            Ok(None)
        }
    }

    /// Records a received message; the id of the given row does not count.
    pub fn put_inbound(&mut self, row: InboundRow) -> (r: Result<(), DbError>)
        requires
            old(self)@.wf(),
        ensures
            final(self)@.wf(),
            inbound_recorded(old(self)@, row@, final(self)@, res_plain(r)),
            path_seen(old(self)@, row@.mm_path) || next_inbound_id(old(self)@) <= i64::MAX
                ==> path_seen(final(self)@, row@.mm_path),
    {
        let ghost t = self@;
        let i = self.path_place(row.mm_path.as_str());
        proof {
            lemma_find(t.inbound, at_path(row@.mm_path));
        }
        let mut row = row;
        let ghost given = row@;
        if i < self.inbound.len() {
            row.id = self.inbound[i].id;
            assert(t.inbound[i as int] == self.inbound@[i as int]@);
            let ghost row_view = row@;
            self.inbound.set(i, row);
            proof {
                let new = t.inbound.update(i as int, row_view);
                assert(self@.inbound =~= new);
                assert(self@ == inbound_put(t, given));
                assert(inbound_ok(new));
                lemma_find_is(new, at_path(given.mm_path), i as int);
            }
            return Ok(());
        }
        if self.inbound.len() == 0 {
            row.id = 1;
        } else {
            let last = self.inbound[self.inbound.len() - 1].id;
            assert(t.inbound.last() == self.inbound@.last()@);
            if last == i64::MAX {
                return Err(DbError::Sqlite("database or disk is full".to_owned()));
            }
            row.id = last + 1;
        }
        let ghost row_view = row@;
        self.inbound.push(row);
        proof {
            let new = t.inbound.push(row_view);
            assert(self@.inbound =~= new);
            assert(self@ == inbound_put(t, given));
            assert forall|j: int| 0 <= j < t.inbound.len() implies (#[trigger] t.inbound[j]).mm_path
                != given.mm_path by {
                assert(!at_path(given.mm_path)(t.inbound[j]));
            }
            assert(inbound_ok(new));
            assert forall|j: int| 0 <= j < t.inbound.len() implies !at_path(given.mm_path)(
                #[trigger] new[j],
            ) by {
                assert(new[j] == t.inbound[j]);
            }
            lemma_find_is(new, at_path(given.mm_path), t.inbound.len() as int);
        }
        Ok(())
    }

    /// Records a sent message; the id of the given row does not count.
    pub fn put_outbound(&mut self, row: OutboundRow) -> (r: Result<(), DbError>)
        requires
            old(self)@.wf(),
        ensures
            final(self)@.wf(),
            outbound_recorded(old(self)@, row@, final(self)@, res_plain(r)),
    {
        let ghost t = self@;
        let mut row = row;
        let ghost given = row@;
        if self.outbound.len() == 0 {
            row.id = 1;
        } else {
            let last = self.outbound[self.outbound.len() - 1].id;
            assert(t.outbound.last() == self.outbound@.last()@);
            if last == i64::MAX {
                return Err(DbError::Sqlite("database or disk is full".to_owned()));
            }
            row.id = last + 1;
        }
        let ghost row_view = row@;
        self.outbound.push(row);
        proof {
            let new = t.outbound.push(row_view);
            assert(self@.outbound =~= new);
            assert(self@ == outbound_put(t, given));
            assert(outbound_ok(new));
        }
        Ok(())
    }

    /// Records a message received at the given time.
    pub fn record_inbound_at(
        &mut self,
        path: &str,
        e164: &str,
        text: &str,
        tg_msg: Option<i32>,
        sms_ts: &str,
        thread_id: i32,
        now: &str,
    ) -> (r: Result<(), DbError>)
        requires
            old(self)@.wf(),
        ensures
            final(self)@.wf(),
            inbound_recorded(
                old(self)@,
                inbound_row(path@, e164@, text@, tg_msg, now@, Some(sms_ts@), Some(thread_id)),
                final(self)@,
                res_plain(r),
            ),
            r is Ok ==> path_seen(final(self)@, path@),
    {
        self.put_inbound(
            InboundRow {
                id: 0,
                mm_path: path.to_owned(),
                e164: e164.to_owned(),
                body: text.to_owned(),
                tg_msg,
                created_at: now.to_owned(),
                sms_ts: Some(sms_ts.to_owned()),
                thread_id: Some(thread_id),
            },
        )
    }

    /// Records a message received just now.
    pub fn record_inbound(
        &mut self,
        path: &str,
        e164: &str,
        text: &str,
        tg_msg: Option<i32>,
        sms_ts: &str,
        thread_id: i32,
    ) -> (r: Result<(), DbError>)
        requires
            old(self)@.wf(),
        ensures
            final(self)@.wf(),
            exists|now: Seq<char>|
                inbound_recorded(
                    old(self)@,
                    #[trigger] inbound_row(
                        path@,
                        e164@,
                        text@,
                        tg_msg,
                        now,
                        Some(sms_ts@),
                        Some(thread_id),
                    ),
                    final(self)@,
                    res_plain(r),
                ),
            r is Ok ==> path_seen(final(self)@, path@),
    {
        let now = now_text();
        self.record_inbound_at(path, e164, text, tg_msg, sms_ts, thread_id, now.as_str())
    }

    /// Plants a received message at a given time, without a thread.
    pub fn insert_inbound_at(&mut self, path: &str, e164: &str, body: &str, created_at: &str) -> (r:
        Result<(), DbError>)
        requires
            old(self)@.wf(),
        ensures
            final(self)@.wf(),
            path_seen(old(self)@, path@) ==> final(self)@ == old(self)@ && res_plain(r) == Err::<
                (),
                DbErrorView,
            >(DbErrorView::Sqlite("UNIQUE constraint failed: inbound_log.mm_path"@)),
            !path_seen(old(self)@, path@) ==> inbound_recorded(
                old(self)@,
                inbound_row(path@, e164@, body@, None, created_at@, None, None),
                final(self)@,
                res_plain(r),
            ),
    {
        if self.path_place(path) < self.inbound.len() {
            return Err(
                DbError::Sqlite("UNIQUE constraint failed: inbound_log.mm_path".to_owned()),
            );
        }
        self.put_inbound(
            InboundRow {
                id: 0,
                mm_path: path.to_owned(),
                e164: e164.to_owned(),
                body: body.to_owned(),
                tg_msg: None,
                created_at: created_at.to_owned(),
                sms_ts: None,
                thread_id: None,
            },
        )
    }

    /// Records a message sent at the given time.
    pub fn record_outbound_at(
        &mut self,
        e164: &str,
        text: &str,
        result: &str,
        thread_id: i32,
        now: &str,
    ) -> (r: Result<(), DbError>)
        requires
            old(self)@.wf(),
        ensures
            final(self)@.wf(),
            outbound_recorded(
                old(self)@,
                outbound_row(e164@, text@, result@, now@, Some(thread_id)),
                final(self)@,
                res_plain(r),
            ),
    {
        self.put_outbound(
            OutboundRow {
                id: 0,
                e164: e164.to_owned(),
                body: text.to_owned(),
                result: result.to_owned(),
                created_at: now.to_owned(),
                thread_id: Some(thread_id),
            },
        )
    }

    /// Records a message sent just now.
    pub fn record_outbound(&mut self, e164: &str, text: &str, result: &str, thread_id: i32) -> (r:
        Result<(), DbError>)
        requires
            old(self)@.wf(),
        ensures
            final(self)@.wf(),
            exists|now: Seq<char>|
                outbound_recorded(
                    old(self)@,
                    #[trigger] outbound_row(e164@, text@, result@, now, Some(thread_id)),
                    final(self)@,
                    res_plain(r),
                ),
    {
        let now = now_text();
        self.record_outbound_at(e164, text, result, thread_id, now.as_str())
    }

    /// How many messages came, went out and failed since then.
    pub fn today_sms_counts(&self, since_rfc3339: &str) -> (r: Result<TodaySmsCounts, DbError>)
        ensures
            res_plain(r) == Ok::<TodaySmsCounts, DbErrorView>(counts_since(self@, since_rfc3339@)),
    {
        let ghost ins = self@.inbound;
        let ghost outs = self@.outbound;
        let ghost p = received_since(since_rfc3339@);
        let ghost q = sent_since(since_rfc3339@);
        let ghost f = failed_since(since_rfc3339@);
        let mut received: usize = 0;
        let mut i: usize = 0;
        proof {
            reveal(Seq::filter);
        }
        while i < self.inbound.len()
            invariant
                i <= self.inbound@.len(),
                ins == self@.inbound,
                ins.len() == self.inbound@.len(),
                p == received_since(since_rfc3339@),
                received <= i,
                received == ins.take(i as int).filter(p).len(),
            decreases self.inbound@.len() - i,
        {
            proof {
                lemma_filter_take(ins, p, i as int);
            }
            assert(ins[i as int] == self.inbound@[i as int]@);
            if text_at_most(since_rfc3339, self.inbound[i].created_at.as_str()) {
                received = received + 1;
            }
            i = i + 1;
        }
        assert(ins.take(i as int) =~= ins);
        let mut sent: usize = 0;
        let mut failed: usize = 0;
        let mut k: usize = 0;
        while k < self.outbound.len()
            invariant
                k <= self.outbound@.len(),
                outs == self@.outbound,
                outs.len() == self.outbound@.len(),
                q == sent_since(since_rfc3339@),
                f == failed_since(since_rfc3339@),
                sent <= k,
                failed <= k,
                sent == outs.take(k as int).filter(q).len(),
                failed == outs.take(k as int).filter(f).len(),
            decreases self.outbound@.len() - k,
        {
            proof {
                lemma_filter_take(outs, q, k as int);
                lemma_filter_take(outs, f, k as int);
            }
            assert(outs[k as int] == self.outbound@[k as int]@);
            if text_at_most(since_rfc3339, self.outbound[k].created_at.as_str()) {
                if str_eq(self.outbound[k].result.as_str(), "ok") {
                    sent = sent + 1;
                } else {
                    failed = failed + 1;
                }
            }
            k = k + 1;
        }
        assert(outs.take(k as int) =~= outs);
        Ok(
            TodaySmsCounts {
                inbound: (received as u64 % 0x1_0000_0000) as u32,
                sent_ok: (sent as u64 % 0x1_0000_0000) as u32,
                sent_fail: (failed as u64 % 0x1_0000_0000) as u32,
            },
        )
    }

    /// Number and time of the last received message.
    pub fn last_inbound(&self) -> (r: Result<Option<(String, String)>, DbError>)
        ensures
            pair_view(r) == Ok::<Option<(Seq<char>, Seq<char>)>, DbErrorView>(last_received(self@)),
    {
        let ghost rows = self@.inbound;
        let mut best: Option<usize> = None;
        let mut i: usize = 0;
        while i < self.inbound.len()
            invariant
                i <= self.inbound@.len(),
                rows == self@.inbound,
                rows.len() == self.inbound@.len(),
                best matches Some(b) ==> b < i,
                latest_inbound(rows.take(i as int)) == match best {
                    Some(b) => Some(rows[b as int]),
                    None => None,
                },
            decreases self.inbound@.len() - i,
        {
            assert(rows.take(i + 1).drop_last() =~= rows.take(i as int));
            assert(rows[i as int] == self.inbound@[i as int]@);
            match best {
                Some(b) => {
                    assert(rows[b as int] == self.inbound@[b as int]@);
                    if text_at_most(
                        self.inbound[b].created_at.as_str(),
                        self.inbound[i].created_at.as_str(),
                    ) {
                        best = Some(i);
                    }
                },
                None => {
                    best = Some(i);
                },
            }
            i = i + 1;
        }
        assert(rows.take(i as int) =~= rows);
        match best {
            Some(b) => {
                assert(rows[b as int] == self.inbound@[b as int]@);
                Ok(Some((self.inbound[b].e164.clone(), self.inbound[b].created_at.clone())))
            },
            None => Ok(None),
        }
    }

    /// Number and time of the last message that went out.
    pub fn last_outbound_ok(&self) -> (r: Result<Option<(String, String)>, DbError>)
        ensures
            pair_view(r) == Ok::<Option<(Seq<char>, Seq<char>)>, DbErrorView>(last_sent(self@)),
    {
        let ghost rows = self@.outbound;
        let ghost p = sent_ok();
        let mut best: Option<usize> = None;
        let mut i: usize = 0;
        while i < self.outbound.len()
            invariant
                i <= self.outbound@.len(),
                rows == self@.outbound,
                rows.len() == self.outbound@.len(),
                p == sent_ok(),
                best matches Some(b) ==> b < i,
                latest_outbound(rows.take(i as int), p) == match best {
                    Some(b) => Some(rows[b as int]),
                    None => None,
                },
            decreases self.outbound@.len() - i,
        {
            assert(rows.take(i + 1).drop_last() =~= rows.take(i as int));
            assert(rows[i as int] == self.outbound@[i as int]@);
            if str_eq(self.outbound[i].result.as_str(), "ok") {
                best = self.later(best, i);
            }
            i = i + 1;
        }
        assert(rows.take(i as int) =~= rows);
        match best {
            Some(b) => {
                assert(rows[b as int] == self.outbound@[b as int]@);
                Ok(Some((self.outbound[b].e164.clone(), self.outbound[b].created_at.clone())))
            },
            None => Ok(None),
        }
    }

    /// The later of two sent messages, by their times.
    fn later(&self, best: Option<usize>, i: usize) -> (r: Option<usize>)
        requires
            i < self@.outbound.len(),
            best matches Some(b) ==> b < i,
        ensures
            r matches Some(n) && n <= i,
            r == if best matches Some(b) && below(
                self@.outbound[i as int].created_at,
                self@.outbound[b as int].created_at,
            ) {
                best
            } else {
                Some(i)
            },
    {
        match best {
            Some(b) => {
                assert(self@.outbound[b as int] == self.outbound@[b as int]@);
                assert(self@.outbound[i as int] == self.outbound@[i as int]@);
                if text_at_most(
                    self.outbound[b].created_at.as_str(),
                    self.outbound[i].created_at.as_str(),
                ) {
                    Some(i)
                } else {
                    best
                }
            },
            None => Some(i),
        }
    }

    /// Why the last message that failed since then did.
    pub fn last_outbound_fail_since(&self, since_rfc3339: &str) -> (r: Result<
        Option<String>,
        DbError,
    >)
        ensures
            res_opt(r) == Ok::<Option<Seq<char>>, DbErrorView>(
                last_failure(self@, since_rfc3339@),
            ),
    {
        let ghost rows = self@.outbound;
        let ghost p = failed_since(since_rfc3339@);
        let mut best: Option<usize> = None;
        let mut i: usize = 0;
        while i < self.outbound.len()
            invariant
                i <= self.outbound@.len(),
                rows == self@.outbound,
                rows.len() == self.outbound@.len(),
                p == failed_since(since_rfc3339@),
                best matches Some(b) ==> b < i,
                latest_outbound(rows.take(i as int), p) == match best {
                    Some(b) => Some(rows[b as int]),
                    None => None,
                },
            decreases self.outbound@.len() - i,
        {
            assert(rows.take(i + 1).drop_last() =~= rows.take(i as int));
            assert(rows[i as int] == self.outbound@[i as int]@);
            if !str_eq(self.outbound[i].result.as_str(), "ok") && text_at_most(
                since_rfc3339,
                self.outbound[i].created_at.as_str(),
            ) {
                best = self.later(best, i);
            }
            i = i + 1;
        }
        assert(rows.take(i as int) =~= rows);
        match best {
            Some(b) => {
                assert(rows[b as int] == self.outbound@[b as int]@);
                Ok(Some(self.outbound[b].result.clone()))
            },
            None => Ok(None),
        }
    }
}

} // verus!
