//! A Telegram that only remembers.
use vstd::prelude::*;

use crate::app::{AppError, AppErrorView};
use crate::rows::res_plain;

verus! {

/// A Telegram without a network: it remembers what it was asked to show.
pub struct FakeTg {
    pub posts: Vec<(i32, String)>,
    pub replies: Vec<(i32, String, i32)>,
    pub reactions: Vec<(i32, String)>,
    pub next_thread: i32,
    pub fail: bool,
}

pub struct FakeTgView {
    pub posts: Seq<(i32, Seq<char>)>,
    pub replies: Seq<(i32, Seq<char>, i32)>,
    pub reactions: Seq<(i32, Seq<char>)>,
    pub next_thread: i32,
    pub fail: bool,
}

pub open spec fn marked(s: Seq<(i32, String)>) -> Seq<(i32, Seq<char>)> {
    s.map_values(|p: (i32, String)| (p.0, p.1@))
}

pub open spec fn answered(s: Seq<(i32, String, i32)>) -> Seq<(i32, Seq<char>, i32)> {
    s.map_values(|p: (i32, String, i32)| (p.0, p.1@, p.2))
}

impl View for FakeTg {
    type V = FakeTgView;

    open spec fn view(&self) -> FakeTgView {
        FakeTgView {
            posts: marked(self.posts@),
            replies: answered(self.replies@),
            reactions: marked(self.reactions@),
            next_thread: self.next_thread,
            fail: self.fail,
        }
    }
}

pub open spec fn quiet() -> FakeTgView {
    FakeTgView {
        posts: Seq::empty(),
        replies: Seq::empty(),
        reactions: Seq::empty(),
        next_thread: 100,
        fail: false,
    }
}

pub open spec fn refused() -> AppErrorView {
    AppErrorView::Telegram("fail"@)
}

fn refusal() -> (r: AppError)
    ensures
        r@ == refused(),
{
    AppError::Telegram("fail".to_owned())
}

impl FakeTg {
    pub fn new() -> (r: Self)
        ensures
            r@ == quiet(),
    {
        let r = Self {
            posts: Vec::new(),
            replies: Vec::new(),
            reactions: Vec::new(),
            next_thread: 100,
            fail: false,
        };
        assert(r@.posts =~= Seq::empty());
        assert(r@.replies =~= Seq::empty());
        assert(r@.reactions =~= Seq::empty());
        r
    }

    pub fn post(&mut self, thread_id: i32, text: String) -> (r: Result<(), AppError>)
        ensures
            old(self)@.fail ==> final(self)@ == old(self)@ && res_plain(r) == Err::<
                (),
                AppErrorView,
            >(refused()),
            !old(self)@.fail ==> r is Ok && final(self)@ == (FakeTgView {
                posts: old(self)@.posts.push((thread_id, text@)),
                ..old(self)@
            }),
    {
        if self.fail {
            return Err(refusal());
        }
        let ghost before = self.posts@;
        let ghost shown = text@;
        self.posts.push((thread_id, text));
        assert(marked(self.posts@) =~= marked(before).push((thread_id, shown)));
        Ok(())
    }

    pub fn reply(&mut self, thread_id: i32, text: String, reply_to: i32) -> (r: Result<
        (),
        AppError,
    >)
        ensures
            old(self)@.fail ==> final(self)@ == old(self)@ && res_plain(r) == Err::<
                (),
                AppErrorView,
            >(refused()),
            !old(self)@.fail ==> r is Ok && final(self)@ == (FakeTgView {
                replies: old(self)@.replies.push((thread_id, text@, reply_to)),
                ..old(self)@
            }),
    {
        if self.fail {
            return Err(refusal());
        }
        let ghost before = self.replies@;
        let ghost shown = text@;
        self.replies.push((thread_id, text, reply_to));
        assert(answered(self.replies@) =~= answered(before).push((thread_id, shown, reply_to)));
        Ok(())
    }

    pub fn react(&mut self, message_id: i32, emoji: &str) -> (r: Result<(), AppError>)
        ensures
            old(self)@.fail ==> final(self)@ == old(self)@ && res_plain(r) == Err::<
                (),
                AppErrorView,
            >(refused()),
            !old(self)@.fail ==> r is Ok && final(self)@ == (FakeTgView {
                reactions: old(self)@.reactions.push((message_id, emoji@)),
                ..old(self)@
            }),
    {
        if self.fail {
            return Err(refusal());
        }
        let ghost before = self.reactions@;
        self.reactions.push((message_id, emoji.to_owned()));
        assert(marked(self.reactions@) =~= marked(before).push((message_id, emoji@)));
        Ok(())
    }

    /// Hands out the next thread, as long as there is one.
    pub fn create_topic(&mut self, title: String) -> (r: Result<i32, AppError>)
        requires
            old(self).next_thread < i32::MAX,
        ensures
            old(self)@.fail ==> final(self)@ == old(self)@ && res_plain(r) == Err::<
                i32,
                AppErrorView,
            >(refused()),
            !old(self)@.fail ==> res_plain(r) == Ok::<i32, AppErrorView>(old(self)@.next_thread)
                && final(self)@ == (FakeTgView {
                next_thread: (old(self)@.next_thread + 1) as i32,
                ..old(self)@
            }),
    {
        if self.fail {
            return Err(refusal());
        }
        let id = self.next_thread;
        self.next_thread = id + 1;
        Ok(id)
    }
}

impl Default for FakeTg {
    fn default() -> (r: Self)
        ensures
            r@ == quiet(),
    {
        FakeTg::new()
    }
}

} // verus!
