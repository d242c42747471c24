//! Threads of the forum, and edits that change nothing.
use vstd::prelude::*;

use crate::route::GENERAL_THREAD;
use crate::text::{contains, holds};

verus! {

/// The thread of a message; one outside any thread is in General.
pub open spec fn thread_of_message(thread: Option<i32>) -> i32 {
    match thread {
        Some(id) => id,
        None => GENERAL_THREAD,
    }
}

/// The thread that is named when sending to it; General is not.
pub open spec fn thread_sent_to(thread_id: i32) -> Option<i32> {
    if thread_id == GENERAL_THREAD {
        None
    } else {
        Some(thread_id)
    }
}

/// The thread of a message; one outside any thread is in General.
pub fn thread_id_i32(thread: Option<i32>) -> (r: i32)
    ensures
        r == thread_of_message(thread),
{
    match thread {
        Some(id) => id,
        None => GENERAL_THREAD,
    }
}

/// Telegram's General topic is not a real thread. Sending `message_thread_id=1`
/// fails with "message thread not found". Omit the field for General.
pub fn forum_thread(thread_id: i32) -> (r: Option<i32>)
    ensures
        r == thread_sent_to(thread_id),
{
    if thread_id == GENERAL_THREAD {
        None
    } else {
        Some(thread_id)
    }
}

/// The thread that is sent to is the one that messages there come from.
pub proof fn law_threads_come_back(thread_id: i32)
    ensures
        thread_of_message(thread_sent_to(thread_id)) == thread_id,
{
}

/// An edit failed only because it changes nothing.
pub open spec fn edit_is_noop(not_modified: bool, message: Seq<char>) -> bool {
    not_modified || holds(message, "message is not modified"@)
}

/// Whether an edit failed only because it changes nothing: by its kind, or by
/// its words.
pub fn edit_failed_is_noop(not_modified: bool, message: &str) -> (r: bool)
    ensures
        r == edit_is_noop(not_modified, message@),
{
    not_modified || contains(message, "message is not modified")
}

} // verus!
