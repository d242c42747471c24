//! Watching whether the modem is there, and its inbox.
use vstd::prelude::*;

verus! {

#[derive(Debug, Clone, Copy, PartialEq, Eq, Structural)]
pub enum PresenceEvent {
    Offline,
    Back,
}

/// Tracks modem present/absent transitions. Starts assumed present so the
/// first absence posts offline once and a later return posts back once.
pub struct Presence {
    last: bool,
}

impl Presence {
    /// The modem was there when last looked at.
    pub closed spec fn was_present(&self) -> bool {
        self.last
    }

    pub fn new() -> (r: Self)
        ensures
            r.was_present(),
    {
        Self { last: true }
    }

    /// Notes whether the modem is there now, and tells a change.
    pub fn observe(&mut self, present: bool) -> (r: Option<PresenceEvent>)
        ensures
            final(self).was_present() == present,
            r == presence_change(old(self).was_present(), present),
    {
        let was = self.last;
        self.last = present;
        if was && !present {
            Some(PresenceEvent::Offline)
        } else if !was && present {
            Some(PresenceEvent::Back)
        } else {
            None
        }
    }
}

pub open spec fn presence_change(was: bool, present: bool) -> Option<PresenceEvent> {
    if was == present {
        None
    } else if present {
        Some(PresenceEvent::Back)
    } else {
        Some(PresenceEvent::Offline)
    }
}

pub open spec fn presence_words(event: PresenceEvent) -> Seq<char> {
    match event {
        PresenceEvent::Offline => "modem offline"@,
        PresenceEvent::Back => "modem back"@,
    }
}

/// What is posted in General on a change.
pub fn presence_text(event: PresenceEvent) -> (r: &'static str)
    ensures
        r@ == presence_words(event),
{
    match event {
        PresenceEvent::Offline => "modem offline",
        PresenceEvent::Back => "modem back",
    }
}

/// The changes that a row of observations tells.
pub open spec fn changes(was: bool, seen: Seq<bool>) -> Seq<PresenceEvent>
    decreases seen.len(),
{
    if seen.len() == 0 {
        Seq::empty()
    } else {
        let rest = changes(seen[0], seen.skip(1));
        match presence_change(was, seen[0]) {
            Some(e) => seq![e] + rest,
            None => rest,
        }
    }
}

/// Whatever is observed, going offline and coming back are told in turn, and
/// each change once: no two changes that follow each other are the same, and
/// the first is `Offline` when the modem was there before.
pub proof fn law_changes_alternate(was: bool, seen: Seq<bool>)
    ensures
        ({
            let c = changes(was, seen);
            &&& forall|i: int| 0 <= i < c.len() - 1 ==> #[trigger] c[i] != c[i + 1]
            &&& c.len() > 0 ==> c[0] == if was {
                PresenceEvent::Offline
            } else {
                PresenceEvent::Back
            }
        }),
    decreases seen.len(),
{
    if seen.len() > 0 {
        law_changes_alternate(seen[0], seen.skip(1));
        let rest = changes(seen[0], seen.skip(1));
        let c = changes(was, seen);
        if presence_change(was, seen[0]) is Some {
            assert forall|i: int| 0 <= i < c.len() - 1 implies #[trigger] c[i] != c[i + 1] by {
                assert(c[i + 1] == rest[i]);
                if i > 0 {
                    assert(c[i] == rest[i - 1]);
                    assert(rest[i - 1] != rest[i - 1 + 1]);
                }
            }
        } else {
            assert(c =~= rest);
        }
    }
}

// ---------------------------------------------------------------------------
// The inbox
// ---------------------------------------------------------------------------

/// What the watcher of the inbox is waiting for.
#[derive(Debug, Clone, Copy, PartialEq, Eq, Structural)]
pub enum InboxState {
    /// The subscription to new messages.
    Subscribing,
    /// A new message, or the time to look through the inbox again.
    Listening,
    /// The time to subscribe again.
    Resting,
    /// Nothing: the watcher is done.
    Stopped,
}

/// What happened.
#[derive(Debug, Clone, Copy, PartialEq, Eq, Structural)]
pub enum InboxEvent {
    Subscribed,
    SubscribeFailed,
    Arrived,
    StreamEnded,
    TimePassed,
    Cancelled,
}

/// What the watcher does next.
#[derive(Debug, Clone, Copy, PartialEq, Eq, Structural)]
pub enum InboxAction {
    /// Subscribe to new messages.
    Subscribe,
    /// Look through the inbox, then listen.
    Drain,
    /// Handle the message that arrived, then listen.
    Handle,
    /// Listen on.
    Listen,
    /// Rest for a while.
    Rest,
    /// Stop.
    Stop,
}

/// A subscription that works is followed by a look through the inbox, which is
/// repeated as time passes; one that fails or ends is renewed after a rest. A
/// cancellation stops the watcher whatever it waits for.
pub open spec fn inbox_next(s: InboxState, e: InboxEvent) -> (InboxState, InboxAction) {
    if e == InboxEvent::Cancelled || s == InboxState::Stopped {
        (InboxState::Stopped, InboxAction::Stop)
    } else {
        match (s, e) {
            (InboxState::Subscribing, InboxEvent::Subscribed) => (
                InboxState::Listening,
                InboxAction::Drain,
            ),
            (InboxState::Subscribing, InboxEvent::SubscribeFailed) => (
                InboxState::Resting,
                InboxAction::Rest,
            ),
            (InboxState::Subscribing, _) => (InboxState::Subscribing, InboxAction::Subscribe),
            (InboxState::Listening, InboxEvent::TimePassed) => (
                InboxState::Listening,
                InboxAction::Drain,
            ),
            (InboxState::Listening, InboxEvent::Arrived) => (
                InboxState::Listening,
                InboxAction::Handle,
            ),
            (InboxState::Listening, InboxEvent::StreamEnded) => (
                InboxState::Resting,
                InboxAction::Rest,
            ),
            (InboxState::Listening, _) => (InboxState::Listening, InboxAction::Listen),
            (InboxState::Resting, InboxEvent::TimePassed) => (
                InboxState::Subscribing,
                InboxAction::Subscribe,
            ),
            (InboxState::Resting, _) => (InboxState::Resting, InboxAction::Rest),
            (InboxState::Stopped, _) => (InboxState::Stopped, InboxAction::Stop),
        }
    }
}

/// Decides what the watcher of the inbox does next.
pub fn watch_inbox(state: InboxState, event: InboxEvent) -> (r: (InboxState, InboxAction))
    ensures
        r == inbox_next(state, event),
{
    if event == InboxEvent::Cancelled || state == InboxState::Stopped {
        return (InboxState::Stopped, InboxAction::Stop);
    }
    match state {
        InboxState::Subscribing => match event {
            InboxEvent::Subscribed => (InboxState::Listening, InboxAction::Drain),
            InboxEvent::SubscribeFailed => (InboxState::Resting, InboxAction::Rest),
            _ => (InboxState::Subscribing, InboxAction::Subscribe),
        },
        InboxState::Listening => match event {
            InboxEvent::TimePassed => (InboxState::Listening, InboxAction::Drain),
            InboxEvent::Arrived => (InboxState::Listening, InboxAction::Handle),
            InboxEvent::StreamEnded => (InboxState::Resting, InboxAction::Rest),
            _ => (InboxState::Listening, InboxAction::Listen),
        },
        InboxState::Resting => match event {
            InboxEvent::TimePassed => (InboxState::Subscribing, InboxAction::Subscribe),
            _ => (InboxState::Resting, InboxAction::Rest),
        },
        InboxState::Stopped => (InboxState::Stopped, InboxAction::Stop),
    }
}

/// A watcher that was cancelled never does anything again.
pub proof fn law_cancelled_stays_stopped(s: InboxState, e: InboxEvent)
    ensures
        inbox_next(s, InboxEvent::Cancelled) == (InboxState::Stopped, InboxAction::Stop),
        inbox_next(InboxState::Stopped, e) == (InboxState::Stopped, InboxAction::Stop),
{
}

} // verus!
