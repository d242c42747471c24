//! Where a received message is shown, said of the stored rows.
use vstd::prelude::*;

use crate::app::effect::{EffectView, OutcomeView, StepView};
use crate::app::incoming::{
    incoming_after, incoming_begun, incoming_next, IncomingFlowView, IncomingStepView,
};
use crate::app::sweep::too_old;
use crate::clock::Moment;
use crate::db::laws::law_reused_path_is_not_seen;
use crate::laws::found::{
    default_topic_at, law_contact_finds_its_topic, law_default_finds_its_topic,
    law_number_finds_its_contact, nobodys_default, nobodys_number, owner_at, topic_of_at, topicless,
};
use crate::modem::IncomingSmsView;
use crate::normalize::{normalized, NormalizeErrorView};
use crate::rows::{find, lemma_find};
use crate::tables::{at_path, Tables, TopicView};
use crate::text::digits_of;

verus! {

/// The message was received, and none of that number, text and time is stored.
pub open spec fn unrecorded(t: Tables, sms: IncomingSmsView, e164: Seq<char>) -> bool {
    &&& sms.inbound
    &&& forall|i: int|
        0 <= i < t.inbound.len() ==> !((#[trigger] t.inbound[i]).e164 == e164 && t.inbound[i].body
            == sms.text && t.inbound[i].sms_ts == Some(sms.timestamp))
}

/// The topic in which a number is shown: the one whose default number it is, or
/// else the one of the contact that it is stored for.
pub open spec fn belongs_at(t: Tables, e164: Seq<char>, i: int) -> bool {
    default_topic_at(t, e164, i) || (nobodys_default(t, e164) && exists|k: int|
        owner_at(t, e164, k) && topic_of_at(t, (#[trigger] t.contacts[k]).id, i))
}

/// The contact of the number was answered on another number so far.
pub open spec fn writes_from_elsewhere(t: Tables, e164: Seq<char>) -> bool {
    exists|k: int, i: int|
        owner_at(t, e164, k) && topic_of_at(t, (#[trigger] t.contacts[k]).id, i) && (
        #[trigger] t.topics[i]).topic.default_e164 is Some && t.topics[i].topic.default_e164 != Some(
            e164,
        )
}

/// The tables hold the message under the thread.
pub open spec fn holds_record(
    t: Tables,
    sms: IncomingSmsView,
    e164: Seq<char>,
    thread_id: i32,
    stamp: Seq<char>,
) -> bool {
    exists|r: int|
        {
            &&& 0 <= r < t.inbound.len()
            &&& (#[trigger] t.inbound[r]).mm_path == sms.path
            &&& t.inbound[r].e164 == e164
            &&& t.inbound[r].body == sms.text
            &&& t.inbound[r].sms_ts == Some(sms.timestamp)
            &&& t.inbound[r].thread_id == Some(thread_id)
            &&& t.inbound[r].created_at == stamp
        }
}

/// Ids for further messages are left.
pub open spec fn has_room(t: Tables) -> bool {
    t.inbound.len() > 0 ==> t.inbound.last().id < i64::MAX
}

/// The step posts a text in a thread, and once that is done the message is held
/// under the thread.
pub open spec fn posts_and_records(
    step: IncomingStepView,
    sms: IncomingSmsView,
    e164: Seq<char>,
    thread_id: i32,
    text: Seq<char>,
) -> bool {
    &&& step matches StepView::Do(effect, s)
    &&& effect == (EffectView::Post { thread_id, text })
    &&& forall|t: Tables, stamp: Seq<char>|
        has_room(t) ==> holds_record(
            #[trigger] incoming_after(t, s, OutcomeView::Done, stamp),
            sms,
            e164,
            thread_id,
            stamp,
        )
}

proof fn lemma_recorded(
    t: Tables,
    s: IncomingFlowView,
    e164: Seq<char>,
    thread_id: i32,
    stamp: Seq<char>,
)
    requires
        has_room(t),
        s.at == (crate::app::incoming::IncomingAtView::Showing { e164, thread_id }),
    ensures
        holds_record(
            incoming_after(t, s, OutcomeView::Done, stamp),
            s.sms,
            e164,
            thread_id,
            stamp,
        ),
{
    let after = incoming_after(t, s, OutcomeView::Done, stamp);
    let p = at_path(s.sms.path);
    let i = find(t.inbound, p);
    lemma_find(t.inbound, p);
    if i < t.inbound.len() {
        assert(after.inbound[i].mm_path == s.sms.path);
    } else {
        assert(after.inbound[t.inbound.len() as int].mm_path == s.sms.path);
    }
}

/// A new message of a number that is not ignored appears in the topic of the
/// number, with its own text and nothing else, and is recorded there. Where the
/// contact wrote from another number before, a note about that comes first, in
/// the same topic.
pub proof fn law_message_appears_in_its_topic(
    t: Tables,
    region: Seq<char>,
    sms: IncomingSmsView,
    delete: bool,
    now: Moment,
    e164: Seq<char>,
    i: int,
    later: Tables,
)
    requires
        normalized(sms.e164, region) == Ok::<Seq<char>, NormalizeErrorView>(e164),
        unrecorded(t, sms, e164),
        !too_old(sms.timestamp, now.time),
        !t.ignored.contains(e164),
        belongs_at(t, e164, i),
    ensures
        ({
            let thread_id = t.topics[i].topic.thread_id;
            let begun = incoming_begun(t, region, sms, delete, now);
            &&& !writes_from_elsewhere(t, e164) ==> posts_and_records(
                begun,
                sms,
                e164,
                thread_id,
                sms.text,
            )
            &&& writes_from_elsewhere(t, e164) ==> (begun matches StepView::Do(effect, s) && effect
                == (EffectView::Post { thread_id, text: "now using "@ + e164 })
                && posts_and_records(
                incoming_next(later, s, OutcomeView::Done),
                sms,
                e164,
                thread_id,
                sms.text,
            ))
        }),
{
    law_reused_path_is_not_seen(t, sms.path, e164, sms.text, sms.timestamp);
    law_default_finds_its_topic(t, e164, i);
    if nobodys_number(t, e164) {
        law_number_finds_its_contact(t, e164, 0);
    } else {
        let k = lemma_an_owner(t, e164);
        law_number_finds_its_contact(t, e164, k);
        let id = t.contacts[k].id;
        if exists|m: int| topic_of_at(t, id, m) {
            let m = choose|m: int| topic_of_at(t, id, m);
            law_contact_finds_its_topic(t, id, m);
            lemma_one_owner(t, e164, k);
            if nobodys_default(t, e164) && !default_topic_at(t, e164, i) {
                assert(topic_of_at(t, id, i));
                law_contact_finds_its_topic(t, id, i);
            }
            assert(t.contacts[k].id == id && t.topics[m].topic.contact_id == Some(id));
            if writes_from_elsewhere(t, e164) {
                let (k2, i2) = choose|k2: int, i2: int|
                    owner_at(t, e164, k2) && topic_of_at(t, (#[trigger] t.contacts[k2]).id, i2) && (
                    #[trigger] t.topics[i2]).topic.default_e164 is Some
                        && t.topics[i2].topic.default_e164 != Some(e164);
                assert(k2 == k);
                law_contact_finds_its_topic(t, id, i2);
            }
        } else {
            lemma_topicless(t, id);
            law_contact_finds_its_topic(t, id, 0);
            lemma_one_owner(t, e164, k);
        }
    }
    let begun = incoming_begun(t, region, sms, delete, now);
    let step = if writes_from_elsewhere(t, e164) {
        incoming_next(later, begun->Do_1, OutcomeView::Done)
    } else {
        begun
    };
    let thread_id = t.topics[i].topic.thread_id;
    let s = step->Do_1;
    assert forall|t2: Tables, stamp: Seq<char>| has_room(t2) implies holds_record(
        #[trigger] incoming_after(t2, s, OutcomeView::Done, stamp),
        sms,
        e164,
        thread_id,
        stamp,
    ) by {
        lemma_recorded(t2, s, e164, thread_id, stamp);
    }
}

/// A number that is stored for somebody has a first owner.
pub proof fn lemma_an_owner(t: Tables, e164: Seq<char>) -> (k: int)
    requires
        !nobodys_number(t, e164),
    ensures
        owner_at(t, e164, k),
{
    let p = |c: crate::tables::ContactRowView| crate::laws::found::owns(t, c.id, e164);
    let j = choose|j: int|
        0 <= j < t.contacts.len() && crate::laws::found::owns(t, (#[trigger] t.contacts[j]).id, e164);
    let k = find(t.contacts, p);
    lemma_find(t.contacts, p);
    if k > j {
        assert(!p(t.contacts[j]));
    }
    assert forall|m: int| 0 <= m < k implies !crate::laws::found::owns(
        t,
        (#[trigger] t.contacts[m]).id,
        e164,
    ) by {
        assert(!p(t.contacts[m]));
    }
    k
}

/// There is one first owner.
pub proof fn lemma_one_owner(t: Tables, e164: Seq<char>, k: int)
    requires
        owner_at(t, e164, k),
    ensures
        forall|m: int| #[trigger] owner_at(t, e164, m) ==> m == k,
{
    assert forall|m: int| #[trigger] owner_at(t, e164, m) implies m == k by {
        if m < k {
            assert(!crate::laws::found::owns(t, t.contacts[m].id, e164));
        }
        if k < m {
            assert(!crate::laws::found::owns(t, t.contacts[k].id, e164));
        }
    }
}

/// Without a first topic there is none.
pub proof fn lemma_topicless(t: Tables, id: i64)
    requires
        !exists|m: int| topic_of_at(t, id, m),
    ensures
        topicless(t, id),
{
    let p = crate::tables::about_contact(id);
    let k = find(t.topics, p);
    lemma_find(t.topics, p);
    if k < t.topics.len() {
        assert forall|j: int| 0 <= j < k implies (#[trigger] t.topics[j]).topic.contact_id != Some(
            id,
        ) by {
            assert(!p(t.topics[j]));
        }
        assert(topic_of_at(t, id, k));
    }
    assert forall|j: int| 0 <= j < t.topics.len() implies (#[trigger] t.topics[j]).topic.contact_id
        != Some(id) by {
        assert(!p(t.topics[j]));
    }
}

/// A new message of an ignored number, or of one that belongs to nobody, appears
/// in General, the number above the text, and is recorded there.
pub proof fn law_stranger_appears_in_general(
    t: Tables,
    region: Seq<char>,
    sms: IncomingSmsView,
    delete: bool,
    now: Moment,
    e164: Seq<char>,
)
    requires
        normalized(sms.e164, region) == Ok::<Seq<char>, NormalizeErrorView>(e164),
        unrecorded(t, sms, e164),
        !too_old(sms.timestamp, now.time),
        t.ignored.contains(e164) || (nobodys_number(t, e164) && nobodys_default(t, e164)),
    ensures
        posts_and_records(
            incoming_begun(t, region, sms, delete, now),
            sms,
            e164,
            1,
            e164 + "\n"@ + sms.text,
        ),
{
    law_reused_path_is_not_seen(t, sms.path, e164, sms.text, sms.timestamp);
    law_default_finds_its_topic(t, e164, 0);
    law_number_finds_its_contact(t, e164, 0);
    let s = incoming_begun(t, region, sms, delete, now)->Do_1;
    assert forall|t2: Tables, stamp: Seq<char>| has_room(t2) implies holds_record(
        #[trigger] incoming_after(t2, s, OutcomeView::Done, stamp),
        sms,
        e164,
        1,
        stamp,
    ) by {
        lemma_recorded(t2, s, e164, 1, stamp);
    }
}

/// A new message whose sender is no number appears in General too, the sender as
/// the modem tells it above the text, and is recorded there.
pub proof fn law_nameless_appears_in_general(
    t: Tables,
    region: Seq<char>,
    sms: IncomingSmsView,
    delete: bool,
    now: Moment,
)
    requires
        normalized(sms.e164, region) is Err,
        unrecorded(t, sms, sms.e164),
        !too_old(sms.timestamp, now.time),
    ensures
        posts_and_records(
            incoming_begun(t, region, sms, delete, now),
            sms,
            sms.e164,
            1,
            sms.e164 + "\n"@ + sms.text,
        ),
{
    law_reused_path_is_not_seen(t, sms.path, sms.e164, sms.text, sms.timestamp);
    let s = incoming_begun(t, region, sms, delete, now)->Do_1;
    assert forall|t2: Tables, stamp: Seq<char>| has_room(t2) implies holds_record(
        #[trigger] incoming_after(t2, s, OutcomeView::Done, stamp),
        sms,
        sms.e164,
        1,
        stamp,
    ) by {
        let after = incoming_after(t2, s, OutcomeView::Done, stamp);
        let p = at_path(sms.path);
        let i = find(t2.inbound, p);
        lemma_find(t2.inbound, p);
        if i < t2.inbound.len() {
            assert(after.inbound[i].mm_path == sms.path);
        } else {
            assert(after.inbound[t2.inbound.len() as int].mm_path == sms.path);
        }
    }
}

/// A title names the contact, and a number by its last digits, at most four.
pub open spec fn is_title(title: Seq<char>, name: Seq<char>, e164: Seq<char>) -> bool {
    exists|tail: Seq<char>|
        {
            &&& title == #[trigger] (name + " ("@ + tail) + ")"@
            &&& tail.len() <= 4
            &&& tail.len() == 4 || tail == digits_of(e164)
            &&& tail.len() <= digits_of(e164).len()
            &&& tail == digits_of(e164).skip(digits_of(e164).len() - tail.len())
        }
}

/// The first new message of a contact without a topic has one created, under
/// the name of the contact. The topic is stored for the contact, with the number
/// as its default one, and the text appears there and is recorded there.
pub proof fn law_contact_gets_a_topic(
    t: Tables,
    region: Seq<char>,
    sms: IncomingSmsView,
    delete: bool,
    now: Moment,
    e164: Seq<char>,
    k: int,
    thread_id: i32,
    stamp: Seq<char>,
)
    requires
        t.wf(),
        normalized(sms.e164, region) == Ok::<Seq<char>, NormalizeErrorView>(e164),
        unrecorded(t, sms, e164),
        !too_old(sms.timestamp, now.time),
        !t.ignored.contains(e164),
        nobodys_default(t, e164),
        owner_at(t, e164, k),
        topicless(t, t.contacts[k].id),
    ensures
        incoming_begun(t, region, sms, delete, now) matches StepView::Do(effect, s) && (effect
            matches EffectView::CreateTopic { title } && {
            let after = incoming_after(t, s, OutcomeView::Created(thread_id), stamp);
            &&& is_title(title, t.contacts[k].display_name, e164)
            &&& exists|m: int|
                0 <= m < after.topics.len() && (#[trigger] after.topics[m]).topic == (TopicView {
                    thread_id,
                    contact_id: Some(t.contacts[k].id),
                    default_e164: Some(e164),
                    title,
                    ignored: false,
                })
            &&& posts_and_records(
                incoming_next(t, s, OutcomeView::Created(thread_id)),
                sms,
                e164,
                thread_id,
                sms.text,
            )
        }),
{
    law_reused_path_is_not_seen(t, sms.path, e164, sms.text, sms.timestamp);
    law_default_finds_its_topic(t, e164, 0);
    law_number_finds_its_contact(t, e164, k);
    law_contact_finds_its_topic(t, t.contacts[k].id, 0);
    let begun = incoming_begun(t, region, sms, delete, now);
    let s = begun->Do_1;
    let title = begun->Do_0->title;
    let d = digits_of(e164);
    let tail = if d.len() >= 4 {
        d.skip(d.len() - 4)
    } else {
        d
    };
    assert(d.skip(0) =~= d);
    assert(title == (t.contacts[k].display_name + " ("@ + tail) + ")"@);
    assert(crate::tables::known_contact(t.contacts, t.contacts[k].id));
    let next = incoming_next(t, s, OutcomeView::Created(thread_id));
    let s2 = next->Do_1;
    assert forall|t2: Tables, st: Seq<char>| has_room(t2) implies holds_record(
        #[trigger] incoming_after(t2, s2, OutcomeView::Done, st),
        sms,
        e164,
        thread_id,
        st,
    ) by {
        lemma_recorded(t2, s2, e164, thread_id, st);
    }
    let after = incoming_after(t, s, OutcomeView::Created(thread_id), stamp);
    let m = find(t.topics, crate::tables::from_thread_on(thread_id));
    lemma_find(t.topics, crate::tables::from_thread_on(thread_id));
    assert(after.topics[m].topic.thread_id == thread_id);
}

/// Recording a message changes no record of another path, and nothing but the
/// records and when a number was last heard of.
pub proof fn law_record_changes_nothing_else(
    t: Tables,
    s: IncomingFlowView,
    o: OutcomeView,
    stamp: Seq<char>,
    r: int,
)
    requires
        !(s.at is Creating),
        0 <= r < t.inbound.len(),
        t.inbound[r].mm_path != s.sms.path,
    ensures
        ({
            let after = incoming_after(t, s, o, stamp);
            &&& r < after.inbound.len() && after.inbound[r] == t.inbound[r]
            &&& after.inbound.len() <= t.inbound.len() + 1
            &&& after.topics == t.topics && after.contacts == t.contacts && after.outbound
                == t.outbound && after.ignored == t.ignored && after.forwards == t.forwards
            &&& after.numbers.len() == t.numbers.len()
            &&& forall|n: int|
                0 <= n < t.numbers.len() ==> (#[trigger] after.numbers[n]).e164 == t.numbers[n].e164
                    && after.numbers[n].contact_id == t.numbers[n].contact_id
        }),
{
    lemma_find(t.inbound, at_path(s.sms.path));
}

} // verus!
