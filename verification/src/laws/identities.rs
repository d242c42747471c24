//! Whom a number, a contact and a thread stand for, said of the stored rows.
use vstd::prelude::*;

use crate::actions::identity::{
    agree, contact_ids, resolution, resolution_here, IdentityView, ResolveMode, ResolvedView,
};
use crate::actions::numbers::{
    choosing, chose, ignored_after, ignoring, numbers_result, state_for, who_for, who_result,
    IgnoreStepView, NumberStateView, NumberStepView, WhoView,
};
use crate::actions::ActionErrorView;
use crate::laws::found::{
    default_topic_at, law_contact_finds_its_topic, law_default_finds_its_topic,
    law_id_finds_its_contact, law_number_finds_its_contact, law_thread_finds_its_topic,
    nobodys_default, nobodys_number, owner_at, topic_of_at, topicless,
};
use crate::laws::texts::{law_trimming_keeps_the_core, solid};
use crate::normalize::{complaint, normalized, NormalizeErrorView};
use crate::tables::{ContactView, Tables, TopicView};
use crate::text::nonblank;

verus! {

/// The stored contact at a place.
pub open spec fn is_row(t: Tables, k: int, c: Option<ContactView>) -> bool {
    &&& 0 <= k < t.contacts.len()
    &&& c is Some
    &&& c->0.id == t.contacts[k].id
    &&& c->0.display_name == t.contacts[k].display_name
    &&& c->0.google_resource == t.contacts[k].google_resource
}

/// What a number alone was resolved to.
pub open spec fn by_number(
    t: Tables,
    region: Seq<char>,
    raw: Seq<char>,
    mode: ResolveMode,
) -> Result<ResolvedView, ActionErrorView> {
    resolution(
        t,
        region,
        (IdentityView { number: Some(raw), contact_id: None, thread_id: None }),
        mode,
    )
}

proof fn lemma_raw(raw: Seq<char>)
    requires
        solid(raw),
    ensures
        nonblank(Some(raw)) == Some(raw),
{
    let none = Seq::<char>::empty();
    assert(none + raw + none =~= raw);
    law_trimming_keeps_the_core(none, raw, none);
}

/// A number that is stored for a contact stands for the contact and for the
/// contact's topic, unless it is the default of another topic.
pub proof fn law_number_stands_for_its_contact(
    t: Tables,
    region: Seq<char>,
    raw: Seq<char>,
    e164: Seq<char>,
    k: int,
    i: int,
    mode: ResolveMode,
)
    requires
        t.wf(),
        solid(raw),
        normalized(raw, region) == Ok::<Seq<char>, NormalizeErrorView>(e164),
        owner_at(t, e164, k),
    ensures
        topic_of_at(t, t.contacts[k].id, i) && (nobodys_default(t, e164) || default_topic_at(
            t,
            e164,
            i,
        )) ==> (by_number(t, region, raw, mode) matches Ok(r) && {
            &&& is_row(t, k, r.contact)
            &&& r.topic == Some(t.topics[i].topic)
            &&& r.e164 == Some(e164)
        }),
        topicless(t, t.contacts[k].id) && nobodys_default(t, e164) && mode
            != ResolveMode::RequireTopic ==> (by_number(t, region, raw, mode) matches Ok(r) && {
            &&& is_row(t, k, r.contact)
            &&& r.topic is None
            &&& r.e164 == Some(e164)
        }),
        topicless(t, t.contacts[k].id) && nobodys_default(t, e164) ==> by_number(
            t,
            region,
            raw,
            ResolveMode::RequireTopic,
        ) == Err::<ResolvedView, ActionErrorView>(ActionErrorView::NotFound("unknown topic"@)),
        default_topic_at(t, e164, i) && t.topics[i].topic.contact_id is Some
            && t.topics[i].topic.contact_id != Some(t.contacts[k].id) ==> by_number(
            t,
            region,
            raw,
            mode,
        ) == Err::<ResolvedView, ActionErrorView>(ActionErrorView::IdentityConflict),
{
    lemma_raw(raw);
    law_number_finds_its_contact(t, e164, k);
    law_default_finds_its_topic(t, e164, i);
    law_contact_finds_its_topic(t, t.contacts[k].id, i);
    let id = IdentityView { number: Some(raw), contact_id: None, thread_id: None };
    let ids = contact_ids(t, id, Some(e164));
    if default_topic_at(t, e164, i) && t.topics[i].topic.contact_id is Some
        && t.topics[i].topic.contact_id != Some(t.contacts[k].id) {
        assert(ids[0] == t.contacts[k].id);
        assert(ids[1] == t.topics[i].topic.contact_id->0);
        assert(!agree(ids));
    }
}

/// A number that nobody has stands for itself, or for the topic whose default it
/// is.
pub proof fn law_strange_number_stands_for_itself(
    t: Tables,
    region: Seq<char>,
    raw: Seq<char>,
    e164: Seq<char>,
    i: int,
    mode: ResolveMode,
)
    requires
        t.wf(),
        solid(raw),
        normalized(raw, region) == Ok::<Seq<char>, NormalizeErrorView>(e164),
        nobodys_number(t, e164),
    ensures
        nobodys_default(t, e164) && mode != ResolveMode::RequireTopic ==> by_number(
            t,
            region,
            raw,
            mode,
        ) == Ok::<ResolvedView, ActionErrorView>(
            ResolvedView { contact: None, topic: None, e164: Some(e164) },
        ),
        nobodys_default(t, e164) ==> by_number(t, region, raw, ResolveMode::RequireTopic) == Err::<
            ResolvedView,
            ActionErrorView,
        >(ActionErrorView::NotFound("unknown topic"@)),
        default_topic_at(t, e164, i) ==> (by_number(t, region, raw, mode) matches Ok(r) && r.topic
            == Some(t.topics[i].topic) && r.e164 == Some(e164)),
{
    lemma_raw(raw);
    law_number_finds_its_contact(t, e164, 0);
    law_default_finds_its_topic(t, e164, i);
}

/// What is no number is refused, in its own words.
pub proof fn law_no_number_is_refused(
    t: Tables,
    region: Seq<char>,
    id: IdentityView,
    raw: Seq<char>,
    e: NormalizeErrorView,
    mode: ResolveMode,
)
    requires
        solid(raw),
        id.number == Some(raw),
        normalized(raw, region) == Err::<Seq<char>, NormalizeErrorView>(e),
    ensures
        resolution(t, region, id, mode) == Err::<ResolvedView, ActionErrorView>(
            ActionErrorView::InvalidNumber(complaint(e)),
        ),
        resolution_here(t, region, id, mode) == resolution(t, region, id, mode),
{
    lemma_raw(raw);
}

/// A contact stands for itself and for its topic.
pub proof fn law_contact_stands_for_its_topic(
    t: Tables,
    region: Seq<char>,
    k: int,
    i: int,
    mode: ResolveMode,
)
    requires
        t.wf(),
        0 <= k < t.contacts.len(),
    ensures
        ({
            let id = IdentityView {
                number: None,
                contact_id: Some(t.contacts[k].id),
                thread_id: None,
            };
            let found = resolution(t, region, id, mode);
            &&& topic_of_at(t, t.contacts[k].id, i) ==> (found matches Ok(r) && is_row(
                t,
                k,
                r.contact,
            ) && r.topic == Some(t.topics[i].topic) && r.e164 is None)
            &&& topicless(t, t.contacts[k].id) && mode != ResolveMode::RequireTopic ==> (
            found matches Ok(r) && is_row(t, k, r.contact) && r.topic is None && r.e164 is None)
            &&& topicless(t, t.contacts[k].id) && mode == ResolveMode::RequireTopic ==> found
                == Err::<ResolvedView, ActionErrorView>(
                ActionErrorView::NotFound("unknown topic"@),
            )
        }),
{
    law_id_finds_its_contact(t, k, t.contacts[k].id);
    law_contact_finds_its_topic(t, t.contacts[k].id, i);
}

/// A contact and a thread stand for both where they belong together, and are
/// refused where the thread is that of another contact.
pub proof fn law_contact_and_thread_must_agree(
    t: Tables,
    region: Seq<char>,
    k: int,
    i: int,
    mode: ResolveMode,
)
    requires
        t.wf(),
        0 <= k < t.contacts.len(),
        0 <= i < t.topics.len(),
        t.topics[i].topic.thread_id != 1,
    ensures
        ({
            let id = IdentityView {
                number: None,
                contact_id: Some(t.contacts[k].id),
                thread_id: Some(t.topics[i].topic.thread_id),
            };
            let found = resolution(t, region, id, mode);
            &&& topic_of_at(t, t.contacts[k].id, i) ==> (found matches Ok(r) && is_row(
                t,
                k,
                r.contact,
            ) && r.topic == Some(t.topics[i].topic))
            &&& t.topics[i].topic.contact_id is Some && t.topics[i].topic.contact_id != Some(
                t.contacts[k].id,
            ) ==> found == Err::<ResolvedView, ActionErrorView>(ActionErrorView::IdentityConflict)
            &&& resolution_here(t, region, id, mode) == found
        }),
{
    law_id_finds_its_contact(t, k, t.contacts[k].id);
    law_contact_finds_its_topic(t, t.contacts[k].id, i);
    law_thread_finds_its_topic(t, i, 0);
    let id = IdentityView {
        number: None,
        contact_id: Some(t.contacts[k].id),
        thread_id: Some(t.topics[i].topic.thread_id),
    };
    let ids = contact_ids(t, id, None);
    if t.topics[i].topic.contact_id is Some && t.topics[i].topic.contact_id != Some(
        t.contacts[k].id,
    ) {
        assert(ids[0] == t.contacts[k].id);
        assert(ids[1] == t.topics[i].topic.contact_id->0);
        assert(!agree(ids));
    }
}

/// The three together: the number and the contact of a topic, and its thread.
pub proof fn law_whole_identity_stands_for_its_topic(
    t: Tables,
    region: Seq<char>,
    raw: Seq<char>,
    e164: Seq<char>,
    k: int,
    i: int,
    mode: ResolveMode,
)
    requires
        t.wf(),
        solid(raw),
        normalized(raw, region) == Ok::<Seq<char>, NormalizeErrorView>(e164),
        owner_at(t, e164, k),
        topic_of_at(t, t.contacts[k].id, i),
        nobodys_default(t, e164) || default_topic_at(t, e164, i),
        t.topics[i].topic.thread_id != 1,
    ensures
        ({
            let id = IdentityView {
                number: Some(raw),
                contact_id: Some(t.contacts[k].id),
                thread_id: Some(t.topics[i].topic.thread_id),
            };
            resolution(t, region, id, mode) matches Ok(r) && is_row(t, k, r.contact) && r.topic
                == Some(t.topics[i].topic) && r.e164 == Some(e164)
        }),
{
    lemma_raw(raw);
    law_number_finds_its_contact(t, e164, k);
    law_default_finds_its_topic(t, e164, i);
    law_id_finds_its_contact(t, k, t.contacts[k].id);
    law_contact_finds_its_topic(t, t.contacts[k].id, i);
    law_thread_finds_its_topic(t, i, 0);
}

/// A thread alone stands for its topic and for the contact of the topic.
pub proof fn law_thread_stands_for_its_topic(
    t: Tables,
    region: Seq<char>,
    i: int,
    k: int,
    thread_id: i32,
    mode: ResolveMode,
)
    requires
        t.wf(),
    ensures
        ({
            let id = IdentityView { number: None, contact_id: None, thread_id: Some(thread_id) };
            let found = resolution_here(t, region, id, mode);
            &&& 0 <= i < t.topics.len() && t.topics[i].topic.thread_id == thread_id ==> (
            found matches Ok(r) && r.topic == Some(t.topics[i].topic) && r.e164 is None && (0 <= k
                < t.contacts.len() && t.topics[i].topic.contact_id == Some(t.contacts[k].id)
                ==> is_row(t, k, r.contact)) && (t.topics[i].topic.contact_id is None
                ==> r.contact is None))
            &&& (forall|j: int|
                0 <= j < t.topics.len() ==> (#[trigger] t.topics[j]).topic.thread_id != thread_id)
                ==> found == Err::<ResolvedView, ActionErrorView>(
                ActionErrorView::NotFound("unknown topic"@),
            )
        }),
{
    law_thread_finds_its_topic(t, i, thread_id);
    if 0 <= k < t.contacts.len() {
        law_id_finds_its_contact(t, k, t.contacts[k].id);
    }
}

/// Where a topic is needed, a thread that is General or no topic is refused, whoever
/// is named with it.
pub proof fn law_needed_topic_must_be_one(
    t: Tables,
    region: Seq<char>,
    k: int,
    thread_id: i32,
)
    requires
        t.wf(),
        0 <= k < t.contacts.len(),
        thread_id == 1 || forall|j: int|
            0 <= j < t.topics.len() ==> (#[trigger] t.topics[j]).topic.thread_id != thread_id,
    ensures
        ({
            let id = IdentityView {
                number: None,
                contact_id: Some(t.contacts[k].id),
                thread_id: Some(thread_id),
            };
            resolution(t, region, id, ResolveMode::RequireTopic) == Err::<
                ResolvedView,
                ActionErrorView,
            >(ActionErrorView::NotFound("unknown topic"@))
        }),
{
    law_id_finds_its_contact(t, k, t.contacts[k].id);
    if thread_id != 1 {
        law_thread_finds_its_topic(t, -1, thread_id);
    }
}

/// Nothing stands for nothing, and a contact that is not stored for nobody.
pub proof fn law_nobody_is_refused(
    t: Tables,
    region: Seq<char>,
    id: IdentityView,
    unknown: i64,
    mode: ResolveMode,
)
    requires
        t.wf(),
        id.number is None,
        forall|j: int| 0 <= j < t.contacts.len() ==> (#[trigger] t.contacts[j]).id != unknown,
    ensures
        id.contact_id is None ==> resolution(t, region, id, mode) == Err::<
            ResolvedView,
            ActionErrorView,
        >(ActionErrorView::MissingIdentity),
        id.contact_id == Some(unknown) ==> resolution(t, region, id, mode) == Err::<
            ResolvedView,
            ActionErrorView,
        >(ActionErrorView::NotFound("unknown contact"@)),
{
    law_id_finds_its_contact(t, 0, unknown);
}

/// Whoever is found in a topic is told with the topic's thread and default number,
/// the contact's name or else the topic's title, and the contact's numbers or else
/// the default one.
pub proof fn law_found_topic_is_told(
    t: Tables,
    region: Seq<char>,
    id: IdentityView,
    r: ResolvedView,
    topic: TopicView,
)
    requires
        resolution(t, region, id, ResolveMode::RequireTopic) == Ok::<ResolvedView, ActionErrorView>(
            r,
        ),
        r.topic == Some(topic),
    ensures
        who_result(t, region, id) matches Ok(w) && numbers_result(t, region, id) matches Ok(n) && {
            &&& w.thread_id == topic.thread_id && n.thread_id == topic.thread_id
            &&& w.default_e164 == topic.default_e164 && n.default_e164 == topic.default_e164
            &&& w.numbers == n.numbers
            &&& r.contact matches Some(c) ==> {
                &&& w.display_name == c.display_name
                &&& w.contact_id == Some(c.id)
                &&& w.ambiguous == c.ambiguous
                &&& c.numbers.len() > 0 ==> w.numbers == c.numbers
            }
            &&& r.contact is None ==> w.display_name == topic.title && !w.ambiguous
            &&& r.contact is None && topic.default_e164 is Some ==> w.numbers
                == seq![topic.default_e164->0]
        },
{
}

/// Whoever was found without a topic is told of as not being in one.
pub proof fn law_found_without_topic_is_refused(r: ResolvedView)
    requires
        r.topic is None,
    ensures
        who_for(r) == Err::<WhoView, ActionErrorView>(ActionErrorView::NotFound("unknown topic"@)),
        state_for(r) == Err::<NumberStateView, ActionErrorView>(
            ActionErrorView::NotFound("unknown topic"@),
        ),
{
}

/// Whoever cannot be found is told as an error, the same to all who ask.
pub proof fn law_nobody_is_told_as_an_error(
    t: Tables,
    region: Seq<char>,
    id: IdentityView,
    number: Seq<char>,
    e: ActionErrorView,
)
    ensures
        resolution(t, region, id, ResolveMode::RequireTopic) == Err::<ResolvedView, ActionErrorView>(
            e,
        ) ==> who_result(t, region, id) == Err::<WhoView, ActionErrorView>(e) && numbers_result(
            t,
            region,
            id,
        ) == Err::<NumberStateView, ActionErrorView>(e),
        resolution_here(t, region, id, ResolveMode::RequireTopic) == Err::<
            ResolvedView,
            ActionErrorView,
        >(e) ==> choosing(t, region, id, number) == NumberStepView::End(Err(e)) && chose(
            t,
            region,
            id,
            number,
        ) == t,
        resolution_here(t, region, id, ResolveMode::AllowBareNumber) == Err::<
            ResolvedView,
            ActionErrorView,
        >(e) ==> ignoring(t, region, id) == IgnoreStepView::End(Err(e)) && ignored_after(
            t,
            region,
            id,
        ) == t,
{
}

} // verus!
