//! What the owner is told of a topic, and what choosing, ignoring, opening and
//! searching do, said of the stored rows.
use vstd::prelude::*;

use crate::actions::identity::{
    contact_ids, law_resolved_agrees, law_resolved_topic_is_there, named_contact, resolution,
    resolution_here, IdentityView, ResolveMode, ResolvedView,
};
use crate::actions::numbers::{
    all_ignored, choosing, chose, ignored_after, ignoring, listed, numbers_result, who_result,
    NumberStateView,
};
use crate::actions::open::{open_after, open_begun, open_next, OpenStepView, OpenedView};
use crate::actions::search::search_result;
use crate::actions::ActionErrorView;
use crate::app::effect::{EffectView, OutcomeView, StepView};
use crate::collate::{like, like_chars, read_text};
use crate::decimal::int_text;
use crate::laws::found::{
    law_contact_finds_its_topic, law_id_finds_its_contact, law_number_finds_its_contact,
    law_thread_finds_its_topic, owner_at, owns, topic_of_at, topicless,
};
use crate::laws::receiving::is_title;
use crate::laws::sending::asks;
use crate::laws::texts::{joined, law_trimming_keeps_the_core, law_what_follows_a_prefix, solid};
use crate::normalize::{normalized, NormalizeErrorView};
use crate::rows::{find, lemma_find};
use crate::tables::{
    contact_by_e164, named_like, numbers_of, ContactRowView, ContactView, Tables, TopicView,
};
use crate::telegram::handlers::who_said;
use crate::telegram::parse::{number_lines, open_message, who_text};
use crate::text::{begins, digits_of, holds, lower, lower_char};

verus! {

// ---------------------------------------------------------------------------
// Who
// ---------------------------------------------------------------------------

/// The lines that tell the numbers: each number alone, but for the default one,
/// which is marked.
pub open spec fn tells_numbers(
    lines: Seq<Seq<char>>,
    numbers: Seq<Seq<char>>,
    default: Option<Seq<char>>,
) -> bool {
    &&& lines.len() == numbers.len()
    &&& forall|i: int|
        0 <= i < numbers.len() ==> {
            &&& default == Some(numbers[i]) ==> #[trigger] lines[i] == numbers[i] + " (default)"@
            &&& default != Some(numbers[i]) ==> lines[i] == numbers[i]
        }
}

/// One piece more at the end.
pub proof fn lemma_joined_push(pieces: Seq<Seq<char>>, sep: char, last: Seq<char>)
    requires
        pieces.len() > 0,
    ensures
        joined(pieces.push(last), sep) == joined(pieces, sep) + seq![sep] + last,
    decreases pieces.len(),
{
    let all = pieces.push(last);
    assert(all.skip(1) =~= pieces.skip(1).push(last));
    if pieces.len() == 1 {
        assert(all.skip(1) =~= seq![last]);
        assert(joined(all.skip(1), sep) == last);
    } else {
        lemma_joined_push(pieces.skip(1), sep, last);
        assert(joined(all, sep) =~= joined(pieces, sep) + seq![sep] + last);
    }
}

proof fn lemma_number_lines(
    heading: Seq<char>,
    lines: Seq<Seq<char>>,
    numbers: Seq<Seq<char>>,
    default: Option<Seq<char>>,
)
    requires
        tells_numbers(lines, numbers, default),
    ensures
        heading + number_lines(default, numbers) == joined(seq![heading] + lines, '\n'),
    decreases numbers.len(),
{
    reveal_strlit("\n");
    if numbers.len() == 0 {
        assert(seq![heading] + lines =~= seq![heading]);
        assert(heading + number_lines(default, numbers) =~= heading);
    } else {
        let n = numbers.len() - 1;
        assert forall|i: int| 0 <= i < n implies {
            &&& default == Some(numbers.drop_last()[i]) ==> #[trigger] lines.drop_last()[i]
                == numbers.drop_last()[i] + " (default)"@
            &&& default != Some(numbers.drop_last()[i]) ==> lines.drop_last()[i]
                == numbers.drop_last()[i]
        } by {
            assert(lines.drop_last()[i] == lines[i]);
        }
        lemma_number_lines(heading, lines.drop_last(), numbers.drop_last(), default);
        assert(seq![heading] + lines =~= (seq![heading] + lines.drop_last()).push(lines.last()));
        lemma_joined_push(seq![heading] + lines.drop_last(), '\n', lines.last());
        assert(lines[n] == lines.last());
        assert("\n"@ =~= seq!['\n']);
        assert(heading + number_lines(default, numbers) =~= joined(seq![heading] + lines, '\n'));
    }
}

/// A topic is told line by line: the name, or the title where there is none, and
/// then every number on a line of its own, of which exactly the default one is
/// marked as such.
pub proof fn law_who_marks_the_default_only(
    topic: TopicView,
    name: Option<Seq<char>>,
    numbers: Seq<Seq<char>>,
    lines: Seq<Seq<char>>,
)
    requires
        tells_numbers(lines, numbers, topic.default_e164),
    ensures
        name is Some ==> who_text(topic, name, numbers) == joined(seq![name->0] + lines, '\n'),
        name is None ==> who_text(topic, name, numbers) == joined(seq![topic.title] + lines, '\n'),
{
    let heading = match name {
        Some(name) => name,
        None => topic.title,
    };
    lemma_number_lines(heading, lines, numbers, topic.default_e164);
}

/// The topic is stored in a thread other than General, for a stored contact.
pub open spec fn contact_topic(t: Tables, i: int, k: int) -> bool {
    &&& t.wf()
    &&& 0 <= i < t.topics.len()
    &&& t.topics[i].topic.thread_id != 1
    &&& 0 <= k < t.contacts.len()
    &&& t.topics[i].topic.contact_id == Some(t.contacts[k].id)
}

/// What a topic and its contact resolve to.
proof fn lemma_resolved(
    t: Tables,
    region: Seq<char>,
    id: IdentityView,
    mode: ResolveMode,
    i: int,
    k: int,
    r: ResolvedView,
)
    requires
        contact_topic(t, i, k),
        id.contact_id == Some(t.contacts[k].id),
        id.thread_id == Some(t.topics[i].topic.thread_id),
        resolution(t, region, id, mode) == Ok::<ResolvedView, ActionErrorView>(r),
    ensures
        r.topic == Some(t.topics[i].topic),
        r.contact is Some,
        r.contact->0.id == t.contacts[k].id,
        r.contact->0.display_name == t.contacts[k].display_name,
        r.contact->0.numbers == numbers_of(t, t.contacts[k].id),
{
    let e164 = match crate::text::nonblank(id.number) {
        Some(raw) => match normalized(raw, region) {
            Ok(e164) => Some(e164),
            Err(_) => None,
        },
        None => None,
    };
    law_resolved_agrees(t, id, e164, mode);
    law_resolved_topic_is_there(t, region, id, mode);
    law_thread_finds_its_topic(t, i, t.topics[i].topic.thread_id);
    law_id_finds_its_contact(t, k, t.contacts[k].id);
    assert(r.topic is Some) by {
        let c = named_contact(t, id, e164);
        assert(crate::actions::identity::topic_of_thread(t, id.thread_id) is Some);
    }
    if let Some(e) = e164 {
        if let Some(c) = contact_by_e164(t, e) {
            let p = crate::tables::holding(t, e);
            lemma_find(t.contacts, p);
            let m = find(t.contacts, p);
            if m < k {
                assert(t.contacts[m].id < t.contacts[k].id);
            } else if k < m {
                assert(t.contacts[k].id < t.contacts[m].id);
            }
        }
    }
}

/// What is told of the topic of a contact is the contact's name, its stored
/// numbers, or the default number where it has none, and the default number of
/// the topic.
pub proof fn law_who_is_the_stored_contact(
    t: Tables,
    region: Seq<char>,
    id: IdentityView,
    i: int,
    k: int,
)
    requires
        contact_topic(t, i, k),
        id.contact_id == Some(t.contacts[k].id),
        id.thread_id == Some(t.topics[i].topic.thread_id),
    ensures
        ({
            let stored = numbers_of(t, t.contacts[k].id);
            let default = t.topics[i].topic.default_e164;
            &&& who_result(t, region, id) matches Ok(w) ==> {
                &&& w.thread_id == t.topics[i].topic.thread_id
                &&& w.contact_id == Some(t.contacts[k].id)
                &&& w.display_name == t.contacts[k].display_name
                &&& w.default_e164 == default
                &&& stored.len() > 0 ==> w.numbers == stored
                &&& stored.len() == 0 && default is Some ==> w.numbers == seq![default->0]
                &&& stored.len() == 0 && default is None ==> w.numbers.len() == 0
            }
            &&& numbers_result(t, region, id) matches Ok(s) ==> {
                &&& s.thread_id == t.topics[i].topic.thread_id
                &&& s.default_e164 == default
                &&& stored.len() > 0 ==> s.numbers == stored
                &&& stored.len() == 0 && default is Some ==> s.numbers == seq![default->0]
                &&& stored.len() == 0 && default is None ==> s.numbers.len() == 0
            }
        }),
{
    if let Ok(r) = resolution(t, region, id, ResolveMode::RequireTopic) {
        lemma_resolved(t, region, id, ResolveMode::RequireTopic, i, k, r);
    }
}

/// The command tells the topic that it is given in, and in that topic. In General
/// it says so, and in a thread that is no topic it says that.
pub proof fn law_who_tells_the_topic(
    t: Tables,
    region: Seq<char>,
    i: int,
    k: int,
    lines: Seq<Seq<char>>,
    thread_id: i32,
)
    requires
        contact_topic(t, i, k),
        tells_numbers(
            lines,
            numbers_of(t, t.contacts[k].id),
            t.topics[i].topic.default_e164,
        ),
        numbers_of(t, t.contacts[k].id).len() > 0,
    ensures
        who_said(t, region, 1) == StepView::<(), Result<(), crate::app::AppErrorView>>::Do(
            EffectView::Post { thread_id: 1, text: "this is General"@ },
            (),
        ),
        ({
            let said = who_said(t, region, t.topics[i].topic.thread_id);
            let text = joined(seq![t.contacts[k].display_name] + lines, '\n');
            let id = IdentityView {
                number: t.topics[i].topic.default_e164,
                contact_id: t.topics[i].topic.contact_id,
                thread_id: Some(t.topics[i].topic.thread_id),
            };
            who_result(t, region, id) matches Ok(w) ==> {
                &&& !w.ambiguous ==> asks(
                    said,
                    EffectView::Post { thread_id: t.topics[i].topic.thread_id, text },
                )
                &&& w.ambiguous ==> asks(
                    said,
                    EffectView::Post {
                        thread_id: t.topics[i].topic.thread_id,
                        text: text + "\n(also on another contact)"@,
                    },
                )
            }
        }),
        thread_id != 1 && (forall|j: int|
            0 <= j < t.topics.len() ==> (#[trigger] t.topics[j]).topic.thread_id != thread_id)
            ==> asks(
            who_said(t, region, thread_id),
            EffectView::Post { thread_id, text: "unknown topic"@ },
        ),
{
    law_thread_finds_its_topic(t, i, thread_id);
    let id = IdentityView {
        number: t.topics[i].topic.default_e164,
        contact_id: t.topics[i].topic.contact_id,
        thread_id: Some(t.topics[i].topic.thread_id),
    };
    law_who_is_the_stored_contact(t, region, id, i, k);
    if let Ok(w) = who_result(t, region, id) {
        let topic = TopicView {
            thread_id: w.thread_id,
            contact_id: w.contact_id,
            default_e164: w.default_e164,
            title: w.display_name,
            ignored: false,
        };
        law_who_marks_the_default_only(topic, Some(w.display_name), w.numbers, lines);
    }
}

/// A contact is told to be one of several exactly when the default number of its
/// topic is stored for another contact too.
pub proof fn law_shared_number_is_told(
    t: Tables,
    region: Seq<char>,
    id: IdentityView,
    i: int,
    k: int,
    raw: Seq<char>,
    e164: Seq<char>,
)
    requires
        contact_topic(t, i, k),
        id.contact_id == Some(t.contacts[k].id),
        id.thread_id == Some(t.topics[i].topic.thread_id),
        id.number == Some(raw),
        solid(raw),
        normalized(raw, region) == Ok::<Seq<char>, NormalizeErrorView>(e164),
        owner_at(t, e164, k),
    ensures
        who_result(t, region, id) matches Ok(w) ==> (w.ambiguous <==> exists|m: int|
            k < m < t.contacts.len() && owns(t, (#[trigger] t.contacts[m]).id, e164)),
{
    let none = Seq::<char>::empty();
    assert(none + raw + none =~= raw);
    law_trimming_keeps_the_core(none, raw, none);
    law_number_finds_its_contact(t, e164, k);
}

// ---------------------------------------------------------------------------
// Choosing a number
// ---------------------------------------------------------------------------

/// Choosing one of the stored numbers of the contact makes it the default one of
/// the topic, and of no other topic, and says so there. A number that is not
/// stored for the contact is refused, and changes nothing.
pub proof fn law_choice_sets_the_default(
    t: Tables,
    region: Seq<char>,
    i: int,
    k: int,
    number: Seq<char>,
    e164: Seq<char>,
)
    requires
        contact_topic(t, i, k),
        normalized(number, region) == Ok::<Seq<char>, NormalizeErrorView>(e164),
        numbers_of(t, t.contacts[k].id).len() > 0,
    ensures
        ({
            let id = IdentityView {
                number: None,
                contact_id: Some(t.contacts[k].id),
                thread_id: Some(t.topics[i].topic.thread_id),
            };
            let begun = choosing(t, region, id, number);
            let after = chose(t, region, id, number);
            resolution_here(t, region, id, ResolveMode::RequireTopic) is Ok ==> {
                &&& owns(t, t.contacts[k].id, e164) ==> {
                    &&& asks(
                        begun,
                        EffectView::Post {
                            thread_id: t.topics[i].topic.thread_id,
                            text: "default is "@ + e164,
                        },
                    )
                    &&& begun->Do_1.default_e164 == Some(e164)
                    &&& begun->Do_1.thread_id == t.topics[i].topic.thread_id
                    &&& begun->Do_1.numbers == numbers_of(t, t.contacts[k].id)
                    &&& after.topics.len() == t.topics.len()
                    &&& after.topics[i].topic == (TopicView {
                        default_e164: Some(e164),
                        ..t.topics[i].topic
                    })
                    &&& after.topics[i].pending_outbound == t.topics[i].pending_outbound
                    &&& forall|j: int|
                        0 <= j < t.topics.len() && j != i ==> #[trigger] after.topics[j]
                            == t.topics[j]
                    &&& after.contacts == t.contacts && after.numbers == t.numbers && after.ignored
                        == t.ignored && after.inbound == t.inbound && after.outbound == t.outbound
                }
                &&& !owns(t, t.contacts[k].id, e164) ==> begun == StepView::<
                    NumberStateView,
                    Result<NumberStateView, ActionErrorView>,
                >::End(Err(ActionErrorView::Validation("not a number of this topic"@))) && after
                    == t
            }
        }),
{
    let id = IdentityView {
        number: None,
        contact_id: Some(t.contacts[k].id),
        thread_id: Some(t.topics[i].topic.thread_id),
    };
    crate::laws::found::law_numbers_are_the_stored_ones(t, t.contacts[k].id, e164);
    if let Ok(r) = resolution_here(t, region, id, ResolveMode::RequireTopic) {
        lemma_resolved(t, region, id, ResolveMode::RequireTopic, i, k, r);
        let after = chose(t, region, id, number);
        assert forall|j: int|
            0 <= j < t.topics.len() && j != i && owns(t, t.contacts[k].id, e164) implies #[trigger] after.topics[j]
            == t.topics[j] by {
            if j < i {
                assert(t.topics[j].topic.thread_id < t.topics[i].topic.thread_id);
            } else {
                assert(t.topics[i].topic.thread_id < t.topics[j].topic.thread_id);
            }
        }
    }
}

// ---------------------------------------------------------------------------
// Ignoring
// ---------------------------------------------------------------------------

/// Exactly the given numbers are ignored from then on, besides those that were,
/// and nothing else changes.
pub proof fn law_only_the_given_are_ignored(t: Tables, numbers: Seq<Seq<char>>, e164: Seq<char>)
    ensures
        all_ignored(t, numbers).ignored.contains(e164) <==> t.ignored.contains(e164)
            || numbers.contains(e164),
        all_ignored(t, numbers) == (Tables { ignored: all_ignored(t, numbers).ignored, ..t }),
    decreases numbers.len(),
{
    if numbers.len() > 0 {
        let front = numbers.drop_last();
        law_only_the_given_are_ignored(t, front, e164);
        law_only_the_given_are_ignored(t, front, numbers.last());
        let before = all_ignored(t, front).ignored;
        let after = all_ignored(t, numbers).ignored;
        if front.contains(e164) {
            let j = front.index_of(e164);
            assert(numbers[j] == e164);
        }
        if before.contains(e164) {
            let j = before.index_of(e164);
            assert(after[j] == e164);
        }
        if numbers.last() == e164 {
            assert(numbers[numbers.len() - 1] == e164);
            if !before.contains(e164) {
                assert(after[before.len() as int] == e164);
            }
        }
        if numbers.contains(e164) {
            let j = numbers.index_of(e164);
            if j < front.len() {
                assert(front[j] == e164);
            }
        }
        if after.contains(e164) {
            let j = after.index_of(e164);
            if j < before.len() {
                assert(before[j] == e164);
            }
        }
    }
}

/// The numbers are told one after another, with a comma between two.
pub proof fn law_numbers_are_told_in_a_row(numbers: Seq<Seq<char>>, e164: Seq<char>)
    ensures
        listed(seq![e164]) == e164,
        numbers.len() > 0 ==> listed(numbers.push(e164)) == listed(numbers) + ", "@ + e164,
{
    assert(numbers.push(e164).drop_last() =~= numbers);
}

/// Ignoring the topic of a contact ignores all of the contact's stored numbers,
/// and says so in the topic.
pub proof fn law_topic_is_ignored_whole(t: Tables, region: Seq<char>, i: int, k: int)
    requires
        contact_topic(t, i, k),
        numbers_of(t, t.contacts[k].id).len() > 0,
    ensures
        ({
            let id = IdentityView {
                number: None,
                contact_id: Some(t.contacts[k].id),
                thread_id: Some(t.topics[i].topic.thread_id),
            };
            let numbers = numbers_of(t, t.contacts[k].id);
            resolution_here(t, region, id, ResolveMode::AllowBareNumber) is Ok ==> {
                &&& asks(
                    ignoring(t, region, id),
                    EffectView::Post {
                        thread_id: t.topics[i].topic.thread_id,
                        text: "ignored "@ + listed(numbers),
                    },
                )
                &&& ignoring(t, region, id)->Do_1 == numbers
                &&& ignored_after(t, region, id) == all_ignored(t, numbers)
            }
        }),
{
    let id = IdentityView {
        number: None,
        contact_id: Some(t.contacts[k].id),
        thread_id: Some(t.topics[i].topic.thread_id),
    };
    if let Ok(r) = resolution_here(t, region, id, ResolveMode::AllowBareNumber) {
        lemma_resolved(t, region, id, ResolveMode::AllowBareNumber, i, k, r);
    }
}

/// Ignoring a number ignores that number alone.
pub proof fn law_number_is_ignored_alone(
    t: Tables,
    region: Seq<char>,
    raw: Seq<char>,
    e164: Seq<char>,
    other: Seq<char>,
)
    requires
        solid(raw),
        normalized(raw, region) == Ok::<Seq<char>, NormalizeErrorView>(e164),
    ensures
        ({
            let id = IdentityView { number: Some(raw), contact_id: None, thread_id: None };
            let after = ignored_after(t, region, id);
            resolution(t, region, id, ResolveMode::AllowBareNumber) is Ok ==> {
                &&& after.ignored.contains(e164)
                &&& other != e164 ==> after.ignored.contains(other) == t.ignored.contains(other)
                &&& !(ignoring(t, region, id) matches StepView::End(Err(_)))
            }
        }),
{
    let none = Seq::<char>::empty();
    assert(none + raw + none =~= raw);
    law_trimming_keeps_the_core(none, raw, none);
    law_only_the_given_are_ignored(t, seq![e164], e164);
    law_only_the_given_are_ignored(t, seq![e164], other);
    assert(seq![e164][0] == e164);
}

// ---------------------------------------------------------------------------
// Opening
// ---------------------------------------------------------------------------

/// Opening a contact that has a topic gives that topic, and creates none.
pub proof fn law_open_gives_the_topic(
    t: Tables,
    region: Seq<char>,
    id: IdentityView,
    k: int,
    i: int,
)
    requires
        t.wf(),
        0 <= k < t.contacts.len(),
        id.number is None,
        id.contact_id == Some(t.contacts[k].id),
        topic_of_at(t, t.contacts[k].id, i),
    ensures
        open_begun(t, region, id) == OpenStepView::End(
            Ok(
                OpenedView {
                    contact_id: Some(t.contacts[k].id),
                    thread_id: t.topics[i].topic.thread_id,
                    title: t.topics[i].topic.title,
                    created: false,
                },
            ),
        ),
{
    law_id_finds_its_contact(t, k, t.contacts[k].id);
    law_contact_finds_its_topic(t, t.contacts[k].id, i);
    let bare = IdentityView { thread_id: None, ..id };
    assert(contact_ids(t, bare, None) =~= seq![t.contacts[k].id, t.contacts[k].id]);
    assert(crate::actions::identity::topic_ids(t, bare, None) =~= seq![
        t.topics[i].topic.thread_id,
    ]);
}

/// Opening a contact without a topic creates one: under the contact's name and
/// only number, which becomes its default one, or under the name alone where the
/// contact has no number or several. The topic is stored for the contact.
pub proof fn law_open_creates_the_topic(
    t: Tables,
    region: Seq<char>,
    id: IdentityView,
    k: int,
    thread_id: i32,
)
    requires
        t.wf(),
        0 <= k < t.contacts.len(),
        id.number is None,
        id.contact_id == Some(t.contacts[k].id),
        topicless(t, t.contacts[k].id),
    ensures
        ({
            let numbers = numbers_of(t, t.contacts[k].id);
            &&& open_begun(t, region, id) matches StepView::Do(effect, o)
            &&& effect matches EffectView::CreateTopic { title }
            &&& {
                let after = open_after(t, o, OutcomeView::Created(thread_id));
                &&& numbers.len() == 1 ==> is_title(
                    title,
                    t.contacts[k].display_name,
                    numbers[0],
                )
                &&& numbers.len() != 1 ==> title == t.contacts[k].display_name
                &&& open_next(t, o, OutcomeView::Created(thread_id)) == OpenStepView::End(
                    Ok(
                        OpenedView {
                            contact_id: Some(t.contacts[k].id),
                            thread_id,
                            title,
                            created: true,
                        },
                    ),
                )
                &&& exists|m: int|
                    0 <= m < after.topics.len() && (#[trigger] after.topics[m]).topic
                        == (TopicView {
                        thread_id,
                        contact_id: Some(t.contacts[k].id),
                        default_e164: if numbers.len() == 1 {
                            Some(numbers[0])
                        } else {
                            None
                        },
                        title,
                        ignored: false,
                    })
            }
        }),
{
    law_id_finds_its_contact(t, k, t.contacts[k].id);
    law_contact_finds_its_topic(t, t.contacts[k].id, 0);
    let bare = IdentityView { thread_id: None, ..id };
    assert(contact_ids(t, bare, None) =~= seq![t.contacts[k].id]);
    assert(crate::actions::identity::topic_ids(t, bare, None) =~= Seq::<i32>::empty());
    let numbers = numbers_of(t, t.contacts[k].id);
    let begun = open_begun(t, region, id);
    if numbers.len() == 1 {
        let d = digits_of(numbers[0]);
        let tail = if d.len() >= 4 {
            d.skip(d.len() - 4)
        } else {
            d
        };
        assert(d.skip(0) =~= d);
        assert(begun->Do_0->title == (t.contacts[k].display_name + " ("@ + tail) + ")"@);
    }
    assert(crate::tables::known_contact(t.contacts, t.contacts[k].id));
    let after = open_after(t, begun->Do_1, OutcomeView::Created(thread_id));
    let m = find(t.topics, crate::tables::from_thread_on(thread_id));
    lemma_find(t.topics, crate::tables::from_thread_on(thread_id));
    assert(after.topics[m].topic.thread_id == thread_id);
}

/// The way to a topic is a link with the number of the group and the thread, for
/// a group whose number Telegram prefixes; otherwise its title is told.
pub proof fn law_open_message_links_the_thread(group_id: i64, topic: TopicView, inner: Seq<char>)
    ensures
        inner.len() > 0 && int_text(group_id as int) == "-100"@ + inner ==> open_message(
            group_id,
            topic,
        ) == "open topic\nhttps://t.me/c/"@ + inner + "/"@ + int_text(topic.thread_id as int),
        !begins(int_text(group_id as int), "-100"@) ==> open_message(group_id, topic)
            == "topic exists: "@ + topic.title,
{
    law_what_follows_a_prefix("-100"@, inner, int_text(group_id as int));
}

// ---------------------------------------------------------------------------
// Searching
// ---------------------------------------------------------------------------

/// The name holds the query somewhere.
pub open spec fn found_by(query: Seq<char>) -> spec_fn(ContactRowView) -> bool {
    |c: ContactRowView| like("%"@ + query + "%"@, c.display_name)
}

/// A search gives the first twenty of the contacts whose names match, in the
/// order in which they are stored, each with its name, resource and numbers.
pub proof fn law_search_gives_the_first_matches(t: Tables, query: Seq<char>, i: int)
    requires
        solid(query),
    ensures
        search_result(t, query) matches Ok(hits) ==> {
            let all = t.contacts.filter(found_by(query));
            &&& t.contacts_available
            &&& all.len() <= 20 ==> hits.len() == all.len()
            &&& all.len() > 20 ==> hits.len() == 20
            &&& 0 <= i < hits.len() ==> hits[i].id == all[i].id && hits[i].display_name
                == all[i].display_name && hits[i].google_resource == all[i].google_resource
                && hits[i].numbers == numbers_of(t, all[i].id)
        },
        !t.contacts_available ==> search_result(t, query) == Err::<
            Seq<ContactView>,
            ActionErrorView,
        >(ActionErrorView::ContactsUnavailable),
        t.contacts_available && (t.contacts.len() == 0 || vstd::utf8::encode_utf8(
            "%"@ + query + "%"@,
        ).len() <= 50000) ==> search_result(t, query) is Ok,
{
    let none = Seq::<char>::empty();
    assert(none + query + none =~= query);
    law_trimming_keeps_the_core(none, query, none);
    assert(found_by(query) =~= named_like(query));
}

/// Nothing that a pattern takes for anything but itself.
pub open spec fn plain(s: Seq<char>) -> bool {
    forall|i: int|
        0 <= i < s.len() ==> {
            &&& (#[trigger] s[i]) != '%'
            &&& s[i] != '_'
            &&& s[i] != '\0'
            &&& s[i] != '\u{FFFE}'
            &&& s[i] != '\u{FFFF}'
        }
}

/// Nothing that a text is not compared by.
pub open spec fn comparable(s: Seq<char>) -> bool {
    forall|i: int|
        0 <= i < s.len() ==> {
            &&& (#[trigger] s[i]) != '\0'
            &&& s[i] != '\u{FFFE}'
            &&& s[i] != '\u{FFFF}'
        }
}

proof fn lemma_read_as_is(s: Seq<char>)
    requires
        comparable(s),
    ensures
        read_text(s) == s,
    decreases s.len(),
{
    if s.len() > 0 {
        assert(s[0] != '\0');
        assert forall|i: int| 0 <= i < s.skip(1).len() implies {
            &&& (#[trigger] s.skip(1)[i]) != '\0'
            &&& s.skip(1)[i] != '\u{FFFE}'
            &&& s.skip(1)[i] != '\u{FFFF}'
        } by {
            assert(s.skip(1)[i] == s[i + 1]);
        }
        lemma_read_as_is(s.skip(1));
        assert(seq![s[0]] + s.skip(1) =~= s);
    } else {
        assert(s =~= Seq::empty());
    }
}

/// A pattern that ends in a percent sign matches what begins with the rest.
proof fn lemma_like_prefix(q: Seq<char>, s: Seq<char>)
    requires
        plain(q),
    ensures
        like_chars(q + seq!['%'], s) <==> begins(lower(s), lower(q)),
    decreases q.len(), s.len(),
{
    let p = q + seq!['%'];
    if q.len() == 0 {
        assert(p =~= seq!['%']);
        assert(p.skip(1) =~= Seq::<char>::empty());
        assert(lower(s).take(0) =~= lower(q));
        reveal_with_fuel(like_chars, 2);
        if s.len() > 0 {
            lemma_like_prefix(q, s.skip(1));
            assert(lower(s.skip(1)).take(0) =~= lower(q));
        }
        assert(like_chars(p, s));
    } else {
        assert(p[0] == q[0]);
        assert(p.skip(1) =~= q.skip(1) + seq!['%']);
        assert forall|i: int| 0 <= i < q.skip(1).len() implies {
            &&& (#[trigger] q.skip(1)[i]) != '%'
            &&& q.skip(1)[i] != '_'
            &&& q.skip(1)[i] != '\0'
            &&& q.skip(1)[i] != '\u{FFFE}'
            &&& q.skip(1)[i] != '\u{FFFF}'
        } by {
            assert(q.skip(1)[i] == q[i + 1]);
        }
        if s.len() > 0 {
            lemma_like_prefix(q.skip(1), s.skip(1));
            let n = q.len() as int;
            assert(lower(s)[0] == lower_char(s[0]) && lower(q)[0] == lower_char(q[0]));
            assert(like_chars(p, s) == (lower_char(q[0]) == lower_char(s[0]) && like_chars(
                p.skip(1),
                s.skip(1),
            )));
            if begins(lower(s), lower(q)) {
                assert(lower(s).take(n)[0] == lower(q)[0]);
                assert(lower(s.skip(1)).take(n - 1) =~= lower(q.skip(1))) by {
                    assert forall|i: int| 0 <= i < n - 1 implies lower(s.skip(1))[i] == lower(
                        q.skip(1),
                    )[i] by {
                        assert(lower(s).take(n)[i + 1] == lower(q)[i + 1]);
                    }
                }
            }
            if lower_char(q[0]) == lower_char(s[0]) && begins(lower(s.skip(1)), lower(q.skip(1))) {
                assert(lower(s).take(n) =~= lower(q)) by {
                    assert forall|i: int| 0 <= i < n implies lower(s)[i] == lower(q)[i] by {
                        if i > 0 {
                            assert(lower(s.skip(1)).take(n - 1)[i - 1] == lower(q.skip(1))[i - 1]);
                        }
                    }
                }
            }
        }
    }
}

/// A pattern between two percent signs matches what holds it.
proof fn lemma_like_inside(q: Seq<char>, s: Seq<char>)
    requires
        plain(q),
    ensures
        like_chars(seq!['%'] + q + seq!['%'], s) <==> holds(lower(s), lower(q)),
    decreases s.len(),
{
    let p = seq!['%'] + q + seq!['%'];
    assert(p.skip(1) =~= q + seq!['%']);
    lemma_like_prefix(q, s);
    let n = q.len() as int;
    if begins(lower(s), lower(q)) {
        assert(lower(s).subrange(0, 0 + n) =~= lower(s).take(n));
        assert(lower(s).subrange(0int, 0int + lower(q).len()) == lower(q));
    }
    if s.len() > 0 {
        lemma_like_inside(q, s.skip(1));
        if holds(lower(s.skip(1)), lower(q)) {
            let i = choose|i: int|
                0 <= i && i + lower(q).len() <= lower(s.skip(1)).len() && #[trigger] lower(
                    s.skip(1),
                ).subrange(i, i + lower(q).len()) == lower(q);
            assert(lower(s).subrange(i + 1, i + 1 + lower(q).len()) =~= lower(s.skip(1)).subrange(
                i,
                i + lower(q).len(),
            ));
        }
        if holds(lower(s), lower(q)) && !begins(lower(s), lower(q)) {
            let i = choose|i: int|
                0 <= i && i + lower(q).len() <= lower(s).len() && #[trigger] lower(s).subrange(
                    i,
                    i + lower(q).len(),
                ) == lower(q);
            if i == 0 {
                assert(lower(s).take(n) =~= lower(s).subrange(0, 0 + n));
            }
            assert(lower(s.skip(1)).subrange(i - 1, i - 1 + lower(q).len()) =~= lower(s).subrange(
                i,
                i + lower(q).len(),
            ));
        }
    } else if holds(lower(s), lower(q)) {
        let i = choose|i: int|
            0 <= i && i + lower(q).len() <= lower(s).len() && #[trigger] lower(s).subrange(
                i,
                i + lower(q).len(),
            ) == lower(q);
        assert(lower(s).take(n) =~= lower(q));
    }
}

/// A query of plain characters finds exactly the names that hold it, with no
/// regard to the case of ASCII letters.
pub proof fn law_plain_query_finds_what_holds_it(query: Seq<char>, c: ContactRowView)
    requires
        plain(query),
        comparable(c.display_name),
    ensures
        found_by(query)(c) <==> holds(lower(c.display_name), lower(query)),
{
    reveal_strlit("%");
    let pattern = "%"@ + query + "%"@;
    assert("%"@ =~= seq!['%']);
    assert(pattern =~= seq!['%'] + query + seq!['%']);
    assert(comparable(pattern)) by {
        assert forall|i: int| 0 <= i < pattern.len() implies {
            &&& (#[trigger] pattern[i]) != '\0'
            &&& pattern[i] != '\u{FFFE}'
            &&& pattern[i] != '\u{FFFF}'
        } by {
            if 0 < i < pattern.len() - 1 {
                assert(pattern[i] == query[i - 1]);
            }
        }
    }
    lemma_read_as_is(pattern);
    lemma_read_as_is(c.display_name);
    lemma_like_inside(query, c.display_name);
}

} // verus!
