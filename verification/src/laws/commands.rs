//! What the owner's words and taps are taken for, and what is asked then.
use vstd::prelude::*;

use crate::actions::identity::IdentityView;
use crate::actions::numbers::{NumberStateView, NumberStepView};
use crate::actions::open::OpenedView;
use crate::actions::ActionErrorView;
use crate::app::effect::{EffectView, OutcomeView, StepView};
use crate::app::AppErrorView;
use crate::decimal::{int_text, law_parsed_int_text};
use crate::laws::found::law_thread_finds_its_topic;
use crate::laws::sending::asks;
use crate::laws::texts::{
    blank, law_cut_at_space, law_first_word, law_trimming_keeps_the_core, law_what_follows_a_prefix,
    solid, spaceless,
};
use crate::rows::lemma_find_is;
use crate::tables::{ContactView, Tables};
use crate::telegram::handlers::{
    command_of, dm_answer, ignore_cmd_step, ignore_identity, num_begun, numbers_said, open_cmd_next,
    open_cmd_step, search_said, tapped, IgnoreCmdStepView, IgnoreFlowView, NumFlowView, NumStepView,
    OpenCmdStepView, OpenFlowView, OwnerCommandView, SayStepView, TapView,
};
use crate::telegram::parse::{
    argument, cmd_name, ignore_reply, num_callback, open_callback, open_message, sms_cmd,
    CfActionView,
};
use crate::text::{after_prefix, begins, equal_to, is_space, split, trimmed};

verus! {

// ---------------------------------------------------------------------------
// Reading
// ---------------------------------------------------------------------------

/// What may follow the name of a command: nothing, or the name of a bot.
pub open spec fn mentions(s: Seq<char>) -> bool {
    s.len() == 0 || (s[0] == '@' && spaceless(s))
}

/// A name of a command.
pub open spec fn is_name(s: Seq<char>) -> bool {
    s.len() > 0 && spaceless(s) && !s.contains('@')
}

proof fn lemma_before_at(name: Seq<char>, mention: Seq<char>)
    requires
        is_name(name),
        mentions(mention),
    ensures
        split(name + mention, '@')[0] == name,
{
    let token = name + mention;
    let p = equal_to('@');
    assert forall|j: int| 0 <= j < name.len() implies !p(#[trigger] token[j]) by {
        assert(token[j] == name[j]);
        assert(name.contains(name[j]));
    }
    if mention.len() > 0 {
        assert(token[name.len() as int] == mention[0]);
    }
    lemma_find_is(token, p, name.len() as int);
    assert(token.take(name.len() as int) =~= name);
    if mention.len() == 0 {
        assert(token =~= name);
    }
}

/// A command is called by its name, behind a stroke, whatever bot it is meant for
/// and whatever follows it.
pub proof fn law_command_is_called_by_name(name: Seq<char>, mention: Seq<char>, rest: Seq<char>)
    requires
        is_name(name),
        mentions(mention),
        rest.len() > 0 ==> is_space(rest[0]),
    ensures
        cmd_name("/"@ + name + mention + rest) == Some(name),
{
    let text = "/"@ + name + mention + rest;
    let token = name + mention;
    assert(text =~= "/"@ + (token + rest));
    law_what_follows_a_prefix("/"@, token + rest, text);
    let none = Seq::<char>::empty();
    assert(spaceless(token)) by {
        assert forall|j: int| 0 <= j < token.len() implies !is_space(#[trigger] token[j]) by {
            if j < name.len() {
                assert(token[j] == name[j]);
            } else {
                assert(token[j] == mention[j - name.len()]);
            }
        }
    }
    law_first_word(none, token, rest);
    assert(none + token + rest =~= token + rest);
    lemma_before_at(name, mention);
}

/// A text that does not begin with a stroke is no command: in a topic it is for
/// the contact, and in General it is nothing.
pub proof fn law_plain_text_is_no_command(text: Seq<char>, thread_id: i32)
    requires
        !begins(text, "/"@),
    ensures
        cmd_name(text) is None,
        thread_id == 1 ==> command_of(text, thread_id) == OwnerCommandView::Nothing,
        thread_id != 1 ==> command_of(text, thread_id) == OwnerCommandView::Text,
{
    reveal_strlit("/");
    reveal_strlit("/sms");
    if begins(text, "/sms"@) {
        assert(text.take(4)[0] == text[0]);
        assert(text.take(1) =~= "/"@);
    }
}

/// What stands behind a command is its argument, without the white space around
/// it and without the bot.
pub proof fn law_argument_is_what_follows(
    cmd: Seq<char>,
    mention: Seq<char>,
    gap: Seq<char>,
    arg: Seq<char>,
    tail: Seq<char>,
)
    requires
        mentions(mention),
        blank(gap) && gap.len() > 0,
        solid(arg),
        blank(tail),
    ensures
        argument(cmd + mention + gap + arg + tail, cmd) == Some(arg),
{
    let text = cmd + mention + gap + arg + tail;
    let rest = mention + gap + arg + tail;
    assert(text =~= cmd + rest);
    law_what_follows_a_prefix(cmd, rest, text);
    reveal_strlit("@");
    assert(is_space(gap[0]));
    if mention.len() == 0 {
        assert(rest =~= gap + arg + tail);
        assert(rest[0] == gap[0]);
        assert(!begins(rest, "@"@)) by {
            if begins(rest, "@"@) {
                assert(rest.take(1)[0] == "@"@[0]);
            }
        }
        law_trimming_keeps_the_core(gap, arg, tail);
    } else {
        let bot = mention.skip(1);
        let more = gap.skip(1) + arg + tail;
        assert(mention =~= "@"@ + bot);
        assert(rest =~= "@"@ + (bot + seq![gap[0]] + more));
        law_what_follows_a_prefix("@"@, bot + seq![gap[0]] + more, rest);
        assert forall|j: int| 0 <= j < bot.len() implies !is_space(#[trigger] bot[j]) by {
            assert(bot[j] == mention[j + 1]);
        }
        law_cut_at_space(bot, gap[0], more);
        assert forall|j: int| 0 <= j < gap.skip(1).len() implies is_space(
            #[trigger] gap.skip(1)[j],
        ) by {
            assert(gap.skip(1)[j] == gap[j + 1]);
        }
        law_trimming_keeps_the_core(gap.skip(1), arg, tail);
    }
}

/// A text that does not begin as the command does has no argument of it.
proof fn lemma_not_sms(text: Seq<char>)
    requires
        text.len() < 4 || text[0] != '/' || text[1] != 's' || text[2] != 'm' || text[3] != 's',
    ensures
        sms_cmd(text) is None,
{
    reveal_strlit("/sms");
    if begins(text, "/sms"@) {
        assert(text.take(4)[0] == text[0]);
        assert(text.take(4)[1] == text[1]);
        assert(text.take(4)[2] == text[2]);
        assert(text.take(4)[3] == text[3]);
    }
}

/// Every command is known by its name, in every topic.
pub proof fn law_commands_are_known_by_name(
    name: Seq<char>,
    mention: Seq<char>,
    rest: Seq<char>,
    thread_id: i32,
)
    requires
        mentions(mention),
        rest.len() > 0 ==> is_space(rest[0]),
    ensures
        ({
            let text = "/"@ + name + mention + rest;
            &&& name == "help"@ ==> command_of(text, thread_id) == OwnerCommandView::Help
            &&& name == "who"@ ==> command_of(text, thread_id) == OwnerCommandView::Who
            &&& name == "number"@ ==> command_of(text, thread_id) == OwnerCommandView::Number
            &&& name == "ignore"@ ==> command_of(text, thread_id) == OwnerCommandView::Ignore
            &&& name == "forward"@ ==> command_of(text, thread_id) == OwnerCommandView::Forward
            &&& name == "status"@ ==> command_of(text, thread_id) == OwnerCommandView::Status
        }),
{
    let text = "/"@ + name + mention + rest;
    reveal_strlit("/");
    reveal_strlit("help");
    reveal_strlit("who");
    reveal_strlit("number");
    reveal_strlit("ignore");
    reveal_strlit("forward");
    reveal_strlit("status");
    reveal_strlit("search");
    reveal_strlit("open");
    if name == "help"@ || name == "who"@ || name == "number"@ || name == "ignore"@ || name
        == "forward"@ || name == "status"@ {
        assert(is_name(name)) by {
            assert forall|j: int| 0 <= j < name.len() implies !is_space(#[trigger] name[j])
                && name[j] != '@' by {}
        }
        law_command_is_called_by_name(name, mention, rest);
        assert(text[1] == name[0] && text[2] == name[1]);
        lemma_not_sms(text);
        lemma_names_differ(name);
    }
}

proof fn lemma_names_differ(name: Seq<char>)
    ensures
        name == "who"@ ==> name != "help"@,
        name == "number"@ ==> name != "help"@ && name != "who"@,
        name == "ignore"@ ==> name != "help"@ && name != "who"@ && name != "number"@,
        name == "search"@ ==> name != "help"@ && name != "who"@ && name != "number"@ && name
            != "ignore"@,
        name == "open"@ ==> name != "help"@ && name != "who"@ && name != "number"@ && name
            != "ignore"@ && name != "search"@,
        name == "forward"@ ==> name != "help"@ && name != "who"@ && name != "number"@ && name
            != "ignore"@ && name != "search"@ && name != "open"@,
        name == "status"@ ==> name != "help"@ && name != "who"@ && name != "number"@ && name
            != "ignore"@ && name != "search"@ && name != "open"@ && name != "forward"@,
{
    reveal_strlit("help");
    reveal_strlit("who");
    reveal_strlit("number");
    reveal_strlit("ignore");
    reveal_strlit("search");
    reveal_strlit("open");
    reveal_strlit("forward");
    reveal_strlit("status");
    if name.len() > 2 {
        let first = name[0];
        let second = name[1];
        assert(name == "help"@ ==> first == 'h');
        assert(name == "who"@ ==> first == 'w');
        assert(name == "number"@ ==> first == 'n');
        assert(name == "ignore"@ ==> first == 'i');
        assert(name == "search"@ ==> first == 's' && second == 'e');
        assert(name == "open"@ ==> first == 'o');
        assert(name == "forward"@ ==> first == 'f');
        assert(name == "status"@ ==> first == 's' && second == 't');
    }
}

/// A search is for what stands behind the command, and opening is of the contact
/// whose number stands there.
pub proof fn law_search_and_open_are_read(
    mention: Seq<char>,
    gap: Seq<char>,
    query: Seq<char>,
    tail: Seq<char>,
    contact_id: i64,
    thread_id: i32,
)
    requires
        mentions(mention),
        blank(gap) && gap.len() > 0,
        solid(query),
        blank(tail),
    ensures
        command_of("/search"@ + mention + gap + query + tail, thread_id) == (
        OwnerCommandView::Search { query }),
        query == int_text(contact_id as int) ==> command_of(
            "/open"@ + mention + gap + query + tail,
            thread_id,
        ) == (OwnerCommandView::Open { contact_id: contact_id as int }),
{
    reveal_strlit("/");
    reveal_strlit("search");
    reveal_strlit("/search");
    reveal_strlit("open");
    reveal_strlit("/open");
    let rest = gap + query + tail;
    assert(rest[0] == gap[0]);
    let search = "/search"@ + mention + gap + query + tail;
    assert("/search"@ =~= "/"@ + "search"@);
    assert(search =~= "/"@ + "search"@ + mention + rest);
    assert forall|j: int| 0 <= j < "search"@.len() implies !is_space(#[trigger] "search"@[j])
        && "search"@[j] != '@' by {}
    law_command_is_called_by_name("search"@, mention, rest);
    law_argument_is_what_follows("/search"@, mention, gap, query, tail);
    assert(search[2] == 'e');
    lemma_not_sms(search);
    lemma_names_differ("search"@);
    let open = "/open"@ + mention + gap + query + tail;
    assert("/open"@ =~= "/"@ + "open"@);
    assert(open =~= "/"@ + "open"@ + mention + rest);
    assert forall|j: int| 0 <= j < "open"@.len() implies !is_space(#[trigger] "open"@[j])
        && "open"@[j] != '@' by {}
    law_command_is_called_by_name("open"@, mention, rest);
    law_argument_is_what_follows("/open"@, mention, gap, query, tail);
    assert(open[1] == 'o');
    lemma_not_sms(open);
    lemma_names_differ("open"@);
    law_parsed_int_text(contact_id as int, i64::MIN as int, i64::MAX as int);
}

/// In a private chat only the status is told; everything else is answered with
/// where the commands work.
pub proof fn law_private_chat_tells_only_the_status(
    mention: Seq<char>,
    rest: Seq<char>,
    text: Seq<char>,
    group_id: i64,
)
    requires
        mentions(mention),
        rest.len() > 0 ==> is_space(rest[0]),
    ensures
        dm_answer("/"@ + "status"@ + mention + rest, group_id) is None,
        !begins(text, "/"@) ==> (dm_answer(text, group_id) matches Some(words) && begins(
            words,
            "Commands only work in the forum group (id "@ + int_text(group_id as int) + ")"@,
        )),
{
    reveal_strlit("status");
    assert forall|j: int| 0 <= j < "status"@.len() implies !is_space(#[trigger] "status"@[j])
        && "status"@[j] != '@' by {}
    law_command_is_called_by_name("status"@, mention, rest);
    if !begins(text, "/"@) {
        law_plain_text_is_no_command(text, 1);
        let start = "Commands only work in the forum group (id "@ + int_text(group_id as int);
        let words = dm_answer(text, group_id)->0;
        reveal_strlit(")");
        reveal_strlit(
            ").\n\nOpen that group and send them there, for example:\n/sms 0912xxxxxxx hello\n/search ali\n\nThe bot must be a group admin with Manage Topics.",
        );
        assert(words.take((start + ")"@).len() as int) =~= start + ")"@);
    }
}

/// The number to ignore is the first word of the message that was answered, where
/// that begins with a plus.
pub proof fn law_answered_number_is_read(number: Seq<char>, rest: Seq<char>)
    requires
        spaceless(number),
        number.len() > 0,
        rest.len() > 0 ==> rest[0] == '\n',
    ensures
        number[0] == '+' ==> ignore_reply(number + rest) == Some(number),
        number[0] != '+' ==> ignore_reply(number + rest) is None,
{
    let text = number + rest;
    let p = equal_to('\n');
    assert forall|j: int| 0 <= j < number.len() implies !p(#[trigger] text[j]) by {
        assert(text[j] == number[j]);
        assert(!is_space(number[j]));
    }
    if rest.len() > 0 {
        assert(text[number.len() as int] == rest[0]);
    }
    lemma_find_is(text, p, number.len() as int);
    assert(text.take(number.len() as int) =~= number);
    if rest.len() == 0 {
        assert(text =~= number);
    }
    assert(split(text, '\n')[0] == number);
    let none = Seq::<char>::empty();
    assert(!is_space(number[0]));
    assert(!is_space(number[number.len() - 1]));
    law_trimming_keeps_the_core(none, number, none);
    assert(none + number + none =~= number);
    law_first_word(none, number, none);
    reveal_strlit("+");
    if begins(number, "+"@) {
        assert(number.take(1)[0] == number[0]);
    }
    if number[0] == '+' {
        assert(number.take(1) =~= "+"@);
    }
}

/// In General the number that was answered is ignored; in a topic it is the
/// topic's contact, in its thread.
pub proof fn law_ignoring_goes_by_the_place(
    t: Tables,
    i: int,
    thread_id: i32,
    reply: Seq<char>,
    given: Option<Seq<char>>,
)
    requires
        t.wf(),
    ensures
        ignore_identity(t, 1, Some(reply)) == (IdentityView {
            number: ignore_reply(reply),
            contact_id: None,
            thread_id: None,
        }),
        ignore_identity(t, 1, None) == (IdentityView {
            number: None,
            contact_id: None,
            thread_id: None,
        }),
        0 <= i < t.topics.len() && t.topics[i].topic.thread_id != 1 ==> ignore_identity(
            t,
            t.topics[i].topic.thread_id,
            given,
        ) == (IdentityView {
            number: None,
            contact_id: t.topics[i].topic.contact_id,
            thread_id: Some(t.topics[i].topic.thread_id),
        }),
{
    law_thread_finds_its_topic(t, i, thread_id);
}

/// Who asks to ignore nothing is told how; what is ignored is told; and any other
/// error is one.
pub proof fn law_ignoring_is_answered(
    thread_id: i32,
    e: EffectView,
    numbers: Seq<Seq<char>>,
    words: Seq<char>,
)
    ensures
        ignore_cmd_step(thread_id, StepView::Do(e, numbers)) == IgnoreCmdStepView::Do(
            e,
            IgnoreFlowView::Telling { told: numbers },
        ),
        ignore_cmd_step(thread_id, StepView::End(Ok(numbers))) == IgnoreCmdStepView::End(Ok(())),
        asks(
            ignore_cmd_step(thread_id, StepView::End(Err(ActionErrorView::Validation(words)))),
            EffectView::Post { thread_id, text: "reply to a +number to ignore it"@ },
        ),
        asks(
            ignore_cmd_step(1, StepView::End(Err(ActionErrorView::MissingIdentity))),
            EffectView::Post { thread_id: 1, text: "reply to a +number to ignore it"@ },
        ),
        ignore_cmd_step(thread_id, StepView::End(Err(ActionErrorView::InvalidNumber(words))))
            == IgnoreCmdStepView::End(Err(AppErrorView::Telegram(words))),
{
}

// ---------------------------------------------------------------------------
// Taps
// ---------------------------------------------------------------------------

/// A tap on the button of a number, of a contact and of the dialogue is taken for
/// what it shows, but in a private chat only the refresh is.
pub proof fn law_taps_are_taken_for_their_buttons(
    data: Seq<char>,
    e164: Seq<char>,
    contact_id: i64,
)
    requires
        e164.len() > 0,
    ensures
        tapped("st:r"@, true) == TapView::Refresh,
        tapped("st:r"@, false) == TapView::Refresh,
        data != "st:r"@ ==> tapped(data, true) == TapView::Nothing,
        tapped("num:"@ + e164, false) == (TapView::Number { e164 }),
        tapped("open:"@ + int_text(contact_id as int), false) == (TapView::Open {
            contact_id: contact_id as int,
        }),
        tapped("cf:n:"@ + e164, false) == (TapView::Forward {
            action: CfActionView::Number(e164),
        }),
        tapped("cf:c:"@ + int_text(contact_id as int), false) == (TapView::Forward {
            action: CfActionView::Contact(contact_id as int),
        }),
        tapped("cf:off"@, false) == (TapView::Forward { action: CfActionView::Disable }),
        tapped("cf:cancel"@, false) == (TapView::Forward { action: CfActionView::Cancel }),
        tapped("cf:type"@, false) == (TapView::Forward { action: CfActionView::TypeNumber }),
        tapped("cf:search"@, false) == (TapView::Forward { action: CfActionView::Search }),
{
    reveal_strlit("st:r");
    reveal_strlit("num:");
    reveal_strlit("open:");
    reveal_strlit("cf:n:");
    reveal_strlit("cf:c:");
    reveal_strlit("cf:off");
    reveal_strlit("cf:cancel");
    reveal_strlit("cf:type");
    reveal_strlit("cf:search");
    law_parsed_int_text(contact_id as int, i64::MIN as int, i64::MAX as int);
    let number = "num:"@ + e164;
    law_what_follows_a_prefix("num:"@, e164, number);
    assert(number[0] == 'n');
    let open = "open:"@ + int_text(contact_id as int);
    law_what_follows_a_prefix("open:"@, int_text(contact_id as int), open);
    assert(open[0] == 'o');
    lemma_begins_otherwise(open, "num:"@);
    let to = "cf:n:"@ + e164;
    law_what_follows_a_prefix("cf:n:"@, e164, to);
    lemma_forward_data(to);
    assert(to[3] == 'n');
    lemma_begins_otherwise_at(to, "cf:c:"@, 3);
    let contact = "cf:c:"@ + int_text(contact_id as int);
    law_what_follows_a_prefix("cf:c:"@, int_text(contact_id as int), contact);
    lemma_forward_data(contact);
    assert(contact[3] == 'c' && contact[4] == ':');
    assert("cf:off"@[3] == 'o' && "cf:cancel"@[4] == 'a' && "cf:type"@[3] == 't'
        && "cf:search"@[3] == 's');
    lemma_forward_data("cf:off"@);
    lemma_forward_data("cf:cancel"@);
    lemma_forward_data("cf:type"@);
    lemma_forward_data("cf:search"@);
}

proof fn lemma_begins_otherwise(s: Seq<char>, p: Seq<char>)
    requires
        p.len() > 0,
        s.len() > 0,
        s[0] != p[0],
    ensures
        after_prefix(s, p) is None,
        s != p,
{
    if begins(s, p) {
        assert(s.take(p.len() as int)[0] == s[0]);
    }
}

proof fn lemma_begins_otherwise_at(s: Seq<char>, p: Seq<char>, i: int)
    requires
        0 <= i < p.len(),
        i < s.len(),
        s[i] != p[i],
    ensures
        after_prefix(s, p) is None,
        s != p,
{
    if begins(s, p) {
        assert(s.take(p.len() as int)[i] == s[i]);
    }
}

proof fn lemma_forward_data(s: Seq<char>)
    requires
        s.len() > 3,
        s[0] == 'c',
    ensures
        s != "st:r"@,
        num_callback(s) is None,
        open_callback(s) is None,
{
    reveal_strlit("st:r");
    reveal_strlit("num:");
    reveal_strlit("open:");
    lemma_begins_otherwise(s, "st:r"@);
    lemma_begins_otherwise(s, "num:"@);
    lemma_begins_otherwise(s, "open:"@);
}

// ---------------------------------------------------------------------------
// Answers
// ---------------------------------------------------------------------------

/// A topic that was opened or created is told where the owner asked, with the way
/// to it; an unknown contact is told so there.
pub proof fn law_opened_topic_is_told_where_asked(
    t: Tables,
    group_id: i64,
    reply_thread: i32,
    i: int,
    opened: OpenedView,
    words: Seq<char>,
)
    requires
        t.wf(),
    ensures
        0 <= i < t.topics.len() && opened.thread_id == t.topics[i].topic.thread_id ==> asks(
            open_cmd_step(t, group_id, reply_thread, StepView::End(Ok(opened))),
            EffectView::Post {
                thread_id: reply_thread,
                text: open_message(group_id, t.topics[i].topic),
            },
        ),
        asks(
            open_cmd_step(
                t,
                group_id,
                reply_thread,
                StepView::End(Err(ActionErrorView::NotFound(words))),
            ),
            EffectView::Post { thread_id: reply_thread, text: "unknown contact"@ },
        ),
        open_cmd_next(t, OpenFlowView::Telling, OutcomeView::Done) == OpenCmdStepView::End(Ok(())),
{
    law_thread_finds_its_topic(t, i, opened.thread_id);
}

/// A search without a query is told how to search; one that finds nobody is told
/// so, and so is that the contacts cannot be searched; what is found is given.
pub proof fn law_search_is_answered(
    t: Tables,
    thread_id: i32,
    query: Seq<char>,
    hits: Seq<ContactView>,
)
    requires
        query.len() > 0,
    ensures
        asks(
            search_said(t, thread_id, Seq::empty()),
            EffectView::Post { thread_id, text: "usage: /search <query>"@ },
        ),
        crate::actions::search::search_result(t, query) == Ok::<Seq<ContactView>, ActionErrorView>(
            hits,
        ) && hits.len() == 0 ==> asks(
            search_said(t, thread_id, query),
            EffectView::Post { thread_id, text: "no matches"@ },
        ),
        crate::actions::search::search_result(t, query) == Ok::<Seq<ContactView>, ActionErrorView>(
            hits,
        ) && hits.len() > 0 ==> search_said(t, thread_id, query) == SayStepView::<
            Seq<ContactView>,
        >::End(Ok(hits)),
        trimmed(query).len() > 0 && !t.contacts_available ==> asks(
            search_said(t, thread_id, query),
            EffectView::Post { thread_id, text: "contacts unavailable"@ },
        ),
{
}

/// The numbers of the topic are offered to choose from; where there are none, that
/// is told there.
pub proof fn law_numbers_are_offered(
    t: Tables,
    region: Seq<char>,
    i: int,
    state: NumberStateView,
    nowhere: i32,
)
    requires
        t.wf(),
        0 <= i < t.topics.len(),
        forall|j: int|
            0 <= j < t.topics.len() ==> (#[trigger] t.topics[j]).topic.thread_id != nowhere,
    ensures
        ({
            let topic = t.topics[i].topic;
            let id = IdentityView {
                number: topic.default_e164,
                contact_id: topic.contact_id,
                thread_id: Some(topic.thread_id),
            };
            let found = crate::actions::numbers::numbers_result(t, region, id);
            &&& found == Ok::<NumberStateView, ActionErrorView>(state) && state.numbers.len() > 0
                ==> numbers_said(t, region, topic.thread_id) == SayStepView::<
                Seq<Seq<char>>,
            >::End(Ok(state.numbers))
            &&& found == Ok::<NumberStateView, ActionErrorView>(state) && state.numbers.len() == 0
                ==> asks(
                numbers_said(t, region, topic.thread_id),
                EffectView::Post { thread_id: topic.thread_id, text: "no numbers"@ },
            )
        }),
        asks(
            numbers_said(t, region, nowhere),
            EffectView::Post { thread_id: nowhere, text: "no numbers"@ },
        ),
{
    law_thread_finds_its_topic(t, i, nowhere);
}

/// The number that was tapped is chosen for the topic in which it was tapped.
pub proof fn law_tapped_number_is_chosen(
    t: Tables,
    region: Seq<char>,
    i: int,
    e164: Seq<char>,
    can_send: bool,
    delete_enabled: bool,
    e: EffectView,
    state: NumberStateView,
)
    requires
        t.wf(),
        0 <= i < t.topics.len(),
    ensures
        ({
            let topic = t.topics[i].topic;
            let id = IdentityView {
                number: None,
                contact_id: topic.contact_id,
                thread_id: Some(topic.thread_id),
            };
            let begun = num_begun(t, region, topic.thread_id, e164, can_send, delete_enabled);
            &&& crate::actions::numbers::choosing(t, region, id, e164) == NumberStepView::Do(
                e,
                state,
            ) ==> begun == NumStepView::Do(
                e,
                NumFlowView::Telling {
                    told: state,
                    thread_id: topic.thread_id,
                    delete_enabled,
                    can_send,
                },
            )
            &&& crate::telegram::handlers::num_began(t, region, topic.thread_id, e164)
                == crate::actions::numbers::chose(t, region, id, e164)
        }),
{
    law_thread_finds_its_topic(t, i, 0);
}

} // verus!
