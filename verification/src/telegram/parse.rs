//! What texts, commands and buttons mean, and the words shown for them.
use vstd::prelude::*;

use crate::config::Config;
use crate::db::Topic;
use crate::decimal::{
    i64_text, int_text, law_parsed_int_text, law_value_of_text, nat_text, parse_i64, parsed,
};
use crate::rows::{opt_view, views};
use crate::tables::{ContactView, TopicView};
use crate::telegram::keyboards::{article_of, contact_row, number_row};
use crate::text::{
    after_prefix, begins, cat, cat3, cut_at_space, first_word, is_digit, is_space, opt_eq, space, split,
    split_at_space, split_on, starts_with, str_eq, strip_prefix, trim, trim_start,
    trimmed, word,
};

verus! {

// ---------------------------------------------------------------------------
// Who may speak
// ---------------------------------------------------------------------------

/// The owner, in the group.
pub fn allowed(cfg: &Config, chat_id: i64, user_id: i64) -> (r: bool)
    ensures
        r == (chat_id == cfg@.telegram_group_id && user_id == cfg@.telegram_user_id),
{
    chat_id == cfg.telegram_group_id && user_id == cfg.telegram_user_id
}

/// Owner DMs the bot (private chat id equals user id). Not the forum group.
pub fn is_owner_dm(cfg: &Config, chat_id: i64, user_id: i64) -> (r: bool)
    ensures
        r == (user_id == cfg@.telegram_user_id && chat_id == user_id),
{
    user_id == cfg.telegram_user_id && chat_id == user_id
}

// ---------------------------------------------------------------------------
// Commands
// ---------------------------------------------------------------------------

/// What stands behind the name of the bot, if the command names it.
pub open spec fn behind_bot(rest: Seq<char>) -> Option<Seq<char>> {
    match after_prefix(rest, "@"@) {
        Some(after) => match cut_at_space(after) {
            Some((bot, r)) => Some(r),
            None => None,
        },
        None => Some(rest),
    }
}

fn after_bot(rest: &str) -> (r: Option<String>)
    ensures
        opt_view(r) == behind_bot(rest@),
{
    match strip_prefix(rest, "@") {
        Some(after) => match split_at_space(after.as_str()) {
            Some((_, r)) => Some(r),
            None => None,
        },
        None => Some(rest.to_owned()),
    }
}

/// The number and the text of a command to send.
pub open spec fn sms_cmd(text: Seq<char>) -> Option<(Seq<char>, Seq<char>)> {
    match after_prefix(text, "/sms"@) {
        None => None,
        Some(rest) => match behind_bot(rest) {
            None => None,
            Some(rest) => match cut_at_space(trimmed(rest)) {
                None => None,
                Some((number, body)) => if number.len() > 0 && trimmed(body).len() > 0 {
                    Some((number, trimmed(body)))
                } else {
                    None
                },
            },
        },
    }
}

pub fn parse_sms_cmd(text: &str) -> (r: Option<(String, String)>)
    ensures
        sms_cmd(text@) == match r {
            Some((number, body)) => Some((number@, body@)),
            None => None,
        },
{
    let rest = strip_prefix(text, "/sms")?;
    let rest = after_bot(rest.as_str())?;
    let rest = trim(rest.as_str());
    let (number, body) = split_at_space(rest.as_str())?;
    let body = trim(body.as_str());
    if number.as_str().is_empty() || body.as_str().is_empty() {
        return None;
    }
    Some((number, body))
}

/// The name of a command, without the bot's.
pub open spec fn cmd_name(text: Seq<char>) -> Option<Seq<char>> {
    match after_prefix(text, "/"@) {
        None => None,
        Some(rest) => match first_word(rest) {
            None => None,
            Some(token) => {
                let name = split(token, '@')[0];
                if name.len() > 0 {
                    Some(name)
                } else {
                    None
                }
            },
        },
    }
}

pub fn parse_cmd_name(text: &str) -> (r: Option<String>)
    ensures
        opt_view(r) == cmd_name(text@),
{
    let rest = strip_prefix(text, "/")?;
    let token = word(rest.as_str())?;
    let parts = split_on(token.as_str(), '@');
    assert(split(token@, '@').len() > 0);
    assert(views(parts@).len() == parts@.len());
    assert(views(parts@)[0] == parts@[0]@);
    let name = parts[0].clone();
    if name.as_str().is_empty() {
        None
    } else {
        Some(name)
    }
}

/// What follows a command that takes one argument.
pub open spec fn argument(text: Seq<char>, cmd: Seq<char>) -> Option<Seq<char>> {
    match after_prefix(text, cmd) {
        None => None,
        Some(rest) => {
            let rest = if begins(rest, "@"@) {
                behind_bot(rest)
            } else if rest.len() == 0 || is_space(rest[0]) {
                Some(rest)
            } else {
                None
            };
            match rest {
                None => None,
                Some(rest) => if trimmed(rest).len() > 0 {
                    Some(trimmed(rest))
                } else {
                    None
                },
            }
        },
    }
}

fn begins_with_space(s: &str) -> (r: bool)
    ensures
        r == (s@.len() > 0 && is_space(s@[0])),
{
    let chars = crate::text::chars_of(s);
    chars.len() > 0 && space(chars[0])
}

fn parse_argument(text: &str, cmd: &str) -> (r: Option<String>)
    ensures
        opt_view(r) == argument(text@, cmd@),
{
    let rest = strip_prefix(text, cmd)?;
    let rest = if starts_with(rest.as_str(), "@") {
        after_bot(rest.as_str())?
    } else if rest.as_str().is_empty() || begins_with_space(rest.as_str()) {
        rest
    } else {
        return None;
    };
    let q = trim(rest.as_str());
    if q.as_str().is_empty() {
        None
    } else {
        Some(q)
    }
}

pub fn parse_search_query(text: &str) -> (r: Option<String>)
    ensures
        opt_view(r) == argument(text@, "/search"@),
{
    parse_argument(text, "/search")
}

/// The contact that a command to open names.
pub open spec fn open_cmd(text: Seq<char>) -> Option<int> {
    match argument(text, "/open"@) {
        Some(id) => parsed(id, i64::MIN as int, i64::MAX as int),
        None => None,
    }
}

pub open spec fn opt_int(o: Option<i64>) -> Option<int> {
    match o {
        Some(n) => Some(n as int),
        None => None,
    }
}

pub fn parse_open_cmd(text: &str) -> (r: Option<i64>)
    ensures
        opt_int(r) == open_cmd(text@),
{
    let id = parse_argument(text, "/open")?;
    parse_i64(id.as_str())
}

// ---------------------------------------------------------------------------
// Buttons
// ---------------------------------------------------------------------------

pub fn parse_status_refresh(data: &str) -> (r: bool)
    ensures
        r == (data@ == "st:r"@),
{
    str_eq(data, "st:r")
}

/// In a private chat only the status can be refreshed.
pub fn allow_dm_callback(data: &str) -> (r: bool)
    ensures
        r == (data@ == "st:r"@),
{
    parse_status_refresh(data)
}

/// The number behind a button.
pub open spec fn num_callback(data: Seq<char>) -> Option<Seq<char>> {
    match after_prefix(data, "num:"@) {
        Some(e164) => if e164.len() > 0 {
            Some(e164)
        } else {
            None
        },
        None => None,
    }
}

pub fn parse_num_callback(data: &str) -> (r: Option<String>)
    ensures
        opt_view(r) == num_callback(data@),
{
    let e164 = strip_prefix(data, "num:")?;
    if e164.as_str().is_empty() {
        None
    } else {
        Some(e164)
    }
}

/// The contact behind a button.
pub open spec fn open_callback(data: Seq<char>) -> Option<int> {
    match after_prefix(data, "open:"@) {
        Some(id) => parsed(id, i64::MIN as int, i64::MAX as int),
        None => None,
    }
}

pub fn parse_open_callback(data: &str) -> (r: Option<i64>)
    ensures
        opt_int(r) == open_callback(data@),
{
    let id = strip_prefix(data, "open:")?;
    parse_i64(id.as_str())
}

/// What a button of the forwarding dialogue does.
#[derive(Debug, PartialEq, Eq)]
pub enum CfAction {
    Disable,
    Cancel,
    TypeNumber,
    Search,
    Contact(i64),
    Number(String),
}

pub enum CfActionView {
    Disable,
    Cancel,
    TypeNumber,
    Search,
    Contact(int),
    Number(Seq<char>),
}

impl View for CfAction {
    type V = CfActionView;

    open spec fn view(&self) -> CfActionView {
        match self {
            CfAction::Disable => CfActionView::Disable,
            CfAction::Cancel => CfActionView::Cancel,
            CfAction::TypeNumber => CfActionView::TypeNumber,
            CfAction::Search => CfActionView::Search,
            CfAction::Contact(id) => CfActionView::Contact(*id as int),
            CfAction::Number(e164) => CfActionView::Number(e164@),
        }
    }
}

pub open spec fn cf_callback(data: Seq<char>) -> Option<CfActionView> {
    if data == "cf:off"@ {
        Some(CfActionView::Disable)
    } else if data == "cf:cancel"@ {
        Some(CfActionView::Cancel)
    } else if data == "cf:type"@ {
        Some(CfActionView::TypeNumber)
    } else if data == "cf:search"@ {
        Some(CfActionView::Search)
    } else {
        match after_prefix(data, "cf:c:"@) {
            Some(id) => match parsed(id, i64::MIN as int, i64::MAX as int) {
                Some(n) => Some(CfActionView::Contact(n)),
                None => None,
            },
            None => match after_prefix(data, "cf:n:"@) {
                Some(e164) => if e164.len() > 0 {
                    Some(CfActionView::Number(e164))
                } else {
                    None
                },
                None => None,
            },
        }
    }
}

pub fn parse_cf_callback(data: &str) -> (r: Option<CfAction>)
    ensures
        opt_view(r) == cf_callback(data@),
{
    if str_eq(data, "cf:off") {
        return Some(CfAction::Disable);
    }
    if str_eq(data, "cf:cancel") {
        return Some(CfAction::Cancel);
    }
    if str_eq(data, "cf:type") {
        return Some(CfAction::TypeNumber);
    }
    if str_eq(data, "cf:search") {
        return Some(CfAction::Search);
    }
    match strip_prefix(data, "cf:c:") {
        Some(id) => match parse_i64(id.as_str()) {
            Some(n) => Some(CfAction::Contact(n)),
            None => None,
        },
        None => match strip_prefix(data, "cf:n:") {
            Some(e164) => if e164.as_str().is_empty() {
                None
            } else {
                Some(CfAction::Number(e164))
            },
            None => None,
        },
    }
}

// ---------------------------------------------------------------------------
// Replies
// ---------------------------------------------------------------------------

/// The number at the head of a message that is replied to: the first word of
/// its first line, if that begins with a plus sign.
pub open spec fn ignore_reply(text: Seq<char>) -> Option<Seq<char>> {
    let first = trimmed(split(text, '\n')[0]);
    if begins(first, "+"@) {
        first_word(first)
    } else {
        None
    }
}

pub fn parse_ignore_reply(text: &str) -> (r: Option<String>)
    ensures
        opt_view(r) == ignore_reply(text@),
{
    let lines = split_on(text, '\n');
    assert(split(text@, '\n').len() > 0);
    assert(views(lines@).len() == lines@.len());
    assert(views(lines@)[0] == lines@[0]@);
    let first = trim(lines[0].as_str());
    if !starts_with(first.as_str(), "+") {
        return None;
    }
    word(first.as_str())
}

// ---------------------------------------------------------------------------
// Words
// ---------------------------------------------------------------------------

pub open spec fn default_mark(default: Option<Seq<char>>, number: Seq<char>) -> Seq<char> {
    if default == Some(number) {
        " (default)"@
    } else {
        Seq::empty()
    }
}

/// Numbers on lines of their own, the default one marked.
pub open spec fn number_lines(default: Option<Seq<char>>, numbers: Seq<Seq<char>>) -> Seq<char>
    decreases numbers.len(),
{
    if numbers.len() == 0 {
        Seq::empty()
    } else {
        number_lines(default, numbers.drop_last()) + "\n"@ + numbers.last() + default_mark(
            default,
            numbers.last(),
        )
    }
}

/// A name, or the title of the topic, and the numbers below it.
pub open spec fn who_text(
    topic: TopicView,
    name: Option<Seq<char>>,
    numbers: Seq<Seq<char>>,
) -> Seq<char> {
    let heading = match name {
        Some(name) => name,
        None => topic.title,
    };
    heading + number_lines(topic.default_e164, numbers)
}

pub fn format_who(topic: &Topic, name: Option<&str>, numbers: &[String]) -> (r: String)
    ensures
        r@ == who_text(topic@, opt_view(name), views(numbers@)),
{
    let ghost all = views(numbers@);
    let ghost default = opt_view(topic.default_e164);
    let mut out = match name {
        Some(name) => name.to_owned(),
        None => topic.title.clone(),
    };
    let ghost heading = out@;
    let mut i: usize = 0;
    assert(all.take(0).len() == 0);
    assert(heading + number_lines(default, all.take(0)) =~= heading);
    while i < numbers.len()
        invariant
            i <= numbers@.len(),
            all == views(numbers@),
            default == opt_view(topic.default_e164),
            out@ == heading + number_lines(default, all.take(i as int)),
        decreases numbers@.len() - i,
    {
        assert(all.take(i + 1).drop_last() =~= all.take(i as int));
        assert(all.take(i + 1).last() == numbers@[i as int]@);
        let ghost before = out@;
        let n = numbers[i].as_str();
        out = cat3(out.as_str(), "\n", n);
        if opt_eq(&topic.default_e164, n) {
            out = cat(out.as_str(), " (default)");
        }
        assert(out@ =~= heading + number_lines(default, all.take(i + 1)));
        i = i + 1;
    }
    assert(all.take(i as int) =~= all);
    out
}

/// A link to a topic of a supergroup, or else the word that it is there.
pub open spec fn open_message(group_id: i64, topic: TopicView) -> Seq<char> {
    match after_prefix(int_text(group_id as int), "-100"@) {
        Some(inner) => if inner.len() > 0 {
            "open topic\nhttps://t.me/c/"@ + inner + "/"@ + int_text(topic.thread_id as int)
        } else {
            "topic exists: "@ + topic.title
        },
        None => "topic exists: "@ + topic.title,
    }
}

pub fn topic_open_message(group_id: i64, topic: &Topic) -> (r: String)
    ensures
        r@ == open_message(group_id, topic@),
{
    let s = i64_text(group_id);
    match strip_prefix(s.as_str(), "-100") {
        Some(inner) => if inner.as_str().is_empty() {
            cat("topic exists: ", topic.title.as_str())
        } else {
            let link = cat3("open topic\nhttps://t.me/c/", inner.as_str(), "/");
            cat(link.as_str(), i64_text(topic.thread_id as i64).as_str())
        },
        None => cat("topic exists: ", topic.title.as_str()),
    }
}

/// A command in the menu of the forum.
#[derive(Debug)]
pub struct BotCommand {
    pub command: &'static str,
    pub description: &'static str,
}

pub open spec fn menu() -> Seq<(Seq<char>, Seq<char>)> {
    seq![
        ("help"@, "How to send SMS and use this group"@),
        ("sms"@, "Send SMS: /sms <number> <text>"@),
        ("search"@, "Find a contact and open their topic"@),
        ("who"@, "Show this topic's contact and numbers"@),
        ("number"@, "Choose the default number for this topic"@),
        ("ignore"@, "Stop auto-creating a topic for this number"@),
        ("forward"@, "Manage unconditional call forwarding"@),
        ("status"@, "Modem and gateway status"@),
    ]
}

pub open spec fn command_views(s: Seq<BotCommand>) -> Seq<(Seq<char>, Seq<char>)> {
    s.map_values(|c: BotCommand| (c.command@, c.description@))
}

fn entry(command: &'static str, description: &'static str) -> (r: BotCommand)
    ensures
        r.command@ == command@,
        r.description@ == description@,
{
    BotCommand { command, description }
}

pub fn bot_commands() -> (r: Vec<BotCommand>)
    ensures
        command_views(r@) == menu(),
{
    let out = vec![
        entry("help", "How to send SMS and use this group"),
        entry("sms", "Send SMS: /sms <number> <text>"),
        entry("search", "Find a contact and open their topic"),
        entry("who", "Show this topic's contact and numbers"),
        entry("number", "Choose the default number for this topic"),
        entry("ignore", "Stop auto-creating a topic for this number"),
        entry("forward", "Manage unconditional call forwarding"),
        entry("status", "Modem and gateway status"),
    ];
    assert(command_views(out@) =~= menu());
    out
}

/// The guide to the forum.
pub const HELP: &'static str = "SMS from this forum.

/help
  This message.

/sms <number> <text>
  Send an SMS from any topic. Creates or opens the contact topic.

/search <query>
  Find a Google contact. Tap to open or create their topic.

/who
  Contact topic: name, numbers, current default.
  General: says this is General.

/number
  Contact topic: buttons to set the default number.

/ignore
  Contact topic: stop auto-creating a topic for these numbers.
  General: reply to a +number message to ignore it.

/forward
  Show or change unconditional call forwarding.

/status
  Modem, SIM, today's SMS counts, last in/out, contacts.
  Works in any topic and in a private chat with the bot.

Typing in a contact topic sends SMS to that contact's default number.
Text in General is not an SMS unless you use /sms.";

pub fn help_text() -> (r: &'static str)
    ensures
        r@ == HELP@,
{
    HELP
}

/// The answer to the owner's private messages.
pub open spec fn dm_words(group_id: i64) -> Seq<char> {
    "Commands only work in the forum group (id "@ + int_text(group_id as int)
        + ").\n\nOpen that group and send them there, for example:\n/sms 0912xxxxxxx hello\n/search ali\n\nThe bot must be a group admin with Manage Topics."@
}

pub fn dm_hint(group_id: i64) -> (r: String)
    ensures
        r@ == dm_words(group_id),
{
    cat3(
        "Commands only work in the forum group (id ",
        i64_text(group_id).as_str(),
        ").\n\nOpen that group and send them there, for example:\n/sms 0912xxxxxxx hello\n/search ali\n\nThe bot must be a group admin with Manage Topics.",
    )
}

// ---------------------------------------------------------------------------
// Laws
// ---------------------------------------------------------------------------

proof fn lemma_behind(prefix: Seq<char>, rest: Seq<char>)
    ensures
        after_prefix(prefix + rest, prefix) == Some(rest),
{
    assert((prefix + rest).take(prefix.len() as int) =~= prefix);
    assert((prefix + rest).skip(prefix.len() as int) =~= rest);
}

/// A button for a number sends what reads as that number again, in a topic and
/// in the forwarding dialogue.
pub proof fn law_number_buttons_come_back(e164: Seq<char>)
    requires
        e164.len() > 0,
    ensures
        num_callback(number_row("num:"@)(e164)[0].1) == Some(e164),
        cf_callback(number_row("cf:n:"@)(e164)[0].1) == Some(CfActionView::Number(e164)),
{
    lemma_behind("num:"@, e164);
    lemma_behind("cf:n:"@, e164);
    reveal_strlit("cf:n:");
    reveal_strlit("cf:c:");
    reveal_strlit("cf:off");
    reveal_strlit("cf:cancel");
    reveal_strlit("cf:type");
    reveal_strlit("cf:search");
    let data = "cf:n:"@ + e164;
    assert(data[3] == 'n');
    assert("cf:off"@[3] == 'o' && "cf:cancel"@[3] == 'c' && "cf:type"@[3] == 't' && "cf:search"@[3]
        == 's');
    assert(data.take(5)[3] == 'n' && "cf:c:"@[3] == 'c');
}

/// A button for a contact sends what reads as that contact again, when it is to
/// be opened and when calls are to go to it.
pub proof fn law_contact_buttons_come_back(c: ContactView)
    ensures
        open_callback(contact_row("open:"@)(c)[0].1) == Some(c.id as int),
        cf_callback(contact_row("cf:c:"@)(c)[0].1) == Some(CfActionView::Contact(c.id as int)),
{
    let id = int_text(c.id as int);
    lemma_behind("open:"@, id);
    lemma_behind("cf:c:"@, id);
    law_parsed_int_text(c.id as int, i64::MIN as int, i64::MAX as int);
    reveal_strlit("cf:c:");
    reveal_strlit("cf:off");
    reveal_strlit("cf:cancel");
    reveal_strlit("cf:type");
    reveal_strlit("cf:search");
    let data = "cf:c:"@ + id;
    assert(data[3] == 'c' && data[4] == ':');
    assert("cf:off"@[3] == 'o' && "cf:cancel"@[4] == 'a' && "cf:type"@[3] == 't' && "cf:search"@[3]
        == 's');
}

proof fn lemma_trimmed_core(s: Seq<char>)
    requires
        s.len() > 0,
        !is_space(s[0]),
        !is_space(s.last()),
    ensures
        trimmed(" "@ + s) == s,
{
    reveal_strlit(" ");
    let t = " "@ + s;
    assert(t[0] == ' ');
    assert(t.skip(1) =~= s);
    assert(trim_start(s) == s);
    assert(trim_start(t) == trim_start(t.skip(1)));
}

proof fn lemma_int_text_ends(n: int)
    ensures
        int_text(n).len() > 0,
        !is_space(int_text(n)[0]),
        !is_space(int_text(n).last()),
        int_text(n)[0] != '@',
{
    if n < 0 {
        law_value_of_text((-n) as nat);
        let t = nat_text((-n) as nat);
        assert(int_text(n).last() == t.last());
        assert(is_digit(t[t.len() - 1]));
    } else {
        law_value_of_text(n as nat);
        let t = nat_text(n as nat);
        assert(is_digit(t[0]));
        assert(is_digit(t[t.len() - 1]));
    }
}

/// Choosing a contact among the answers to an inline query sends a command that
/// reads as opening that contact.
pub proof fn law_chosen_answer_opens(c: ContactView)
    ensures
        open_cmd("/open "@ + article_of()(c).0) == Some(c.id as int),
{
    let id = int_text(c.id as int);
    let text = "/open "@ + id;
    reveal_strlit("/open ");
    reveal_strlit("/open");
    reveal_strlit(" ");
    reveal_strlit("@");
    assert(text =~= "/open"@ + (" "@ + id));
    lemma_behind("/open"@, " "@ + id);
    let rest = " "@ + id;
    assert(rest[0] == ' ');
    assert(!begins(rest, "@"@)) by {
        assert(rest.take(1)[0] == ' ');
        assert("@"@[0] == '@');
    }
    lemma_int_text_ends(c.id as int);
    lemma_trimmed_core(id);
    law_parsed_int_text(c.id as int, i64::MIN as int, i64::MAX as int);
}

} // verus!
