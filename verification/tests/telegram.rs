use telesms_bot::actions::{forward_answer, ActionError, ForwardRequest};
use telesms_bot::app::fake::FakeTg;
use telesms_bot::app::{AppError, Effect, Outcome, Step, SEND_PENDING, SEND_REACT_OK};
use telesms_bot::call_forward::CallForwardState;
use telesms_bot::config::Config;
use telesms_bot::db::{Contact, Db, PendingForward, PendingForwardMode, Topic};
use telesms_bot::modem::FakeModem;
use telesms_bot::route::GENERAL_THREAD;
use telesms_bot::telegram::handlers;
use telesms_bot::telegram::handlers::{ForwardText, SayStep};
use telesms_bot::telegram::keyboards::{
    forward_keyboard, inline_answer_articles, inline_articles, search_keyboard,
};
use telesms_bot::telegram::parse::{
    allow_dm_callback, allowed, bot_commands, format_who, help_text, is_owner_dm,
    parse_cf_callback, parse_cmd_name, parse_ignore_reply, parse_num_callback,
    parse_open_callback, parse_open_cmd, parse_search_query, parse_sms_cmd, parse_status_refresh,
    topic_open_message, CfAction,
};
use telesms_bot::telegram::util::{edit_failed_is_noop, forum_thread};
use teloxide::{ApiError, RequestError};

/// Does what a flow asks for, with the remembering Telegram and modem.
fn perform(effect: Effect, tg: &mut FakeTg, modem: &mut FakeModem) -> Outcome {
    match effect {
        Effect::Post { thread_id, text } => said(tg.post(thread_id, text)),
        Effect::Reply {
            thread_id,
            text,
            reply_to,
        } => said(tg.reply(thread_id, text, reply_to)),
        Effect::React { message_id, emoji } => said(tg.react(message_id, &emoji)),
        Effect::CreateTopic { title } => match tg.create_topic(title) {
            Ok(id) => Outcome::Created(id),
            Err(e) => Outcome::TelegramFailed(e),
        },
        Effect::SendSms { e164, text } => match modem.send(&e164, &text) {
            Ok(path) => Outcome::Sent(path),
            Err(e) => Outcome::ModemFailed(e),
        },
        Effect::DeleteSms { path } => match modem.delete(&path) {
            Ok(()) => Outcome::Done,
            Err(e) => Outcome::ModemFailed(e),
        },
    }
}

fn said(result: Result<(), AppError>) -> Outcome {
    match result {
        Ok(()) => Outcome::Done,
        Err(e) => Outcome::TelegramFailed(e),
    }
}

fn now_text() -> String {
    chrono::Utc::now().to_rfc3339()
}

fn say<R>(mut step: SayStep<R>, tg: &mut FakeTg) -> Result<R, AppError> {
    let mut modem = FakeModem::default();
    loop {
        match step {
            Step::Do(effect, saying) => {
                let outcome = perform(effect, tg, &mut modem);
                step = saying.next(outcome);
            }
            Step::End(result) => return result,
        }
    }
}

fn handle_help(thread_id: i32, tg: &mut FakeTg) -> Result<(), AppError> {
    say(handlers::handle_help(thread_id), tg)
}

fn handle_who(db: &mut Db, region: &str, thread_id: i32, tg: &mut FakeTg) -> Result<(), AppError> {
    say(handlers::handle_who(db, region, thread_id), tg)
}

fn handle_number_empty_or_list(
    db: &mut Db,
    region: &str,
    thread_id: i32,
    tg: &mut FakeTg,
) -> Result<Vec<String>, AppError> {
    say(
        handlers::handle_number_empty_or_list(db, region, thread_id),
        tg,
    )
}

fn handle_search(
    db: &mut Db,
    thread_id: i32,
    query: &str,
    tg: &mut FakeTg,
) -> Result<Vec<Contact>, AppError> {
    say(handlers::handle_search(db, thread_id, query), tg)
}

fn handle_num_callback(
    db: &mut Db,
    region: &str,
    thread_id: i32,
    e164: &str,
    modem: Option<&mut FakeModem>,
    tg: &mut FakeTg,
    delete_enabled: bool,
) -> Result<(), AppError> {
    let can_send = modem.is_some();
    let mut none = FakeModem::default();
    let modem = modem.unwrap_or(&mut none);
    let mut step =
        handlers::handle_num_callback(db, region, thread_id, e164, can_send, delete_enabled);
    loop {
        match step {
            Step::Do(effect, flow) => {
                let outcome = perform(effect, tg, modem);
                step = flow.next(db, outcome, &now_text());
            }
            Step::End(result) => return result,
        }
    }
}

fn handle_open(
    db: &mut Db,
    group_id: i64,
    reply_thread: i32,
    contact_id: i64,
    tg: &mut FakeTg,
) -> Result<(), AppError> {
    let mut modem = FakeModem::default();
    let mut step = handlers::handle_open(db, group_id, reply_thread, contact_id);
    loop {
        match step {
            Step::Do(effect, flow) => {
                let outcome = perform(effect, tg, &mut modem);
                step = flow.next(db, outcome);
            }
            Step::End(result) => return result,
        }
    }
}

fn handle_ignore(
    db: &mut Db,
    region: &str,
    thread_id: i32,
    reply: Option<&str>,
    tg: &mut FakeTg,
) -> Result<(), AppError> {
    let mut modem = FakeModem::default();
    let mut step = handlers::handle_ignore(db, region, thread_id, reply);
    loop {
        match step {
            Step::Do(effect, flow) => {
                let outcome = perform(effect, tg, &mut modem);
                step = flow.next(outcome);
            }
            Step::End(result) => return result,
        }
    }
}

fn handle_sms(
    db: &mut Db,
    region: &str,
    raw_number: &str,
    text: &str,
    reply_thread: i32,
    reply_to: Option<i32>,
    modem: &mut FakeModem,
    tg: &mut FakeTg,
    delete_enabled: bool,
) -> Result<(), AppError> {
    let mut step = handlers::handle_sms(
        db,
        region,
        raw_number,
        text,
        reply_thread,
        reply_to,
        delete_enabled,
    );
    loop {
        match step {
            Step::Do(effect, flow) => {
                let outcome = perform(effect, tg, modem);
                step = flow.next(db, outcome, &now_text());
            }
            Step::End(result) => return result,
        }
    }
}

struct PendingForwardResult {
    pending: PendingForward,
    state: Result<CallForwardState, ActionError>,
}

fn handle_pending_forward_text(
    db: &mut Db,
    region: &str,
    thread_id: i32,
    text: &str,
    modem: &mut FakeModem,
) -> Result<Option<PendingForwardResult>, AppError> {
    match handlers::handle_pending_forward_text(db, region, thread_id, text)? {
        ForwardText::NotForUs => Ok(None),
        ForwardText::Ask { pending, request } => {
            let answer = match request {
                ForwardRequest::Query => modem.query_forward(region),
                ForwardRequest::Enable(e164) => modem.set_forward(&e164, region),
                ForwardRequest::Disable => modem.disable_forward(region),
            };
            let state = handlers::settle_forward(db, thread_id, answer);
            Ok(Some(PendingForwardResult { pending, state }))
        }
        ForwardText::Refused { pending, error } => Ok(Some(PendingForwardResult {
            pending,
            state: Err(error),
        })),
        ForwardText::Found { pending, .. } => Ok(Some(PendingForwardResult {
            pending,
            state: forward_answer(modem.query_forward(region)),
        })),
    }
}

fn edit_is_noop(err: &RequestError) -> bool {
    edit_failed_is_noop(
        matches!(err, RequestError::Api(ApiError::MessageNotModified)),
        &err.to_string(),
    )
}

fn sample_cfg() -> Config {
    Config {
        telegram_bot_token: "tok".into(),
        telegram_user_id: 1,
        telegram_group_id: -100,
        modem_uid: "dwm222".into(),
        google_client_id: "cid".into(),
        google_client_secret: "sec".into(),
        google_token_path: "./secrets/google-token.json".into(),
        database_path: "./data/telesms.sqlite".into(),
        contacts_sync_interval: 21600,
        default_region: "IR".into(),
        status_tz: "Asia/Tehran".into(),
        sms_delete_enabled: true,
        sms_delete_max_age: 30 * 86400,
        api_key: None,
        api_bind: "0.0.0.0".into(),
        api_port: 8787,
    }
}

#[test]
fn allowed_only_owner_in_group() {
    let cfg = sample_cfg(); // helper: user 1, group -100
    assert!(allowed(&cfg, -100, 1));
    assert!(!allowed(&cfg, -100, 2));
    assert!(!allowed(&cfg, -99, 1));
    assert!(is_owner_dm(&cfg, 1, 1));
    assert!(!is_owner_dm(&cfg, -100, 1));
    assert!(!is_owner_dm(&cfg, 2, 1));
    assert!(forum_thread(GENERAL_THREAD).is_none());
    assert!(forum_thread(42).is_some());
}

#[test]
fn parse_sms_splits_number_and_rest() {
    let (n, t) = parse_sms_cmd("/sms 09121234567 hello there").unwrap();
    assert_eq!(n, "09121234567");
    assert_eq!(t, "hello there");
}

#[test]
fn parse_sms_rejects_bare() {
    assert!(parse_sms_cmd("/sms").is_none());
}

#[test]
fn bot_commands_include_forward() {
    assert!(bot_commands().iter().any(|c| c.command == "forward"));
}

#[test]
fn parse_cf_callbacks() {
    assert_eq!(parse_cf_callback("cf:off"), Some(CfAction::Disable));
    assert_eq!(parse_cf_callback("cf:cancel"), Some(CfAction::Cancel));
    assert_eq!(parse_cf_callback("cf:type"), Some(CfAction::TypeNumber));
    assert_eq!(parse_cf_callback("cf:search"), Some(CfAction::Search));
    assert_eq!(parse_cf_callback("cf:c:42"), Some(CfAction::Contact(42)));
    assert_eq!(
        parse_cf_callback("cf:n:+989121234567"),
        Some(CfAction::Number("+989121234567".into()))
    );
}

#[test]
fn help_mentions_forward() {
    assert!(help_text().contains("/forward"));
}

#[test]
fn forward_keyboard_has_four_actions() {
    let keyboard = forward_keyboard();
    assert_eq!(keyboard.inline_keyboard.len(), 2);
    assert_eq!(
        keyboard.inline_keyboard.iter().map(Vec::len).sum::<usize>(),
        4
    );
}

#[test]
fn pending_forward_number_consumes_text_and_clears_pending() {
    let mut db = Db::open_in_memory().unwrap();
    db.set_pending_forward(9, PendingForwardMode::Number, -100, 77)
        .unwrap();
    let mut modem = FakeModem::default();

    let result = handle_pending_forward_text(&mut db, "IR", 9, "09121234567", &mut modem)
        .unwrap()
        .expect("pending input handled");

    assert_eq!(result.pending.edit_message_id, 77);
    assert!(result.state.unwrap().enabled);
    assert_eq!(
        modem.forward.e164.as_deref(),
        Some("+989121234567")
    );
    assert!(db.get_pending_forward(9).unwrap().is_none());
}

#[test]
fn pending_forward_does_not_consume_commands() {
    let mut db = Db::open_in_memory().unwrap();
    db.set_pending_forward(9, PendingForwardMode::Number, -100, 77)
        .unwrap();
    let mut modem = FakeModem::default();

    let result = handle_pending_forward_text(&mut db, "IR", 9, "/sms 0912 hello", &mut modem)
        .unwrap();

    assert!(result.is_none());
    assert!(db.get_pending_forward(9).unwrap().is_none());
}

#[test]
fn format_who_marks_default() {
    let t = Topic {
        thread_id: 9,
        contact_id: Some(1),
        default_e164: Some("+98912".into()),
        title: "Ali".into(),
        ignored: false,
    };
    let s = format_who(&t, Some("Ali"), &["+98912".into(), "+98913".into()]);
    assert!(s.contains("Ali"));
    assert!(s.contains("+98912"));
    assert!(s.contains("default") || s.contains("*"));
}

#[test]
fn sms_known_contact_creates_topic_sends_and_acks() {
    let mut db = Db::open_in_memory().unwrap();
    let id = db.upsert_contact("people/a", "Ali").unwrap();
    db.replace_contact_numbers(id, &["+989121234567".into()])
        .unwrap();
    let mut tg = FakeTg::new();
    let mut modem = FakeModem::default();
    handle_sms(&mut db,
        "IR",
        "09121234567",
        "hello",
        1,
        Some(7),
        &mut modem,
        &mut tg,
        true,
    )
    .unwrap();
    assert_eq!(
        modem.sent.as_slice(),
        &[("+989121234567".into(), "hello".into())]
    );
    assert_eq!(
        tg.reactions.as_slice(),
        &[
            (7, SEND_PENDING.into()),
            (7, SEND_REACT_OK.into()),
        ]
    );
    assert!(tg.replies.is_empty());
    assert!(db.get_topic_by_contact(id).unwrap().is_some());
}

#[test]
fn who_in_general_says_so() {
    let mut db = Db::open_in_memory().unwrap();
    let mut tg = FakeTg::new();
    handle_who(&mut db, "IR", 1, &mut tg).unwrap();
    assert_eq!(
        tg.posts.as_slice(),
        &[(1, "this is General".into())]
    );
}

#[test]
fn who_in_contact_topic_lists_numbers() {
    let mut db = Db::open_in_memory().unwrap();
    let id = db.upsert_contact("people/a", "Ali").unwrap();
    db.replace_contact_numbers(id, &["+98912".into(), "+98913".into()])
        .unwrap();
    db.upsert_topic(&Topic {
        thread_id: 9,
        contact_id: Some(id),
        default_e164: Some("+98912".into()),
        title: "Ali".into(),
        ignored: false,
    })
    .unwrap();
    let mut tg = FakeTg::new();
    handle_who(&mut db, "IR", 9, &mut tg).unwrap();
    let posts = &mut tg.posts;
    assert!(posts[0].1.contains("Ali"));
    assert!(posts[0].1.contains("+98912 (default)"));
    assert!(posts[0].1.contains("+98913"));
}

#[test]
fn number_empty_posts_no_numbers() {
    let mut db = Db::open_in_memory().unwrap();
    let mut tg = FakeTg::new();
    let numbers = handle_number_empty_or_list(&mut db, "IR", 1, &mut tg)
        .unwrap();
    assert!(numbers.is_empty());
    assert_eq!(
        tg.posts.as_slice(),
        &[(1, "no numbers".into())]
    );
}

#[test]
fn num_callback_sets_default_and_posts() {
    let mut db = Db::open_in_memory().unwrap();
    db.upsert_topic(&Topic {
        thread_id: 9,
        contact_id: None,
        default_e164: Some("+98912".into()),
        title: "Ali".into(),
        ignored: false,
    })
    .unwrap();
    let mut tg = FakeTg::new();
    handle_num_callback(&mut db, "IR", 9, "+98912", None, &mut tg, true)
        .unwrap();
    assert_eq!(
        db.get_topic_by_thread(9)
            .unwrap()
            .unwrap()
            .default_e164
            .as_deref(),
        Some("+98912")
    );
    assert_eq!(
        tg.posts.as_slice(),
        &[(9, "default is +98912".into())]
    );
}

#[test]
fn num_callback_sends_pending_text() {
    let mut db = Db::open_in_memory().unwrap();
    let id = db.upsert_contact("people/a", "Ali").unwrap();
    db.replace_contact_numbers(id, &["+989188086139".into(), "+989025438263".into()])
        .unwrap();
    db.upsert_topic(&Topic {
        thread_id: 9,
        contact_id: Some(id),
        default_e164: None,
        title: "Ali".into(),
        ignored: false,
    })
    .unwrap();
    db.set_pending_outbound(9, "hello", Some(11)).unwrap();
    let mut tg = FakeTg::new();
    let mut modem = FakeModem::default();
    handle_num_callback(&mut db, "IR", 9, "+989188086139", Some(&mut modem), &mut tg, true)
        .unwrap();
    assert_eq!(
        modem.sent.as_slice(),
        &[("+989188086139".into(), "hello".into())]
    );
    assert_eq!(
        tg.reactions.as_slice(),
        &[
            (11, SEND_PENDING.into()),
            (11, SEND_REACT_OK.into()),
        ]
    );
    assert!(tg.replies.is_empty());
    assert!(db.take_pending_outbound(9).unwrap().is_none());
}

#[test]
fn parse_num_callback_reads_e164() {
    assert_eq!(parse_num_callback("num:+98912").as_deref(), Some("+98912"));
    assert!(parse_num_callback("other:+98912").is_none());
    assert!(parse_num_callback("num:").is_none());
}

#[test]
fn ignore_contact_topic_ignores_all_numbers() {
    let mut db = Db::open_in_memory().unwrap();
    let id = db.upsert_contact("people/a", "Ali").unwrap();
    db.replace_contact_numbers(id, &["+98912".into(), "+98913".into()])
        .unwrap();
    db.upsert_topic(&Topic {
        thread_id: 9,
        contact_id: Some(id),
        default_e164: Some("+98912".into()),
        title: "Ali".into(),
        ignored: false,
    })
    .unwrap();
    let mut tg = FakeTg::new();
    handle_ignore(&mut db, "IR", 9, None, &mut tg).unwrap();
    assert!(db.is_ignored("+98912").unwrap());
    assert!(db.is_ignored("+98913").unwrap());
    assert!(tg.posts[0].1.contains("ignored"));
}

#[test]
fn ignore_general_without_reply_posts_hint() {
    let mut db = Db::open_in_memory().unwrap();
    let mut tg = FakeTg::new();
    handle_ignore(&mut db, "IR", 1, None, &mut tg).unwrap();
    assert_eq!(
        tg.posts.as_slice(),
        &[(1, "reply to a +number to ignore it".into())]
    );
}

#[test]
fn ignore_contact_topic_empty_numbers_posts_hint() {
    let mut db = Db::open_in_memory().unwrap();
    let id = db.upsert_contact("people/a", "Ali").unwrap();
    db.upsert_topic(&Topic {
        thread_id: 9,
        contact_id: Some(id),
        default_e164: None,
        title: "Ali".into(),
        ignored: false,
    })
    .unwrap();
    let mut tg = FakeTg::new();
    handle_ignore(&mut db, "IR", 9, None, &mut tg).unwrap();
    assert_eq!(
        tg.posts.as_slice(),
        &[(9, "reply to a +number to ignore it".into())]
    );
}

#[test]
fn num_callback_avoids_identity_conflict() {
    let mut db = Db::open_in_memory().unwrap();
    let id = db.upsert_contact("people/a", "Ali").unwrap();
    db.replace_contact_numbers(id, &["+98912".into(), "+98913".into()])
        .unwrap();
    db.upsert_topic(&Topic {
        thread_id: 9,
        contact_id: Some(id),
        default_e164: Some("+98912".into()),
        title: "Ali".into(),
        ignored: false,
    })
    .unwrap();
    db.upsert_topic(&Topic {
        thread_id: 10,
        contact_id: None,
        default_e164: Some("+98913".into()),
        title: "+98913".into(),
        ignored: false,
    })
    .unwrap();
    let mut tg = FakeTg::new();
    handle_num_callback(&mut db, "IR", 9, "+98913", None, &mut tg, true)
        .unwrap();
    assert_eq!(
        db.get_topic_by_thread(9)
            .unwrap()
            .unwrap()
            .default_e164
            .as_deref(),
        Some("+98913")
    );
    assert_eq!(
        tg.posts.as_slice(),
        &[(9, "default is +98913".into())]
    );
}

#[test]
fn ignore_general_reply_parses_plus() {
    let mut db = Db::open_in_memory().unwrap();
    let mut tg = FakeTg::new();
    handle_ignore(&mut db, "IR", 1, Some("+989121234567\nhi"), &mut tg)
        .unwrap();
    assert!(db.is_ignored("+989121234567").unwrap());
}

#[test]
fn parse_ignore_reply_requires_plus() {
    assert_eq!(parse_ignore_reply("+98912\nhello").as_deref(), Some("+98912"));
    assert!(parse_ignore_reply("hello\n+98912").is_none());
}

#[test]
fn sms_ignored_number_stays_in_general() {
    let mut db = Db::open_in_memory().unwrap();
    db.ignore_number("+989121234567").unwrap();
    let mut tg = FakeTg::new();
    let mut modem = FakeModem::default();
    handle_sms(&mut db,
        "IR",
        "09121234567",
        "hello",
        1,
        Some(7),
        &mut modem,
        &mut tg,
        true,
    )
    .unwrap();
    assert_eq!(
        modem.sent.as_slice(),
        &[("+989121234567".into(), "hello".into())]
    );
    assert_eq!(
        tg.reactions.as_slice(),
        &[
            (7, SEND_PENDING.into()),
            (7, SEND_REACT_OK.into()),
        ]
    );
    assert!(tg.replies.is_empty());
    assert!(db.get_topic_by_e164("+989121234567").unwrap().is_none());
}

#[test]
fn sms_does_not_apply_incoming_default() {
    let mut db = Db::open_in_memory().unwrap();
    let id = db.upsert_contact("people/a", "Ali").unwrap();
    let a = "+989120000001";
    let b = "+989120000002";
    db.replace_contact_numbers(id, &[a.into(), b.into()])
        .unwrap();
    db.upsert_topic(&Topic {
        thread_id: 42,
        contact_id: Some(id),
        default_e164: Some(a.into()),
        title: "Ali (0001)".into(),
        ignored: false,
    })
    .unwrap();
    let mut tg = FakeTg::new();
    let mut modem = FakeModem::default();
    handle_sms(&mut db, "IR", b, "hello", 1, Some(7), &mut modem, &mut tg, true)
        .unwrap();
    assert_eq!(
        db.get_topic_by_thread(42)
            .unwrap()
            .unwrap()
            .default_e164
            .as_deref(),
        Some(a)
    );
    assert_eq!(
        modem.sent.as_slice(),
        &[(b.into(), "hello".into())]
    );
    assert_eq!(
        tg.reactions.as_slice(),
        &[
            (7, SEND_PENDING.into()),
            (7, SEND_REACT_OK.into()),
        ]
    );
    assert!(tg.replies.is_empty());
}

#[test]
fn sms_send_ok_deletes_path() {
    let mut db = Db::open_in_memory().unwrap();
    let id = db.upsert_contact("people/a", "Ali").unwrap();
    db.replace_contact_numbers(id, &["+989121234567".into()])
        .unwrap();
    let mut tg = FakeTg::new();
    let mut modem = FakeModem::default();
    handle_sms(&mut db,
        "IR",
        "09121234567",
        "hello",
        1,
        None,
        &mut modem,
        &mut tg,
        true,
    )
    .unwrap();
    assert_eq!(
        modem.deleted.as_slice(),
        &["/fake/sms/1".into()] as &[String]
    );
}

#[test]
fn sms_send_err_does_not_delete() {
    let mut db = Db::open_in_memory().unwrap();
    let id = db.upsert_contact("people/a", "Ali").unwrap();
    db.replace_contact_numbers(id, &["+989121234567".into()])
        .unwrap();
    let mut tg = FakeTg::new();
    let mut modem = FakeModem {
        fail: true,
        ..FakeModem::default()
    };
    handle_sms(&mut db,
        "IR",
        "09121234567",
        "hello",
        1,
        None,
        &mut modem,
        &mut tg,
        true,
    )
    .unwrap();
    assert!(modem.deleted.is_empty());
}

#[test]
fn parse_search_query_reads_rest() {
    assert_eq!(parse_search_query("/search ali").as_deref(), Some("ali"));
    assert_eq!(parse_search_query("/search@bot Ali Reza").as_deref(), Some("Ali Reza"));
    assert!(parse_search_query("/search").is_none());
    assert!(parse_search_query("/searching ali").is_none());
}

#[test]
fn parse_open_callback_reads_id() {
    assert_eq!(parse_open_callback("open:42"), Some(42));
    assert!(parse_open_callback("open:").is_none());
    assert!(parse_open_callback("num:1").is_none());
}

#[test]
fn parse_open_cmd_reads_id() {
    assert_eq!(parse_open_cmd("/open 42"), Some(42));
    assert_eq!(parse_open_cmd("/open@bot 7"), Some(7));
    assert!(parse_open_cmd("/open").is_none());
    assert!(parse_open_cmd("/opening 1").is_none());
}

#[test]
fn topic_open_message_link_or_fallback() {
    let t = Topic {
        thread_id: 9,
        contact_id: Some(1),
        default_e164: None,
        title: "Ali".into(),
        ignored: false,
    };
    assert_eq!(
        topic_open_message(-1001234567890, &t),
        "open topic\nhttps://t.me/c/1234567890/9"
    );
    assert_eq!(topic_open_message(-100, &t), "topic exists: Ali");
}

#[test]
fn search_empty_query_posts_usage() {
    let mut db = Db::open_in_memory().unwrap();
    let mut tg = FakeTg::new();
    let hits = handle_search(&mut db, 1, "", &mut tg).unwrap();
    assert!(hits.is_empty());
    assert_eq!(
        tg.posts.as_slice(),
        &[(1, "usage: /search <query>".into())]
    );
}

#[test]
fn search_no_matches_posts() {
    let mut db = Db::open_in_memory().unwrap();
    let mut tg = FakeTg::new();
    let hits = handle_search(&mut db, 1, "ali", &mut tg).unwrap();
    assert!(hits.is_empty());
    assert_eq!(
        tg.posts.as_slice(),
        &[(1, "no matches".into())]
    );
}

#[test]
fn search_returns_cached_contacts() {
    let mut db = Db::open_in_memory().unwrap();
    db.upsert_contact("people/x", "Ali").unwrap();
    let mut tg = FakeTg::new();
    let hits = handle_search(&mut db, 1, "ali", &mut tg).unwrap();
    assert_eq!(hits.len(), 1);
    assert_eq!(hits[0].display_name, "Ali");
    assert!(tg.posts.is_empty());
}

#[test]
fn search_unavailable_when_contacts_flag_cleared() {
    let mut db = Db::open_in_memory().unwrap();
    db.set_contacts_available(false);
    let mut tg = FakeTg::new();
    let hits = handle_search(&mut db, 1, "ali", &mut tg).unwrap();
    assert!(hits.is_empty());
    assert_eq!(
        tg.posts.as_slice(),
        &[(1, "contacts unavailable".into())]
    );
}

#[test]
fn open_creates_topic_with_single_number_default() {
    let mut db = Db::open_in_memory().unwrap();
    let id = db.upsert_contact("people/x", "Ali").unwrap();
    db.replace_contact_numbers(id, &["+98912".into()]).unwrap();
    let mut tg = FakeTg::new();
    handle_open(&mut db, -1001234567890, 1, id, &mut tg).unwrap();
    let topic = db.get_topic_by_contact(id).unwrap().unwrap();
    assert_eq!(topic.default_e164.as_deref(), Some("+98912"));
    assert_eq!(topic.thread_id, 100);
    assert!(tg.posts[0]
        .1
        .contains("https://t.me/c/1234567890/100"));
}

#[test]
fn open_multi_number_has_no_default() {
    let mut db = Db::open_in_memory().unwrap();
    let id = db.upsert_contact("people/x", "Ali").unwrap();
    db.replace_contact_numbers(id, &["+98912".into(), "+98913".into()])
        .unwrap();
    let mut tg = FakeTg::new();
    handle_open(&mut db, -1001234567890, 1, id, &mut tg).unwrap();
    let topic = db.get_topic_by_contact(id).unwrap().unwrap();
    assert!(topic.default_e164.is_none());
}

#[test]
fn open_existing_posts_link_without_create() {
    let mut db = Db::open_in_memory().unwrap();
    let id = db.upsert_contact("people/x", "Ali").unwrap();
    db.upsert_topic(&Topic {
        thread_id: 9,
        contact_id: Some(id),
        default_e164: Some("+98912".into()),
        title: "Ali".into(),
        ignored: false,
    })
    .unwrap();
    let mut tg = FakeTg::new();
    handle_open(&mut db, -1001234567890, 1, id, &mut tg).unwrap();
    assert_eq!(
        tg.posts.as_slice(),
        &[(1, "open topic\nhttps://t.me/c/1234567890/9".into())]
    );
    assert_eq!(db.get_topic_by_contact(id).unwrap().unwrap().thread_id, 9);
}

#[test]
fn inline_articles_cap_20() {
    let hits: Vec<Contact> = (0..25)
        .map(|i| Contact {
            id: i,
            google_resource: format!("p/{i}"),
            display_name: format!("N{i}"),
            numbers: vec![],
            ambiguous: false,
        })
        .collect();
    assert_eq!(inline_articles(&hits).len(), 20);
}

#[test]
fn search_keyboard_caps_20() {
    let hits: Vec<Contact> = (0..25)
        .map(|i| Contact {
            id: i,
            google_resource: format!("p/{i}"),
            display_name: format!("N{i}"),
            numbers: vec![],
            ambiguous: false,
        })
        .collect();
    assert_eq!(search_keyboard(&hits).inline_keyboard.len(), 20);
}

#[test]
fn inline_articles_id_title_first_number() {
    let hits = [Contact {
        id: 9,
        google_resource: "p/9".into(),
        display_name: "Ali".into(),
        numbers: vec!["+98912".into(), "+98913".into()],
        ambiguous: false,
    }];
    assert_eq!(
        inline_articles(&hits),
        vec![("9".into(), "Ali".into(), "+98912".into())]
    );
}

fn sample_hit() -> Contact {
    Contact {
        id: 9,
        google_resource: "p/9".into(),
        display_name: "Ali".into(),
        numbers: vec!["+98912".into()],
        ambiguous: false,
    }
}

#[test]
fn inline_answer_empty_query_no_results() {
    let hits = [sample_hit()];
    assert!(inline_answer_articles("", Ok(&hits)).is_empty());
    assert!(inline_answer_articles("  ", Ok(&hits)).is_empty());
}

#[test]
fn inline_answer_search_error_contacts_unavailable() {
    let arts = inline_answer_articles("ali", Err(()));
    assert_eq!(arts.len(), 1);
    assert_eq!(arts[0].0, "unavailable");
    assert_eq!(arts[0].1, "contacts unavailable");
}

#[test]
fn parse_status_cmd_and_refresh() {
    assert_eq!(parse_cmd_name("/status").as_deref(), Some("status"));
    assert_eq!(parse_cmd_name("/status@bot").as_deref(), Some("status"));
    assert_eq!(parse_cmd_name("/status extra").as_deref(), Some("status"));
    assert!(parse_status_refresh("st:r"));
    assert!(!parse_status_refresh("st:x"));
    assert!(!parse_status_refresh("num:+1"));
}

#[test]
fn dm_callback_is_status_only() {
    assert!(allow_dm_callback("st:r"));
    assert!(!allow_dm_callback("num:+1"));
    assert!(!allow_dm_callback("open:1"));
    assert!(!allow_dm_callback("st:x"));
}

#[test]
fn identical_refresh_edit_is_noop() {
    assert!(edit_is_noop(&RequestError::Api(
        ApiError::MessageNotModified
    )));
    assert!(!edit_is_noop(&RequestError::Api(
        ApiError::MessageToEditNotFound
    )));
    assert!(!edit_is_noop(&RequestError::Api(
        ApiError::MessageCantBeEdited
    )));
}

#[test]
fn bot_commands_are_the_forum_menu() {
    let cmds = bot_commands();
    let names: Vec<&str> = cmds.iter().map(|c| c.command).collect();
    assert_eq!(
        names.as_slice(),
        &["help", "sms", "search", "who", "number", "ignore", "forward", "status"]
    );
    assert_eq!(cmds[0].description, "How to send SMS and use this group");
    assert_eq!(cmds[1].description, "Send SMS: /sms <number> <text>");
    assert_eq!(cmds[2].description, "Find a contact and open their topic");
    assert_eq!(cmds[3].description, "Show this topic's contact and numbers");
    assert_eq!(
        cmds[4].description,
        "Choose the default number for this topic"
    );
    assert_eq!(
        cmds[5].description,
        "Stop auto-creating a topic for this number"
    );
    assert_eq!(cmds[6].description, "Manage unconditional call forwarding");
    assert_eq!(cmds[7].description, "Modem and gateway status");
}

#[test]
fn help_text_matches_spec_and_covers_catalog() {
    let text = help_text();
    assert_eq!(
        text,
        "\
SMS from this forum.

/help
  This message.

/sms <number> <text>
  Send an SMS from any topic. Creates or opens the contact topic.

/search <query>
  Find a Google contact. Tap to open or create their topic.

/who
  Contact topic: name, numbers, current default.
  General: says this is General.

/number
  Contact topic: buttons to set the default number.

/ignore
  Contact topic: stop auto-creating a topic for these numbers.
  General: reply to a +number message to ignore it.

/forward
  Show or change unconditional call forwarding.

/status
  Modem, SIM, today's SMS counts, last in/out, contacts.
  Works in any topic and in a private chat with the bot.

Typing in a contact topic sends SMS to that contact's default number.
Text in General is not an SMS unless you use /sms."
    );
    for cmd in bot_commands() {
        assert!(
            text.contains(cmd.command),
            "help_text missing catalog command {}",
            cmd.command
        );
    }
    assert!(text.contains("/sms <number>"));
    assert!(text.contains("contact topic"));
    assert!(text.contains("Text in General is not an SMS unless you use /sms."));
}

#[test]
fn parse_cmd_name_help() {
    assert_eq!(parse_cmd_name("/help").as_deref(), Some("help"));
    assert_eq!(parse_cmd_name("/help@bot").as_deref(), Some("help"));
    assert_eq!(parse_cmd_name("/help extra").as_deref(), Some("help"));
}

#[test]
fn help_posts_guide_in_same_thread() {
    let mut tg = FakeTg::new();
    handle_help(9, &mut tg).unwrap();
    assert_eq!(
        tg.posts.as_slice(),
        &[(9, help_text().to_string())]
    );
}
