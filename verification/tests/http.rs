use telesms_bot::actions::{list_chats, list_messages, send_sms, ActionError, SmsSent};
use telesms_bot::app::fake::FakeTg;
use telesms_bot::app::{AppError, Effect, Outcome, Step};
use telesms_bot::clock::Moment;
use telesms_bot::db::{Db, Topic};
use telesms_bot::http::{
    action_to_response, api_key_matches, api_method_not_allowed, api_not_found, authorized,
    identity_from_req, json_rejection_response, reply_thread, unauthorized, BodyProblem,
    IdentityReq,
};
use telesms_bot::modem::FakeModem;
use telesms_bot::status::{report_modem, try_gather};

/// Does what a flow asks for, with the remembering Telegram and modem.
fn perform(effect: Effect, tg: &mut FakeTg, modem: &mut FakeModem) -> Outcome {
    match effect {
        Effect::Post { thread_id, text } => said(tg.post(thread_id, text)),
        Effect::Reply {
            thread_id,
            text,
            reply_to,
        } => said(tg.reply(thread_id, text, reply_to)),
        Effect::React { message_id, emoji } => said(tg.react(message_id, &emoji)),
        Effect::CreateTopic { title } => match tg.create_topic(title) {
            Ok(id) => Outcome::Created(id),
            Err(e) => Outcome::TelegramFailed(e),
        },
        Effect::SendSms { e164, text } => match modem.send(&e164, &text) {
            Ok(path) => Outcome::Sent(path),
            Err(e) => Outcome::ModemFailed(e),
        },
        Effect::DeleteSms { path } => match modem.delete(&path) {
            Ok(()) => Outcome::Done,
            Err(e) => Outcome::ModemFailed(e),
        },
    }
}

fn said(result: Result<(), AppError>) -> Outcome {
    match result {
        Ok(()) => Outcome::Done,
        Err(e) => Outcome::TelegramFailed(e),
    }
}

fn now_text() -> String {
    chrono::Utc::now().to_rfc3339()
}

fn test_db() -> Db {
    let mut db = Db::open_in_memory().unwrap();
    let id = db.upsert_contact("people/a", "Ali").unwrap();
    db.replace_contact_numbers(id, &["+989121234567".into()])
        .unwrap();
    db.upsert_topic(&Topic {
        thread_id: 9,
        contact_id: Some(id),
        default_e164: Some("+989121234567".into()),
        title: "Ali".into(),
        ignored: false,
    })
    .unwrap();
    db
}

fn key(k: &str) -> Option<String> {
    Some(k.to_string())
}

#[test]
fn status_requires_key() {
    assert!(!authorized(&key("k"), &None));
    assert_eq!(unauthorized().status, 401);
}

#[test]
fn status_with_key_ok() {
    assert!(authorized(&key("k"), &key("k")));
    let db = test_db();
    let modem = FakeModem::default();
    let snapshot = try_gather(modem.snapshot(), &db, "UTC", "dwm222", Moment::now().time)
        .unwrap()
        .unwrap();
    assert_eq!(report_modem(&snapshot.modem).state, "offline");
    assert!(snapshot.contacts_ok);
}

#[test]
fn search_and_sms_roundtrip() {
    let mut db = test_db();
    let mut tg = FakeTg::new();
    let mut modem = FakeModem::default();
    let id = identity_from_req(IdentityReq {
        number: Some("09121234567".into()),
        contact_id: None,
        thread_id: None,
    })
    .unwrap();
    let thread = reply_thread(&id);
    let mut step = send_sms(&mut db, "IR", &id, "hi", thread, None, true);
    let sent: Result<SmsSent, ActionError> = loop {
        match step {
            Step::Do(effect, flow) => {
                let outcome = perform(effect, &mut tg, &mut modem);
                step = flow.next(&mut db, outcome, &now_text());
            }
            Step::End(result) => break result,
        }
    };
    let sent = sent.unwrap();
    assert_eq!(sent.e164, "+989121234567");
    assert_eq!(sent.thread_id, 9);
    assert!(sent.sent);
    assert_eq!(tg.posts.as_slice(), &[(9, "✅".into())]);
}

#[test]
fn api_key_length_mismatch_rejected() {
    assert!(!api_key_matches("secret", "sec"));
    assert!(!api_key_matches("secret", "secretx"));
    assert!(api_key_matches("secret", "secret"));
}

#[test]
fn invalid_json_returns_envelope() {
    let err = serde_json::from_str::<serde_json::Value>("{not json").unwrap_err();
    let body = json_rejection_response(BodyProblem::Unreadable(err.to_string()));
    assert_eq!(body.status, 400);
    assert_eq!(body.error, "validation");
    assert!(!body.message.is_empty());
}

#[test]
fn wrong_method_returns_envelope() {
    let body = api_method_not_allowed();
    assert_eq!(body.status, 405);
    assert_eq!(body.error, "validation");
    assert_eq!(body.message, "method not allowed");
}

#[test]
fn unknown_api_route_returns_envelope() {
    let body = api_not_found();
    assert_eq!(body.status, 404);
    assert_eq!(body.error, "not_found");
    assert_eq!(body.message, "not found");
}

#[test]
fn wrong_key_length_unauthorized() {
    assert!(!authorized(&key("secret"), &key("sec")));
    let body = unauthorized();
    assert_eq!(body.status, 401);
    assert_eq!(body.error, "unauthorized");
}

#[test]
fn thread_id_only_rejected() {
    let err = identity_from_req(IdentityReq {
        number: None,
        contact_id: None,
        thread_id: Some(9),
    })
    .unwrap_err();
    assert_eq!(action_to_response(err).status, 400);
}

#[test]
fn chats_requires_api_key() {
    assert!(!authorized(&key("secret"), &None));
    assert_eq!(unauthorized().status, 401);
}

#[test]
fn chats_empty_ok() {
    assert!(authorized(&key("secret"), &key("secret")));
    let db = test_db();
    let list = list_chats(&db, None, &None, &None).unwrap();
    assert!(list.chats.is_empty());
}

#[test]
fn messages_unknown_thread_404() {
    let db = test_db();
    let err = list_messages(&db, "IR", 99, None, &None, &None, &None, None).unwrap_err();
    let body = action_to_response(err);
    assert_eq!(body.status, 404);
    assert_eq!(body.error, "not_found");
}

#[test]
fn messages_known_thread_ok() {
    let mut db = test_db();
    db.record_inbound("/g", "+989121234567", "hello", None, "", 9)
        .unwrap();
    let list = list_messages(&db, "IR", 9, None, &None, &None, &None, None).unwrap();
    assert_eq!(list.thread_id, 9);
    assert_eq!(list.messages.len(), 1);
    assert_eq!(list.messages[0].body, "hello");
}
