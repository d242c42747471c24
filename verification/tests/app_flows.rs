use telesms_bot::actions::ActionError;
use telesms_bot::app::fake::FakeTg;
use telesms_bot::app::incoming;
use telesms_bot::app::owner;
use telesms_bot::app::presence::{
    presence_text, InboxAction, InboxEvent, InboxState, Presence, PresenceEvent,
};
use telesms_bot::app::send;
use telesms_bot::app::send::SendJob;
use telesms_bot::app::sweep::{sms_too_old, sweep_action, SweepAction};
use telesms_bot::app::{
    watch_inbox, AppError, Effect, Outcome, OwnerTextOutcome, Step, SEND_ACK, SEND_FAIL,
    SEND_PENDING, SEND_REACT_OK,
};
use telesms_bot::clock::{Moment, UtcTime};
use telesms_bot::db::{Db, Topic};
use telesms_bot::modem::{FakeModem, IncomingSms};
use telesms_bot::route::GENERAL_THREAD;

/// Does what a flow asks for, with the remembering Telegram and modem.
fn perform(effect: Effect, tg: &mut FakeTg, modem: &mut FakeModem) -> Outcome {
    match effect {
        Effect::Post { thread_id, text } => said(tg.post(thread_id, text)),
        Effect::Reply {
            thread_id,
            text,
            reply_to,
        } => said(tg.reply(thread_id, text, reply_to)),
        Effect::React { message_id, emoji } => said(tg.react(message_id, &emoji)),
        Effect::CreateTopic { title } => match tg.create_topic(title) {
            Ok(id) => Outcome::Created(id),
            Err(e) => Outcome::TelegramFailed(e),
        },
        Effect::SendSms { e164, text } => match modem.send(&e164, &text) {
            Ok(path) => Outcome::Sent(path),
            Err(e) => Outcome::ModemFailed(e),
        },
        Effect::DeleteSms { path } => match modem.delete(&path) {
            Ok(()) => Outcome::Done,
            Err(e) => Outcome::ModemFailed(e),
        },
    }
}

fn said(result: Result<(), AppError>) -> Outcome {
    match result {
        Ok(()) => Outcome::Done,
        Err(e) => Outcome::TelegramFailed(e),
    }
}

fn now_text() -> String {
    chrono::Utc::now().to_rfc3339()
}

fn run_incoming(
    mut step: incoming::IncomingStep,
    db: &mut Db,
    tg: &mut FakeTg,
    modem: &mut FakeModem,
) -> Result<(), AppError> {
    loop {
        match step {
            Step::Do(effect, flow) => {
                let outcome = perform(effect, tg, modem);
                step = flow.next(db, outcome, &now_text());
            }
            Step::End(result) => return result,
        }
    }
}

fn handle_incoming(
    db: &mut Db,
    region: &str,
    sms: IncomingSms,
    tg: &mut FakeTg,
) -> Result<(), AppError> {
    let mut modem = FakeModem::default();
    let step = incoming::handle_incoming(db, region, sms, false, &Moment::now());
    run_incoming(step, db, tg, &mut modem)
}

fn handle_incoming_then_delete(
    db: &mut Db,
    region: &str,
    sms: IncomingSms,
    tg: &mut FakeTg,
    modem: &mut FakeModem,
    delete_enabled: bool,
) -> Result<(), AppError> {
    let step =
        incoming::handle_incoming_then_delete(db, region, sms, delete_enabled, &Moment::now());
    run_incoming(step, db, tg, modem)
}

fn send_and_ack(
    db: &mut Db,
    e164: &str,
    text: &str,
    thread_id: i32,
    reply_to: Option<i32>,
    modem: &mut FakeModem,
    tg: &mut FakeTg,
    delete_enabled: bool,
) -> Result<(), ActionError> {
    let mut step = send::send_and_ack(SendJob {
        e164: e164.to_string(),
        text: text.to_string(),
        thread_id,
        reply_to,
        delete_enabled,
    });
    loop {
        match step {
            Step::Do(effect, flow) => {
                let outcome = perform(effect, tg, modem);
                step = flow.next(db, outcome, &now_text());
            }
            Step::End(result) => return result,
        }
    }
}

fn handle_owner_text(
    db: &mut Db,
    region: &str,
    thread_id: i32,
    text: &str,
    reply_to: Option<i32>,
    modem: &mut FakeModem,
    tg: &mut FakeTg,
    delete_enabled: bool,
) -> Result<OwnerTextOutcome, AppError> {
    let mut step =
        owner::handle_owner_text(db, region, thread_id, text, reply_to, delete_enabled);
    loop {
        match step {
            Step::Do(effect, flow) => {
                let outcome = perform(effect, tg, modem);
                step = owner::owner_text_next(flow, db, outcome, &now_text());
            }
            Step::End(result) => return result,
        }
    }
}

fn maybe_delete(enabled: bool, modem: &mut FakeModem, path: &str) {
    let mut tg = FakeTg::new();
    if let Some(effect) = send::maybe_delete(enabled, path) {
        perform(effect, &mut tg, modem);
    }
}
#[test]
fn incoming_known_contact_creates_topic_and_posts_body() {
    let mut db = Db::open_in_memory().unwrap();
    let id = db.upsert_contact("people/a", "Ali").unwrap();
    db.replace_contact_numbers(id, &["+989121234567".into()])
        .unwrap();
    let mut tg = FakeTg::new();
    handle_incoming(&mut db,
        "IR",
        IncomingSms {
            path: "/sms/1".into(),
            e164: "09121234567".into(),
            text: "hi".into(),
            inbound: true,
            timestamp: chrono::Utc::now().to_rfc3339(),
        },
        &mut tg,
    )
    .unwrap();
    let posts = &mut tg.posts;
    assert_eq!(posts.len(), 1);
    assert_eq!(posts[0].1, "hi");
    assert!(db.get_topic_by_contact(id).unwrap().is_some());
}

#[test]
fn duplicate_path_not_posted_twice() {
    let mut db = Db::open_in_memory().unwrap();
    let id = db.upsert_contact("people/a", "Ali").unwrap();
    db.replace_contact_numbers(id, &["+989121234567".into()])
        .unwrap();
    let mut tg = FakeTg::new();
    let sms = IncomingSms {
        path: "/sms/1".into(),
        e164: "09121234567".into(),
        text: "hi".into(),
        inbound: true,
        timestamp: chrono::Utc::now().to_rfc3339(),
    };
    handle_incoming(&mut db, "IR", sms.clone(), &mut tg).unwrap();
    handle_incoming(&mut db, "IR", sms, &mut tg).unwrap();
    assert_eq!(tg.posts.len(), 1);
}

#[test]
fn same_content_new_path_not_posted_twice() {
    let mut db = Db::open_in_memory().unwrap();
    let mut tg = FakeTg::new();
    let ts = chrono::Utc::now().to_rfc3339();
    let a = IncomingSms {
        path: "/sms/1".into(),
        e164: "+989120000001".into(),
        text: "hi".into(),
        inbound: true,
        timestamp: ts.clone(),
    };
    let mut b = a.clone();
    b.path = "/sms/2".into();
    handle_incoming(&mut db, "IR", a, &mut tg).unwrap();
    handle_incoming(&mut db, "IR", b, &mut tg).unwrap();
    assert_eq!(tg.posts.len(), 1);
}

#[test]
fn stale_inbound_not_posted() {
    let mut db = Db::open_in_memory().unwrap();
    let mut tg = FakeTg::new();
    handle_incoming(&mut db,
        "IR",
        IncomingSms {
            path: "/sms/old".into(),
            e164: "+989120000002".into(),
            text: "old".into(),
            inbound: true,
            timestamp: "2024-12-21T15:12:23+03:30".into(),
        },
        &mut tg,
    )
    .unwrap();
    assert!(tg.posts.is_empty());
    assert!(db.seen_sms_path("/sms/old").unwrap());
}

#[test]
fn stale_inbound_resolves_thread_without_switching_default() {
    let mut db = Db::open_in_memory().unwrap();
    let id = db.upsert_contact("people/a", "Ali").unwrap();
    let a = "+989120000001";
    let b = "+989120000002";
    db.replace_contact_numbers(id, &[a.into(), b.into()])
        .unwrap();
    db.upsert_topic(&Topic {
        thread_id: 42,
        contact_id: Some(id),
        default_e164: Some(a.into()),
        title: "Ali (0001)".into(),
        ignored: false,
    })
    .unwrap();
    let mut tg = FakeTg::new();
    handle_incoming(&mut db,
        "IR",
        IncomingSms {
            path: "/sms/stale-b".into(),
            e164: b.into(),
            text: "stale from B".into(),
            inbound: true,
            timestamp: "2024-12-21T15:12:23+03:30".into(),
        },
        &mut tg,
    )
    .unwrap();
    assert!(tg.posts.is_empty());
    assert_eq!(
        db.get_topic_by_thread(42)
            .unwrap()
            .unwrap()
            .default_e164
            .as_deref(),
        Some(a)
    );
    assert_eq!(db.inbound_thread_id("/sms/stale-b").unwrap(), Some(42));
}

#[test]
fn incoming_telegram_fail_does_not_mark_seen() {
    let mut db = Db::open_in_memory().unwrap();
    let id = db.upsert_contact("people/a", "Ali").unwrap();
    db.replace_contact_numbers(id, &["+989121234567".into()])
        .unwrap();
    db.upsert_topic(&Topic {
        thread_id: 42,
        contact_id: Some(id),
        default_e164: Some("+989121234567".into()),
        title: "Ali (4567)".into(),
        ignored: false,
    })
    .unwrap();
    let mut tg = FakeTg {
        fail: true,
        ..FakeTg::new()
    };
    let sms = IncomingSms {
        path: "/sms/1".into(),
        e164: "09121234567".into(),
        text: "secret body".into(),
        inbound: true,
        timestamp: chrono::Utc::now().to_rfc3339(),
    };
    assert!(handle_incoming(&mut db, "IR", sms, &mut tg).is_err());
    assert!(!db.seen_sms_path("/sms/1").unwrap());
}

#[test]
fn owner_text_in_general_does_not_send() {
    let mut db = Db::open_in_memory().unwrap();
    let mut tg = FakeTg::new();
    let mut modem = FakeModem::default();
    handle_owner_text(&mut db, "IR", 1, "hello", None, &mut modem, &mut tg, true)
        .unwrap();
    assert!(modem.sent.is_empty());
}

#[test]
fn owner_text_in_topic_sends_and_acks() {
    let mut db = Db::open_in_memory().unwrap();
    let id = db.upsert_contact("people/a", "Ali").unwrap();
    db.replace_contact_numbers(id, &["+989121234567".into()])
        .unwrap();
    db.upsert_topic(&Topic {
        thread_id: 42,
        contact_id: Some(id),
        default_e164: Some("+989121234567".into()),
        title: "Ali (4567)".into(),
        ignored: false,
    })
    .unwrap();
    let mut tg = FakeTg::new();
    let mut modem = FakeModem::default();
    handle_owner_text(&mut db, "IR", 42, "hello", Some(7), &mut modem, &mut tg, true)
        .unwrap();
    let sent = &modem.sent;
    assert_eq!(sent.as_slice(), &[("+989121234567".into(), "hello".into())]);
    assert_eq!(
        tg.reactions.as_slice(),
        &[(7, SEND_PENDING.into()), (7, SEND_REACT_OK.into())]
    );
    assert!(tg.replies.is_empty());
}

#[test]
fn empty_timestamp_is_not_stale() {
    assert!(!sms_too_old(""));
}

#[test]
fn plus_hh_offset_parses_as_stale() {
    assert!(sms_too_old("2024-11-27T19:10:49+03"));
}

#[test]
fn modem_watch_emits_single_offline() {
    let mut w = Presence::new();
    assert_eq!(w.observe(false), Some(PresenceEvent::Offline));
    assert_eq!(w.observe(false), None);
    assert_eq!(w.observe(true), Some(PresenceEvent::Back));
}


#[test]
fn fake_tg_react_records_emoji() {
    let mut tg = FakeTg::new();
    tg.react(7, SEND_PENDING).unwrap();
    tg.react(7, SEND_REACT_OK).unwrap();
    assert_eq!(
        tg.reactions.as_slice(),
        &[(7, SEND_PENDING.into()), (7, SEND_REACT_OK.into())]
    );
}

#[test]
fn send_status_emoji_match_telegram_reactions() {
    assert_eq!(SEND_PENDING, "👀");
    assert_eq!(SEND_REACT_OK, "👍");
    assert_eq!(SEND_FAIL, "👎");
    assert_eq!(SEND_ACK, "✅");
}

#[test]
fn send_and_ack_ok_reacts_and_deletes() {
    let mut db = Db::open_in_memory().unwrap();
    let mut tg = FakeTg::new();
    let mut modem = FakeModem::default();
    send_and_ack(&mut db, "+98912", "hi", 42, Some(7), &mut modem, &mut tg, true)
        .unwrap();
    assert_eq!(
        modem.sent.as_slice(),
        &[("+98912".into(), "hi".into())]
    );
    assert_eq!(
        tg.reactions.as_slice(),
        &[(7, SEND_PENDING.into()), (7, SEND_REACT_OK.into())]
    );
    assert!(tg.replies.is_empty());
    assert!(tg.posts.is_empty());
    assert_eq!(
        modem.deleted.as_slice(),
        &["/fake/sms/1".into()] as &[String]
    );
    assert_eq!(db.last_outbound_ok().unwrap().unwrap().0, "+98912");
}

#[test]
fn send_and_ack_ok_without_reply_to_posts_ack() {
    let mut db = Db::open_in_memory().unwrap();
    let mut tg = FakeTg::new();
    let mut modem = FakeModem::default();
    send_and_ack(&mut db, "+98912", "hi", 42, None, &mut modem, &mut tg, true)
        .unwrap();
    assert!(tg.reactions.is_empty());
    assert_eq!(
        tg.posts.as_slice(),
        &[(42, SEND_ACK.into())]
    );
}

#[test]
fn send_and_ack_err_reacts_fail_and_replies_error() {
    let mut db = Db::open_in_memory().unwrap();
    let mut tg = FakeTg::new();
    let mut modem = FakeModem {
        fail: true,
        ..FakeModem::default()
    };
    let err = send_and_ack(&mut db, "+98912", "hi", 42, Some(7), &mut modem, &mut tg, true)
        .unwrap_err();
    assert!(matches!(err, ActionError::ModemFailed(_)));
    assert_eq!(
        tg.reactions.as_slice(),
        &[(7, SEND_PENDING.into()), (7, SEND_FAIL.into())]
    );
    assert_eq!(
        tg.replies.as_slice(),
        &[(42, "modem error: error".into(), 7)]
    );
    assert!(modem.deleted.is_empty());
}

#[test]
fn send_and_ack_err_posts_error_without_delete() {
    let mut db = Db::open_in_memory().unwrap();
    let mut tg = FakeTg::new();
    let mut modem = FakeModem {
        fail: true,
        ..FakeModem::default()
    };
    let err = send_and_ack(&mut db, "+98912", "hi", 42, None, &mut modem, &mut tg, true)
        .unwrap_err();
    assert!(matches!(err, ActionError::ModemFailed(_)));
    assert!(tg.reactions.is_empty());
    assert!(modem.deleted.is_empty());
    assert_eq!(
        tg.posts.as_slice(),
        &[(42, "modem error: error".into())]
    );
}

#[test]
fn send_and_ack_pending_react_fail_skips_modem() {
    let mut db = Db::open_in_memory().unwrap();
    let mut tg = FakeTg {
        fail: true,
        ..FakeTg::new()
    };
    let mut modem = FakeModem::default();
    let err = send_and_ack(&mut db, "+98912", "hi", 42, Some(7), &mut modem, &mut tg, true)
        .unwrap_err();
    assert!(matches!(
        err,
        ActionError::TelegramFailed { sent: false, .. }
    ));
    assert!(modem.sent.is_empty());
}


#[test]
fn send_failure_posts_error_keeps_going() {
    let mut db = Db::open_in_memory().unwrap();
    let id = db.upsert_contact("people/a", "Ali").unwrap();
    db.replace_contact_numbers(id, &["+989121234567".into()])
        .unwrap();
    db.upsert_topic(&Topic {
        thread_id: 42,
        contact_id: Some(id),
        default_e164: Some("+989121234567".into()),
        title: "Ali (4567)".into(),
        ignored: false,
    })
    .unwrap();
    let mut tg = FakeTg::new();
    let mut modem = FakeModem {
        fail: true,
        ..FakeModem::default()
    };
    handle_owner_text(&mut db, "IR", 42, "hello", Some(7), &mut modem, &mut tg, true)
        .unwrap();
    assert_eq!(
        tg.reactions.as_slice(),
        &[(7, SEND_PENDING.into()), (7, SEND_FAIL.into())]
    );
    let replies = &mut tg.replies;
    assert!(replies[0].1.contains("error"));
    assert_eq!(replies[0].2, 7);
}

#[test]
fn owner_text_two_numbers_asks_and_saves_pending() {
    let mut db = Db::open_in_memory().unwrap();
    let id = db.upsert_contact("people/a", "Ali").unwrap();
    db.replace_contact_numbers(id, &["+989188086139".into(), "+989025438263".into()])
        .unwrap();
    db.upsert_topic(&Topic {
        thread_id: 42,
        contact_id: Some(id),
        default_e164: None,
        title: "Ali".into(),
        ignored: false,
    })
    .unwrap();
    let mut tg = FakeTg::new();
    let mut modem = FakeModem::default();
    let out = handle_owner_text(&mut db, "IR", 42, "hello", Some(7), &mut modem, &mut tg, true)
        .unwrap();
    assert_eq!(
        out,
        OwnerTextOutcome::NeedNumber(vec!["+989188086139".into(), "+989025438263".into()])
    );
    assert!(modem.sent.is_empty());
    assert!(tg.posts.is_empty());
    assert_eq!(
        db.take_pending_outbound(42).unwrap(),
        Some(("hello".into(), Some(7)))
    );
}

#[test]
fn owner_text_send_ok_deletes_path() {
    let mut db = Db::open_in_memory().unwrap();
    let id = db.upsert_contact("people/a", "Ali").unwrap();
    db.replace_contact_numbers(id, &["+989121234567".into()])
        .unwrap();
    db.upsert_topic(&Topic {
        thread_id: 42,
        contact_id: Some(id),
        default_e164: Some("+989121234567".into()),
        title: "Ali (4567)".into(),
        ignored: false,
    })
    .unwrap();
    let mut tg = FakeTg::new();
    let mut modem = FakeModem::default();
    handle_owner_text(&mut db, "IR", 42, "hello", None, &mut modem, &mut tg, true)
        .unwrap();
    assert_eq!(
        modem.deleted.as_slice(),
        &["/fake/sms/1".into()] as &[String]
    );
}

#[test]
fn owner_text_send_err_does_not_delete() {
    let mut db = Db::open_in_memory().unwrap();
    let id = db.upsert_contact("people/a", "Ali").unwrap();
    db.replace_contact_numbers(id, &["+989121234567".into()])
        .unwrap();
    db.upsert_topic(&Topic {
        thread_id: 42,
        contact_id: Some(id),
        default_e164: Some("+989121234567".into()),
        title: "Ali (4567)".into(),
        ignored: false,
    })
    .unwrap();
    let mut tg = FakeTg::new();
    let mut modem = FakeModem {
        fail: true,
        ..FakeModem::default()
    };
    handle_owner_text(&mut db, "IR", 42, "hello", None, &mut modem, &mut tg, true)
        .unwrap();
    assert!(modem.deleted.is_empty());
}

#[test]
fn owner_text_disabled_does_not_delete() {
    let mut db = Db::open_in_memory().unwrap();
    let id = db.upsert_contact("people/a", "Ali").unwrap();
    db.replace_contact_numbers(id, &["+989121234567".into()])
        .unwrap();
    db.upsert_topic(&Topic {
        thread_id: 42,
        contact_id: Some(id),
        default_e164: Some("+989121234567".into()),
        title: "Ali (4567)".into(),
        ignored: false,
    })
    .unwrap();
    let mut tg = FakeTg::new();
    let mut modem = FakeModem::default();
    handle_owner_text(&mut db, "IR", 42, "hello", None, &mut modem, &mut tg, false)
        .unwrap();
    assert!(modem.sent.len() == 1);
    assert!(modem.deleted.is_empty());
}

fn sample_inbound(path: &str) -> IncomingSms {
    IncomingSms {
        path: path.into(),
        e164: "09121234567".into(),
        text: "hi".into(),
        inbound: true,
        timestamp: chrono::Utc::now().to_rfc3339(),
    }
}

#[test]
fn maybe_delete_noop_when_disabled_or_empty() {
    let mut m = FakeModem::default();
    maybe_delete(false, &mut m, "/sms/1");
    maybe_delete(true, &mut m, "");
    assert!(m.deleted.is_empty());
}

#[test]
fn maybe_delete_records_path_and_swallows_error() {
    let mut m = FakeModem::default();
    maybe_delete(true, &mut m, "/sms/1");
    assert_eq!(
        m.deleted.as_slice(),
        &["/sms/1".into()] as &[String]
    );
    let mut m = FakeModem {
        delete_fail: true,
        ..FakeModem::default()
    };
    maybe_delete(true, &mut m, "/sms/1"); // must not panic
}

#[test]
fn incoming_ok_deletes() {
    let mut db = Db::open_in_memory().unwrap();
    let id = db.upsert_contact("people/a", "Ali").unwrap();
    db.replace_contact_numbers(id, &["+989121234567".into()])
        .unwrap();
    let mut tg = FakeTg::new();
    let mut modem = FakeModem::default();
    handle_incoming_then_delete(&mut db, "IR", sample_inbound("/sms/1"), &mut tg, &mut modem, true)
        .unwrap();
    assert_eq!(
        modem.deleted.as_slice(),
        &["/sms/1".into()] as &[String]
    );
}

#[test]
fn incoming_seen_still_deletes() {
    let mut db = Db::open_in_memory().unwrap();
    let id = db.upsert_contact("people/a", "Ali").unwrap();
    db.replace_contact_numbers(id, &["+989121234567".into()])
        .unwrap();
    let mut tg = FakeTg::new();
    let mut modem = FakeModem::default();
    let sms = sample_inbound("/sms/1");
    handle_incoming_then_delete(&mut db, "IR", sms.clone(), &mut tg, &mut modem, true)
        .unwrap();
    handle_incoming_then_delete(&mut db, "IR", sms, &mut tg, &mut modem, true)
        .unwrap();
    assert_eq!(tg.posts.len(), 1);
    assert_eq!(
        modem.deleted.as_slice(),
        &["/sms/1".into(), "/sms/1".into()] as &[String]
    );
}

#[test]
fn incoming_stale_skip_deletes() {
    let mut db = Db::open_in_memory().unwrap();
    let mut tg = FakeTg::new();
    let mut modem = FakeModem::default();
    handle_incoming_then_delete(&mut db,
        "IR",
        IncomingSms {
            path: "/sms/old".into(),
            e164: "+989120000002".into(),
            text: "old".into(),
            inbound: true,
            timestamp: "2024-12-21T15:12:23+03:30".into(),
        },
        &mut tg,
        &mut modem,
        true,
    )
    .unwrap();
    assert!(tg.posts.is_empty());
    assert_eq!(
        modem.deleted.as_slice(),
        &["/sms/old".into()] as &[String]
    );
}

#[test]
fn incoming_outbound_echo_deletes() {
    let mut db = Db::open_in_memory().unwrap();
    let mut tg = FakeTg::new();
    let mut modem = FakeModem::default();
    handle_incoming_then_delete(&mut db,
        "IR",
        IncomingSms {
            path: "/sms/out".into(),
            e164: "+98912".into(),
            text: "x".into(),
            inbound: false,
            timestamp: "".into(),
        },
        &mut tg,
        &mut modem,
        true,
    )
    .unwrap();
    assert_eq!(
        modem.deleted.as_slice(),
        &["/sms/out".into()] as &[String]
    );
}

#[test]
fn incoming_telegram_fail_does_not_delete() {
    let mut db = Db::open_in_memory().unwrap();
    let id = db.upsert_contact("people/a", "Ali").unwrap();
    db.replace_contact_numbers(id, &["+989121234567".into()])
        .unwrap();
    db.upsert_topic(&Topic {
        thread_id: 42,
        contact_id: Some(id),
        default_e164: Some("+989121234567".into()),
        title: "Ali (4567)".into(),
        ignored: false,
    })
    .unwrap();
    let mut tg = FakeTg {
        fail: true,
        ..FakeTg::new()
    };
    let mut modem = FakeModem::default();
    assert!(handle_incoming_then_delete(&mut db,
        "IR",
        sample_inbound("/sms/1"),
        &mut tg,
        &mut modem,
        true
    )
    .is_err());
    assert!(modem.deleted.is_empty());
    assert!(!db.seen_sms_path("/sms/1").unwrap());
}

#[test]
fn incoming_empty_text_does_not_post_or_delete() {
    let mut db = Db::open_in_memory().unwrap();
    let id = db.upsert_contact("people/a", "Ali").unwrap();
    db.replace_contact_numbers(id, &["+989121234567".into()])
        .unwrap();
    db.upsert_topic(&Topic {
        thread_id: 42,
        contact_id: Some(id),
        default_e164: Some("+989121234567".into()),
        title: "Ali (4567)".into(),
        ignored: false,
    })
    .unwrap();
    let mut tg = FakeTg::new();
    let mut modem = FakeModem::default();
    let sms = IncomingSms {
        path: "/sms/empty".into(),
        e164: "09121234567".into(),
        text: String::new(),
        inbound: true,
        timestamp: chrono::Utc::now().to_rfc3339(),
    };
    handle_incoming_then_delete(&mut db, "IR", sms, &mut tg, &mut modem, true)
        .unwrap();
    assert!(tg.posts.is_empty());
    assert!(modem.deleted.is_empty());
    assert!(!db.seen_sms_path("/sms/empty").unwrap());
}

#[test]
fn incoming_disabled_does_not_delete() {
    let mut db = Db::open_in_memory().unwrap();
    let id = db.upsert_contact("people/a", "Ali").unwrap();
    db.replace_contact_numbers(id, &["+989121234567".into()])
        .unwrap();
    let mut tg = FakeTg::new();
    let mut modem = FakeModem::default();
    handle_incoming_then_delete(&mut db, "IR", sample_inbound("/sms/1"), &mut tg, &mut modem, false)
        .unwrap();
    assert!(modem.deleted.is_empty());
}

fn sweep_now() -> UtcTime {
    let now = chrono::DateTime::parse_from_rfc3339("2026-08-19T12:00:00+00:00").unwrap();
    UtcTime {
        secs: now.timestamp(),
        nanos: now.timestamp_subsec_nanos(),
    }
}

fn sweep_sms(inbound: bool, ts: &str) -> IncomingSms {
    IncomingSms {
        path: "/sms/x".into(),
        e164: "+98912".into(),
        text: "hi".into(),
        inbound,
        timestamp: ts.into(),
    }
}

#[test]
fn sweep_action_table() {
    let now = sweep_now();
    let max: u64 = 30 * 86400;
    let win: u64 = 24 * 3600;
    let cases: &[(&str, IncomingSms, bool, SweepAction)] = &[
        (
            "unmarked inbound 1h",
            sweep_sms(true, "2026-08-19T11:00:00+00:00"),
            false,
            SweepAction::Keep,
        ),
        (
            "unmarked inbound no ts",
            sweep_sms(true, ""),
            false,
            SweepAction::Keep,
        ),
        (
            "unmarked inbound 2d",
            sweep_sms(true, "2026-08-17T12:00:00+00:00"),
            false,
            SweepAction::Keep,
        ),
        (
            "unmarked inbound 40d",
            sweep_sms(true, "2026-07-10T12:00:00+00:00"),
            false,
            SweepAction::Delete,
        ),
        (
            "seen inbound no ts",
            sweep_sms(true, ""),
            true,
            SweepAction::Delete,
        ),
        (
            "outbound no ts",
            sweep_sms(false, ""),
            false,
            SweepAction::Delete,
        ),
        (
            "outbound 40d",
            sweep_sms(false, "2026-07-10T12:00:00+00:00"),
            false,
            SweepAction::Delete,
        ),
        (
            "seen inbound 1h",
            sweep_sms(true, "2026-08-19T11:00:00+00:00"),
            true,
            SweepAction::Keep,
        ),
        (
            "outbound 1h",
            sweep_sms(false, "2026-08-19T11:00:00+00:00"),
            false,
            SweepAction::Keep,
        ),
    ];
    for (name, sms, seen, want) in cases {
        assert_eq!(sweep_action(sms, *seen, now, max, win), *want, "{name}");
    }
}

#[test]
fn sweep_action_max_age_zero_keeps_fresh_unmarked() {
    let now = sweep_now();
    let max: u64 = 0;
    let win: u64 = 24 * 3600;
    assert_eq!(
        sweep_action(
            &sweep_sms(true, "2026-08-19T11:00:00+00:00"),
            false,
            now,
            max,
            win
        ),
        SweepAction::Keep
    );
    assert_eq!(
        sweep_action(
            &sweep_sms(false, "2026-08-19T11:00:00+00:00"),
            false,
            now,
            max,
            win
        ),
        SweepAction::Delete
    );
}

#[test]
fn watch_modem_posts_offline_and_stops_on_cancel() {
    let mut tg = FakeTg::new();
    let modem = FakeModem::default();
    let mut presence = Presence::new();
    for _ in 0..3 {
        if let Some(event) = presence.observe(modem.snapshot().is_ok()) {
            tg.post(GENERAL_THREAD, presence_text(event).to_string())
                .unwrap();
        }
    }
    assert_eq!(
        tg.posts.as_slice(),
        &[(GENERAL_THREAD, "modem offline".into())]
    );
}

#[test]
fn watch_inbox_processes_existing_then_stops_on_cancel() {
    let mut db = Db::open_in_memory().unwrap();
    let mut tg = FakeTg::new();
    let mut modem = FakeModem {
        listed: vec![IncomingSms {
            path: "/sms/1".into(),
            e164: "+989120000001".into(),
            text: "hi".into(),
            inbound: true,
            timestamp: chrono::Utc::now().to_rfc3339(),
        }],
        ..FakeModem::default()
    };
    let (state, action) = watch_inbox(InboxState::Subscribing, InboxEvent::Subscribed);
    assert_eq!(action, InboxAction::Drain);
    for sms in modem.list_sms().unwrap() {
        handle_incoming_then_delete(&mut db, "IR", sms, &mut tg, &mut modem, true).unwrap();
    }
    let (state, action) = watch_inbox(state, InboxEvent::Cancelled);
    assert_eq!(action, InboxAction::Stop);
    assert_eq!(state, InboxState::Stopped);
    assert_eq!(
        tg.posts.as_slice(),
        &[(1, "+989120000001\nhi".into())]
    );
    assert_eq!(
        modem.deleted.as_slice(),
        &["/sms/1".into()] as &[String]
    );
}
