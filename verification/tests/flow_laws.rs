use telesms_bot::actions::numbers::{choose_number, describe, ignore_resolved, numbers_for};
use telesms_bot::actions::open::open_resolved;
use telesms_bot::actions::sms::send_resolved;
use telesms_bot::actions::{
    ignore, list_numbers, open_topic, resolve, send_sms, set_default_number, who, ActionError,
    Identity, ResolveMode, Resolved,
};
use telesms_bot::app::fake::FakeTg;
use telesms_bot::app::incoming::{receive, IncomingFlow};
use telesms_bot::app::owner::owner_text_next;
use telesms_bot::app::presence::{InboxAction, InboxEvent, InboxState};
use telesms_bot::app::send::SendJob;
use telesms_bot::app::sweep::{is_over_a_day, parse_sms_timestamp, sweep_by_age};
use telesms_bot::app::{
    handle_incoming, handle_owner_text, maybe_delete, send_and_ack, sweep_old_sms, watch_inbox,
    AppError, Effect, Outcome, OwnerTextOutcome, Presence, Step, SweepAction, SEND_ACK, SEND_FAIL,
    SEND_PENDING,
};
use telesms_bot::clock::{Elapsed, Moment, UtcTime};
use telesms_bot::db::{Contact, Db, PendingForwardMode, Topic};
use telesms_bot::google::TokenCache;
use telesms_bot::modem::{FakeModem, IncomingSms};
use telesms_bot::normalize::NormalizeError;
use telesms_bot::route::GENERAL_THREAD;
use telesms_bot::telegram::handlers::{
    handle_num_callback, handle_pending_forward_text, ForwardText,
};

/// Does what a flow asks for, with the remembering Telegram and modem.
fn perform(effect: Effect, tg: &mut FakeTg, modem: &mut FakeModem) -> Outcome {
    match effect {
        Effect::Post { thread_id, text } => said(tg.post(thread_id, text)),
        Effect::Reply {
            thread_id,
            text,
            reply_to,
        } => said(tg.reply(thread_id, text, reply_to)),
        Effect::React { message_id, emoji } => said(tg.react(message_id, &emoji)),
        Effect::CreateTopic { title } => match tg.create_topic(title) {
            Ok(id) => Outcome::Created(id),
            Err(e) => Outcome::TelegramFailed(e),
        },
        Effect::SendSms { e164, text } => match modem.send(&e164, &text) {
            Ok(path) => Outcome::Sent(path),
            Err(e) => Outcome::ModemFailed(e),
        },
        Effect::DeleteSms { path } => match modem.delete(&path) {
            Ok(()) => Outcome::Done,
            Err(e) => Outcome::ModemFailed(e),
        },
    }
}

fn said(result: Result<(), AppError>) -> Outcome {
    match result {
        Ok(()) => Outcome::Done,
        Err(e) => Outcome::TelegramFailed(e),
    }
}

fn now_text() -> String {
    chrono::Utc::now().to_rfc3339()
}

const NUMBER: &str = "+989121234567";

fn sms(path: &str, e164: &str, text: &str, timestamp: &str) -> IncomingSms {
    IncomingSms {
        path: path.to_string(),
        e164: e164.to_string(),
        text: text.to_string(),
        inbound: true,
        timestamp: timestamp.to_string(),
    }
}

fn finish(
    mut step: Step<IncomingFlow, Result<(), AppError>>,
    db: &mut Db,
    tg: &mut FakeTg,
    modem: &mut FakeModem,
) -> Result<(), AppError> {
    loop {
        match step {
            Step::Do(effect, flow) => {
                let outcome = perform(effect, tg, modem);
                step = flow.next(db, outcome, &now_text());
            }
            Step::End(result) => return result,
        }
    }
}

fn db_with_contact(numbers: &[&str]) -> (Db, i64) {
    let mut db = Db::open_in_memory().unwrap();
    let id = db.upsert_contact("people/a", "Ali").unwrap();
    let numbers: Vec<String> = numbers.iter().map(|n| n.to_string()).collect();
    db.replace_contact_numbers(id, &numbers).unwrap();
    (db, id)
}

fn add_topic(db: &mut Db, thread_id: i32, contact_id: Option<i64>, default: Option<&str>) {
    db.upsert_topic(&Topic {
        thread_id,
        contact_id,
        default_e164: default.map(str::to_string),
        title: "Ali".to_string(),
        ignored: false,
    })
    .unwrap();
}

#[test]
fn message_is_shown_once() {
    let mut db = Db::open_in_memory().unwrap();
    let mut tg = FakeTg::new();
    let mut modem = FakeModem::default();
    for path in ["/sms/1", "/sms/1"] {
        let step = receive(
            &mut db,
            sms(path, "0912", "hi", ""),
            Ok(NUMBER.to_string()),
            false,
            true,
            "2026-07-01T10:00:00+00:00",
        );
        finish(step, &mut db, &mut tg, &mut modem).unwrap();
    }
    assert_eq!(tg.posts, vec![(GENERAL_THREAD, format!("{NUMBER}\nhi"))]);
    assert_eq!(modem.deleted, vec!["/sms/1", "/sms/1"]);
}

#[test]
fn message_under_a_new_path_is_not_shown_again() {
    let mut db = Db::open_in_memory().unwrap();
    let mut tg = FakeTg::new();
    let mut modem = FakeModem::default();
    for path in ["/sms/1", "/sms/7"] {
        let step = receive(
            &mut db,
            sms(path, "0912", "hi", "2026-07-01T10:00:00+03:30"),
            Ok(NUMBER.to_string()),
            false,
            false,
            "now",
        );
        finish(step, &mut db, &mut tg, &mut modem).unwrap();
    }
    assert_eq!(tg.posts.len(), 1);
    assert!(modem.deleted.is_empty());
}

#[test]
fn incoming_new_message_on_recycled_path_delivers_once_and_deletes() {
    let mut db = Db::open_in_memory().unwrap();
    let mut tg = FakeTg::new();
    let mut modem = FakeModem::default();
    db.record_inbound("/sms/1", "+981", "old", None, "2026-06-01T00:00:00+00:00", 1)
        .unwrap();
    for _ in 0..2 {
        let step = receive(
            &mut db,
            sms("/sms/1", "0912", "new", "2026-07-01T10:00:00+00:00"),
            Ok(NUMBER.to_string()),
            false,
            true,
            "now",
        );
        finish(step, &mut db, &mut tg, &mut modem).unwrap();
    }
    assert_eq!(tg.posts, vec![(GENERAL_THREAD, format!("{NUMBER}\nnew"))]);
    assert_eq!(modem.deleted, vec!["/sms/1", "/sms/1"]);
    assert_eq!(db.inbound_rows().len(), 1);
    assert_eq!(db.inbound_rows()[0].body, "new");
}

#[test]
fn stale_message_is_recorded_and_never_shown() {
    let (mut db, id) = db_with_contact(&[NUMBER]);
    add_topic(&mut db, 9, Some(id), Some(NUMBER));
    let mut tg = FakeTg::new();
    let mut modem = FakeModem::default();
    let step = receive(
        &mut db,
        sms("/sms/1", "0912", "hi", "long ago"),
        Ok(NUMBER.to_string()),
        true,
        true,
        "now",
    );
    finish(step, &mut db, &mut tg, &mut modem).unwrap();
    assert!(tg.posts.is_empty());
    assert_eq!(db.inbound_thread_id("/sms/1").unwrap(), Some(9));
    assert_eq!(modem.deleted, vec!["/sms/1"]);
    let again = receive(
        &mut db,
        sms("/sms/1", "0912", "hi", "long ago"),
        Ok(NUMBER.to_string()),
        false,
        true,
        "now",
    );
    finish(again, &mut db, &mut tg, &mut modem).unwrap();
    assert!(tg.posts.is_empty());
}

#[test]
fn refused_message_stays_news() {
    let mut db = Db::open_in_memory().unwrap();
    let mut tg = FakeTg::new();
    let mut modem = FakeModem::default();
    tg.fail = true;
    let now = Moment::now();
    let step = handle_incoming(&mut db, "IR", sms("/sms/1", NUMBER, "hi", ""), true, &now);
    let err = finish(step, &mut db, &mut tg, &mut modem).unwrap_err();
    assert_eq!(err.message(), "telegram: fail");
    assert!(!db.seen_sms_path("/sms/1").unwrap());
    assert!(modem.deleted.is_empty());
    tg.fail = false;
    let step = handle_incoming(&mut db, "IR", sms("/sms/1", NUMBER, "hi", ""), true, &now);
    finish(step, &mut db, &mut tg, &mut modem).unwrap();
    assert_eq!(tg.posts.len(), 1);
    assert_eq!(modem.deleted, vec!["/sms/1"]);
}

#[test]
fn unreadable_sender_is_shown_in_general_and_known_as_it_is() {
    let mut db = Db::open_in_memory().unwrap();
    let mut tg = FakeTg::new();
    let mut modem = FakeModem::default();
    let raw = NormalizeError::Invalid {
        raw: "BANK".to_string(),
    };
    let step = receive(
        &mut db,
        sms("/sms/1", "BANK", "code 1", "t"),
        Err(raw),
        false,
        false,
        "now",
    );
    finish(step, &mut db, &mut tg, &mut modem).unwrap();
    assert_eq!(tg.posts, vec![(GENERAL_THREAD, "BANK\ncode 1".to_string())]);
    assert!(db.seen_sms("/sms/2", "BANK", "code 1", "t").unwrap());
}

#[test]
fn own_messages_are_only_deleted() {
    let mut db = Db::open_in_memory().unwrap();
    let mut own = sms("/sms/1", NUMBER, "hi", "");
    own.inbound = false;
    match receive(&mut db, own, Ok(NUMBER.to_string()), false, true, "now") {
        Step::Do(Effect::DeleteSms { path }, _) => assert_eq!(path, "/sms/1"),
        _ => panic!("expected a deletion"),
    }
    assert!(!db.seen_sms_path("/sms/1").unwrap());
    assert!(maybe_delete(true, "").is_none());
    assert!(maybe_delete(false, "/sms/1").is_none());
    assert!(maybe_delete(true, "/sms/1").is_some());
}

fn job(reply_to: Option<i32>) -> SendJob {
    SendJob {
        e164: NUMBER.to_string(),
        text: "hi".to_string(),
        thread_id: 9,
        reply_to,
        delete_enabled: true,
    }
}

fn run_send(
    job: SendJob,
    db: &mut Db,
    tg: &mut FakeTg,
    modem: &mut FakeModem,
) -> Result<(), ActionError> {
    let mut step = send_and_ack(job);
    loop {
        match step {
            Step::Do(effect, flow) => {
                let outcome = perform(effect, tg, modem);
                step = flow.next(db, outcome, "now");
            }
            Step::End(result) => return result,
        }
    }
}

#[test]
fn unmarked_message_is_not_sent() {
    let mut db = Db::open_in_memory().unwrap();
    let mut tg = FakeTg::new();
    let mut modem = FakeModem::default();
    tg.fail = true;
    let err = run_send(job(Some(5)), &mut db, &mut tg, &mut modem).unwrap_err();
    assert!(matches!(
        err,
        ActionError::TelegramFailed { sent: false, .. }
    ));
    assert!(modem.sent.is_empty());
    assert!(db.outbound_rows().is_empty());
}

#[test]
fn every_attempt_is_recorded_and_copies_go_after_success() {
    let mut db = Db::open_in_memory().unwrap();
    let mut tg = FakeTg::new();
    let mut modem = FakeModem::default();
    run_send(job(None), &mut db, &mut tg, &mut modem).unwrap();
    assert_eq!(db.outbound_rows()[0].result, "ok");
    assert_eq!(db.outbound_rows()[0].thread_id, Some(9));
    assert_eq!(tg.posts, vec![(9, SEND_ACK.to_string())]);
    assert_eq!(modem.deleted.len(), 1);
    modem.fail = true;
    let err = run_send(job(Some(5)), &mut db, &mut tg, &mut modem).unwrap_err();
    assert!(matches!(err, ActionError::ModemFailed(_)));
    assert_eq!(db.outbound_rows().len(), 2);
    assert_eq!(db.outbound_rows()[1].result, err.message());
    assert_eq!(
        tg.reactions,
        vec![(5, SEND_PENDING.to_string()), (5, SEND_FAIL.to_string())]
    );
    assert_eq!(tg.replies, vec![(9, err.message(), 5)]);
    assert_eq!(modem.sent.len(), 1);
    assert_eq!(modem.deleted.len(), 1);
}

#[test]
fn success_that_cannot_be_shown_says_it_was_sent() {
    let mut db = Db::open_in_memory().unwrap();
    let mut tg = FakeTg::new();
    let mut modem = FakeModem::default();
    tg.fail = true;
    let err = run_send(job(None), &mut db, &mut tg, &mut modem).unwrap_err();
    assert!(matches!(err, ActionError::TelegramFailed { sent: true, .. }));
    assert_eq!(db.outbound_rows()[0].result, "ok");
    assert!(modem.deleted.is_empty());
}

#[test]
fn text_waits_for_its_number_and_commands_go_nowhere() {
    let (mut db, id) = db_with_contact(&["+981", "+982"]);
    add_topic(&mut db, 9, Some(id), None);
    match handle_owner_text(&mut db, "IR", 9, "hello", Some(4), true) {
        Step::End(Ok(OwnerTextOutcome::NeedNumber(numbers))) => {
            assert_eq!(numbers, vec!["+981", "+982"])
        }
        _ => panic!("expected a choice"),
    }
    assert!(matches!(
        handle_owner_text(&mut db, "IR", 9, "/who", None, true),
        Step::End(Ok(OwnerTextOutcome::Done))
    ));
    assert_eq!(
        db.take_pending_outbound(9).unwrap(),
        Some(("hello".to_string(), Some(4)))
    );
    db.set_default_number(9, "+982").unwrap();
    match handle_owner_text(&mut db, "IR", 9, "hello", None, true) {
        Step::Do(Effect::SendSms { e164, text }, flow) => {
            assert_eq!((e164.as_str(), text.as_str()), ("+982", "hello"));
            let next = owner_text_next(flow, &mut db, Outcome::Sent("/s".to_string()), "now");
            assert!(matches!(next, Step::Do(Effect::Post { thread_id: 9, .. }, _)));
        }
        _ => panic!("expected to send"),
    }
}

fn ident(number: Option<&str>, contact_id: Option<i64>, thread_id: Option<i32>) -> Identity {
    Identity {
        number: number.map(str::to_string),
        contact_id,
        thread_id,
    }
}

#[test]
fn resolved_agrees_with_every_field() {
    let (mut db, id) = db_with_contact(&[NUMBER]);
    add_topic(&mut db, 9, Some(id), Some(NUMBER));
    let other = db.upsert_contact("people/b", "Bea").unwrap();
    add_topic(&mut db, 12, Some(other), None);
    let r = resolve(
        &db,
        "IR",
        &ident(Some("0912 123 4567"), Some(id), Some(9)),
        ResolveMode::RequireTopic,
    )
    .unwrap();
    assert_eq!(r.e164.as_deref(), Some(NUMBER));
    assert_eq!(r.topic.unwrap().thread_id, 9);
    assert_eq!(r.contact.unwrap().id, id);
    let conflict = |i: Identity| {
        matches!(
            resolve(&db, "IR", &i, ResolveMode::AllowBareNumber),
            Err(ActionError::IdentityConflict)
        )
    };
    assert!(conflict(ident(Some(NUMBER), Some(other), None)));
    assert!(conflict(ident(Some(NUMBER), None, Some(12))));
    assert!(conflict(ident(None, Some(id), Some(12))));
}

#[test]
fn chosen_number_is_used_and_foreign_ones_are_refused() {
    let (mut db, id) = db_with_contact(&["+989121234567", "+989127654321"]);
    add_topic(&mut db, 9, Some(id), None);
    let whom = ident(None, Some(id), None);
    match set_default_number(&mut db, "IR", &whom, "0912 765 4321") {
        Step::Do(Effect::Post { thread_id, text }, told) => {
            assert_eq!(thread_id, 9);
            assert_eq!(text, "default is +989127654321");
            match told.next(Outcome::Done) {
                Step::End(Ok(state)) => {
                    assert_eq!(state.default_e164.as_deref(), Some("+989127654321"))
                }
                _ => panic!("expected the state"),
            }
        }
        _ => panic!("expected a post"),
    }
    let nine = db.get_topic_by_thread(9).unwrap().unwrap();
    assert_eq!(nine.default_e164.as_deref(), Some("+989127654321"));
    assert!(matches!(
        set_default_number(&mut db, "IR", &whom, "+15550100123"),
        Step::End(Err(ActionError::Validation(_))) | Step::End(Err(ActionError::InvalidNumber(_)))
    ));
    assert!(matches!(
        set_default_number(&mut db, "IR", &whom, "x"),
        Step::End(Err(ActionError::InvalidNumber(_)))
    ));
    let state = list_numbers(&db, "IR", &whom).unwrap();
    assert_eq!(state.numbers.len(), 2);
    assert_eq!(who(&db, "IR", &whom).unwrap().display_name, "Ali");
}

fn resolved(topic: bool, numbers: &[&str], e164: Option<&str>) -> Resolved {
    Resolved {
        contact: Some(Contact {
            id: 1,
            google_resource: "people/a".to_string(),
            display_name: "Ali".to_string(),
            numbers: numbers.iter().map(|n| n.to_string()).collect(),
            ambiguous: true,
        }),
        topic: if topic {
            Some(Topic {
                thread_id: 9,
                contact_id: Some(1),
                default_e164: Some("+981".to_string()),
                title: "Ali".to_string(),
                ignored: false,
            })
        } else {
            None
        },
        e164: e164.map(str::to_string),
    }
}

#[test]
fn resolved_topics_are_described_and_changed() {
    let w = describe(&resolved(true, &[], None)).unwrap();
    assert_eq!(w.numbers, vec!["+981"]);
    assert!(w.ambiguous);
    assert!(matches!(
        describe(&resolved(false, &[], None)),
        Err(ActionError::NotFound(_))
    ));
    assert_eq!(
        numbers_for(&resolved(true, &["+982", "+983"], None)).unwrap().numbers,
        vec!["+982", "+983"]
    );
    let (mut db, id) = db_with_contact(&["+982"]);
    add_topic(&mut db, 9, Some(id), Some("+981"));
    assert!(matches!(
        choose_number(&mut db, resolved(true, &["+982"], None), Ok("+999".to_string())),
        Step::End(Err(ActionError::Validation(_)))
    ));
    assert!(matches!(
        choose_number(&mut db, resolved(true, &["+982"], None), Err(NormalizeError::Empty)),
        Step::End(Err(ActionError::InvalidNumber(_)))
    ));
    assert!(matches!(
        choose_number(&mut db, resolved(true, &["+982"], None), Ok("+982".to_string())),
        Step::Do(Effect::Post { thread_id: 9, .. }, _)
    ));
    let nine = db.get_topic_by_thread(9).unwrap().unwrap();
    assert_eq!(nine.default_e164.as_deref(), Some("+982"));
}

#[test]
fn ignoring_silences_every_number() {
    let (mut db, id) = db_with_contact(&["+981", "+982"]);
    add_topic(&mut db, 9, Some(id), None);
    match ignore(&mut db, "IR", &ident(None, Some(id), None)) {
        Step::Do(Effect::Post { thread_id, text }, told) => {
            assert_eq!((thread_id, text.as_str()), (9, "ignored +981, +982"));
            match told.finish(Outcome::TelegramFailed(AppError::Telegram("x".to_string()))) {
                Step::End(Err(ActionError::TelegramFailed { sent, message })) => {
                    assert!(!sent);
                    assert_eq!(message, "telegram: x");
                }
                _ => panic!("expected the failure"),
            }
        }
        _ => panic!("expected a post"),
    }
    assert!(db.is_ignored("+981").unwrap() && db.is_ignored("+982").unwrap());
    match ignore_resolved(&mut db, true, resolved(false, &[], Some("+985"))) {
        Step::End(Ok(numbers)) => assert_eq!(numbers, vec!["+985"]),
        _ => panic!("expected no post"),
    }
    assert!(db.is_ignored("+985").unwrap());
    assert!(matches!(
        ignore_resolved(&mut db, true, resolved(true, &["+986"], None)),
        Step::End(Err(ActionError::MissingIdentity))
    ));
    assert!(matches!(
        ignore_resolved(&mut db, false, resolved(false, &[], None)),
        Step::End(Err(ActionError::Validation(_)))
    ));
}

#[test]
fn opening_creates_a_topic_once() {
    let (mut db, id) = db_with_contact(&["+989121234567"]);
    let mut tg = FakeTg::new();
    let mut modem = FakeModem::default();
    let whom = ident(None, Some(id), None);
    for created in [true, false] {
        let mut step = open_topic(&db, "IR", &whom);
        let opened = loop {
            match step {
                Step::Do(effect, flow) => {
                    let outcome = perform(effect, &mut tg, &mut modem);
                    step = flow.next(&mut db, outcome);
                }
                Step::End(result) => break result.unwrap(),
            }
        };
        assert_eq!(opened.created, created);
        assert_eq!(opened.thread_id, 100);
        assert_eq!(opened.title, "Ali (4567)");
    }
    match open_resolved(resolved(false, &["+981", "+982"], None)) {
        Step::Do(Effect::CreateTopic { title }, opening) => {
            assert_eq!(title, "Ali");
            assert!(opening.default_e164.is_none());
        }
        _ => panic!("expected a creation"),
    }
    let nobody = Resolved {
        contact: None,
        topic: None,
        e164: Some("+985".to_string()),
    };
    match open_resolved(nobody) {
        Step::Do(Effect::CreateTopic { title }, opening) => {
            assert_eq!(title, "+985");
            assert_eq!(opening.default_e164.as_deref(), Some("+985"));
        }
        _ => panic!("expected a creation"),
    }
    let nothing = Resolved {
        contact: None,
        topic: None,
        e164: None,
    };
    assert!(matches!(
        open_resolved(nothing),
        Step::End(Err(ActionError::MissingIdentity))
    ));
}

#[test]
fn message_to_a_contact_needs_one_number() {
    let (mut db, id) = db_with_contact(&["+981", "+982"]);
    add_topic(&mut db, 9, Some(id), None);
    let whom = ident(None, Some(id), None);
    match send_sms(&mut db, "IR", &whom, "hi", 1, None, false) {
        Step::End(Err(ActionError::NeedDefaultNumber { numbers })) => {
            assert_eq!(numbers, vec!["+981", "+982"])
        }
        _ => panic!("expected a choice"),
    }
    assert!(matches!(
        send_sms(&mut db, "IR", &whom, " \n", 1, None, false),
        Step::End(Err(ActionError::Validation(_)))
    ));
    db.ignore_number("+985").unwrap();
    let to = |e164: &str| Resolved {
        contact: None,
        topic: None,
        e164: Some(e164.to_string()),
    };
    match send_resolved(&mut db, to("+985"), job(None)) {
        Step::Do(Effect::SendSms { e164, .. }, _) => assert_eq!(e164, "+985"),
        _ => panic!("expected to send from the thread it came from"),
    }
    match send_resolved(&mut db, to("+986"), job(None)) {
        Step::Do(Effect::CreateTopic { title }, flow) => {
            assert_eq!(title, "+986");
            match flow.next(&mut db, Outcome::Created(55), "now") {
                Step::Do(Effect::SendSms { e164, text }, _) => {
                    assert_eq!((e164.as_str(), text.as_str()), ("+986", "hi"))
                }
                _ => panic!("expected to send"),
            }
        }
        _ => panic!("expected a topic"),
    }
    let fresh = db.get_topic_by_thread(55).unwrap().unwrap();
    assert_eq!(fresh.default_e164.as_deref(), Some("+986"));
}

#[test]
fn sweep_keeps_what_may_still_be_delivered() {
    let m = sms("/1", NUMBER, "hi", "");
    let day: u64 = 86400;
    assert_eq!(sweep_by_age(&m, false, Some(day - 1), 0, day), SweepAction::Keep);
    assert_eq!(sweep_by_age(&m, false, Some(day), 0, day), SweepAction::Delete);
    assert_eq!(sweep_by_age(&m, false, None, 0, day), SweepAction::Keep);
    assert_eq!(sweep_by_age(&m, true, None, 0, day), SweepAction::Delete);
    assert_eq!(sweep_by_age(&m, true, Some(10), 10, day), SweepAction::Keep);
    assert_eq!(sweep_by_age(&m, true, Some(11), 10, day), SweepAction::Delete);
    let stuck = sms("/1", NUMBER, "", "");
    assert_eq!(sweep_by_age(&stuck, false, Some(21600), 90 * day, day), SweepAction::Keep);
    assert_eq!(sweep_by_age(&stuck, false, Some(21601), 90 * day, day), SweepAction::Delete);
}

#[test]
fn sweep_lists_the_paths_that_go() {
    let mut db = Db::open_in_memory().unwrap();
    let old = "2026-06-01T00:00:00+00:00";
    db.record_inbound("/seen", NUMBER, "a", None, old, 1).unwrap();
    let new = "2026-07-01T00:00:00+00:00";
    let list = vec![
        sms("/seen", NUMBER, "a", old),
        sms("/unseen-old", NUMBER, "b", old),
        sms("/unseen-new", NUMBER, "c", new),
        sms("/untimed", NUMBER, "d", ""),
    ];
    let now = parse_sms_timestamp("2026-07-01T12:00:00+00").unwrap();
    assert_eq!(
        sweep_old_sms(&db, &list, now, 7 * 86400),
        vec!["/seen", "/unseen-old"]
    );
    assert!(sweep_old_sms(&db, &list, now, 60 * 86400).is_empty());
}

#[test]
fn day_is_over_only_past_its_last_nanosecond() {
    let e = |secs: i64, nanos: i32| is_over_a_day(Elapsed { secs, nanos });
    assert!(!e(86400, 0));
    assert!(e(86400, 1));
    assert!(!e(86399, 999_999_999));
    assert!(e(86401, 0));
    assert!(!e(-90000, 0));
    assert_eq!(
        parse_sms_timestamp("1970-01-01T03:30:01+03:30"),
        Some(UtcTime { secs: 1, nanos: 0 })
    );
    assert_eq!(
        parse_sms_timestamp("1970-01-01T03:00:01+03"),
        Some(UtcTime { secs: 1, nanos: 0 })
    );
    assert!(parse_sms_timestamp("yesterday").is_none());
    assert!(parse_sms_timestamp("").is_none());
}

#[test]
fn presence_changes_are_told_in_turn() {
    let mut p = Presence::new();
    let told: Vec<bool> = [true, false, false, true, true, false]
        .iter()
        .map(|present| p.observe(*present).is_some())
        .collect();
    assert_eq!(told, vec![false, true, false, true, false, true]);
}

#[test]
fn cancelled_watcher_stays_stopped() {
    let (state, action) = watch_inbox(InboxState::Listening, InboxEvent::Cancelled);
    assert_eq!(action, InboxAction::Stop);
    let (state, action) = watch_inbox(state, InboxEvent::Arrived);
    assert_eq!((state, action), (InboxState::Stopped, InboxAction::Stop));
    assert_eq!(
        watch_inbox(InboxState::Listening, InboxEvent::StreamEnded),
        (InboxState::Resting, InboxAction::Rest)
    );
    assert_eq!(
        watch_inbox(InboxState::Resting, InboxEvent::TimePassed),
        (InboxState::Subscribing, InboxAction::Subscribe)
    );
}

#[test]
fn waiting_text_is_sent_to_the_chosen_number() {
    let (mut db, id) = db_with_contact(&["+989121234567", "+989127654321"]);
    add_topic(&mut db, 9, Some(id), None);
    let mut tg = FakeTg::new();
    let mut modem = FakeModem::default();
    handle_owner_text(&mut db, "IR", 9, "hello", Some(4), false);
    let mut step = handle_num_callback(&mut db, "IR", 9, "+989127654321", true, false);
    loop {
        match step {
            Step::Do(effect, flow) => {
                let outcome = perform(effect, &mut tg, &mut modem);
                step = flow.next(&mut db, outcome, "now");
            }
            Step::End(result) => {
                result.unwrap();
                break;
            }
        }
    }
    assert_eq!(
        modem.sent,
        vec![("+989127654321".to_string(), "hello".to_string())]
    );
    assert_eq!(tg.posts, vec![(9, "default is +989127654321".to_string())]);
    assert_eq!(db.take_pending_outbound(9).unwrap(), None);
}

#[test]
fn waiting_dialogue_takes_the_next_text() {
    let mut db = Db::open_in_memory().unwrap();
    db.set_pending_forward(9, PendingForwardMode::Number, 1, 2).unwrap();
    assert!(matches!(
        handle_pending_forward_text(&mut db, "IR", 9, "0912 123 4567").unwrap(),
        ForwardText::Ask { .. }
    ));
    assert!(matches!(
        handle_pending_forward_text(&mut db, "IR", 9, "nobody").unwrap(),
        ForwardText::Refused { .. }
    ));
    assert!(matches!(
        handle_pending_forward_text(&mut db, "IR", 8, "hello").unwrap(),
        ForwardText::NotForUs
    ));
    assert!(db.get_pending_forward(9).unwrap().is_some());
    assert!(matches!(
        handle_pending_forward_text(&mut db, "IR", 9, "/forward").unwrap(),
        ForwardText::NotForUs
    ));
    assert!(db.get_pending_forward(9).unwrap().is_none());
}

#[test]
fn token_is_used_until_five_minutes_before_its_end() {
    let second: u64 = 1_000_000_000;
    let mut cache = TokenCache::new();
    cache.store_cached_token("t", 3600, 5);
    let last = 5 + 3300 * second - 1;
    assert_eq!(cache.cached_token(last).as_deref(), Some("t"));
    assert_eq!(cache.cached_token(last + 1), None);
    cache.invalidate_cached_token();
    assert_eq!(cache.cached_token(5), None);
}
