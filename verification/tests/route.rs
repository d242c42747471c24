use telesms_bot::db::{Db, Topic};
use telesms_bot::route::{
    plan_outbound, route_for_send, route_inbound, topic_title, InboundDest, OutboundPlan,
};

#[test]
fn ignored_number_goes_to_general() {
    let mut db = Db::open_in_memory().unwrap();
    db.ignore_number("+989120000000").unwrap();
    let d = route_inbound(&mut db, "+989120000000").unwrap();
    assert!(matches!(d, InboundDest::General { .. }));
}

#[test]
fn known_contact_without_topic_requests_create() {
    let mut db = Db::open_in_memory().unwrap();
    let id = db.upsert_contact("people/a", "Ali").unwrap();
    db.replace_contact_numbers(id, &["+989121234567".into()])
        .unwrap();
    match route_inbound(&mut db, "+989121234567").unwrap() {
        InboundDest::CreateContactTopic {
            contact_id,
            title,
            default_e164,
        } => {
            assert_eq!(contact_id, id);
            assert!(title.contains("Ali"));
            assert!(title.contains("4567"));
            assert_eq!(default_e164, "+989121234567");
        }
        _ => panic!("expected CreateContactTopic"),
    }
}

#[test]
fn existing_topic_and_number_switch_note() {
    let mut db = Db::open_in_memory().unwrap();
    let id = db.upsert_contact("people/a", "Ali").unwrap();
    let a = "+989120000001";
    let b = "+989120000002";
    db.replace_contact_numbers(id, &[a.into(), b.into()])
        .unwrap();
    db.upsert_topic(&Topic {
        thread_id: 42,
        contact_id: Some(id),
        default_e164: Some(a.into()),
        title: "Ali (0001)".into(),
        ignored: false,
    })
    .unwrap();
    match route_inbound(&mut db, b).unwrap() {
        InboundDest::ExistingTopic {
            thread_id,
            note_switch_to,
        } => {
            assert_eq!(thread_id, 42);
            assert_eq!(note_switch_to.as_deref(), Some(b));
        }
        _ => panic!("expected ExistingTopic"),
    }
}

#[test]
fn general_thread_is_not_sms() {
    let mut db = Db::open_in_memory().unwrap();
    assert!(matches!(
        plan_outbound(&mut db, 1).unwrap(),
        OutboundPlan::NotSms
    ));
}

#[test]
fn contact_topic_without_default_and_two_numbers_asks() {
    let mut db = Db::open_in_memory().unwrap();
    let id = db.upsert_contact("people/a", "Ali").unwrap();
    db.replace_contact_numbers(id, &["+989120000001".into(), "+989120000002".into()])
        .unwrap();
    db.upsert_topic(&Topic {
        thread_id: 42,
        contact_id: Some(id),
        default_e164: None,
        title: "Ali".into(),
        ignored: false,
    })
    .unwrap();
    match plan_outbound(&mut db, 42).unwrap() {
        OutboundPlan::AskWhichNumber {
            contact_id,
            numbers,
        } => {
            assert_eq!(contact_id, id);
            assert_eq!(numbers.len(), 2);
        }
        _ => panic!("expected AskWhichNumber"),
    }
}

#[test]
fn contact_topic_with_default_sends() {
    let mut db = Db::open_in_memory().unwrap();
    let id = db.upsert_contact("people/a", "Ali").unwrap();
    db.replace_contact_numbers(id, &["+989120000001".into()])
        .unwrap();
    db.upsert_topic(&Topic {
        thread_id: 42,
        contact_id: Some(id),
        default_e164: Some("+989120000001".into()),
        title: "Ali".into(),
        ignored: false,
    })
    .unwrap();
    match plan_outbound(&mut db, 42).unwrap() {
        OutboundPlan::Send { e164 } => assert_eq!(e164, "+989120000001"),
        _ => panic!("expected Send"),
    }
}

#[test]
fn topic_title_uses_last_four() {
    assert_eq!(topic_title("Ali", "+989121234567"), "Ali (4567)");
}

#[test]
fn route_for_send_does_not_change_default() {
    let mut db = Db::open_in_memory().unwrap();
    let id = db.upsert_contact("people/a", "Ali").unwrap();
    let a = "+989120000001";
    let b = "+989120000002";
    db.replace_contact_numbers(id, &[a.into(), b.into()])
        .unwrap();
    db.upsert_topic(&Topic {
        thread_id: 42,
        contact_id: Some(id),
        default_e164: Some(a.into()),
        title: "Ali (0001)".into(),
        ignored: false,
    })
    .unwrap();
    match route_for_send(&db, b).unwrap() {
        InboundDest::ExistingTopic {
            thread_id,
            note_switch_to,
        } => {
            assert_eq!(thread_id, 42);
            assert!(note_switch_to.is_none());
        }
        _ => panic!("expected ExistingTopic"),
    }
    assert_eq!(
        db.get_topic_by_thread(42)
            .unwrap()
            .unwrap()
            .default_e164
            .as_deref(),
        Some(a)
    );
}
