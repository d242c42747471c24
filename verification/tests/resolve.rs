use telesms_bot::actions::{resolve, ActionError, Identity, ResolveMode};
use telesms_bot::db::{Db, Topic};
use telesms_bot::route::GENERAL_THREAD;

fn seed() -> (Db, i64) {
    let mut db = Db::open_in_memory().unwrap();
    let id = db.upsert_contact("people/a", "Ali").unwrap();
    db.replace_contact_numbers(id, &["+989121234567".into()])
        .unwrap();
    db.upsert_topic(&Topic {
        thread_id: 9,
        contact_id: Some(id),
        default_e164: Some("+989121234567".into()),
        title: "Ali".into(),
        ignored: false,
    })
    .unwrap();
    (db, id)
}

#[test]
fn number_only_resolves() {
    let (db, id) = seed();
    let r = resolve(
        &db,
        "IR",
        &Identity {
            number: Some("09121234567".into()),
            ..Default::default()
        },
        ResolveMode::RequireTopic,
    )
    .unwrap();
    assert_eq!(r.contact.unwrap().id, id);
    assert_eq!(r.topic.unwrap().thread_id, 9);
    assert_eq!(r.e164.as_deref(), Some("+989121234567"));
}

#[test]
fn contact_only_resolves() {
    let (db, id) = seed();
    let r = resolve(
        &db,
        "IR",
        &Identity {
            contact_id: Some(id),
            ..Default::default()
        },
        ResolveMode::RequireTopic,
    )
    .unwrap();
    assert_eq!(r.topic.unwrap().thread_id, 9);
}

#[test]
fn matching_pair_ok() {
    let (db, id) = seed();
    resolve(
        &db,
        "IR",
        &Identity {
            number: Some("09121234567".into()),
            contact_id: Some(id),
            thread_id: Some(9),
        },
        ResolveMode::RequireTopic,
    )
    .unwrap();
}

#[test]
fn conflicting_contact_and_number() {
    let (mut db, id) = seed();
    let other = db.upsert_contact("people/b", "Bob").unwrap();
    db.replace_contact_numbers(other, &["+989130000000".into()])
        .unwrap();
    let err = resolve(
        &db,
        "IR",
        &Identity {
            number: Some("09121234567".into()),
            contact_id: Some(other),
            ..Default::default()
        },
        ResolveMode::RequireTopic,
    )
    .unwrap_err();
    assert!(matches!(err, ActionError::IdentityConflict));
    let _ = id;
}

#[test]
fn bad_number() {
    let db = Db::open_in_memory().unwrap();
    let err = resolve(
        &db,
        "IR",
        &Identity {
            number: Some("not-a-number".into()),
            ..Default::default()
        },
        ResolveMode::AllowBareNumber,
    )
    .unwrap_err();
    assert!(matches!(err, ActionError::InvalidNumber(_)));
}

#[test]
fn thread_alone_missing_identity() {
    let db = Db::open_in_memory().unwrap();
    let err = resolve(
        &db,
        "IR",
        &Identity {
            thread_id: Some(9),
            ..Default::default()
        },
        ResolveMode::RequireTopic,
    )
    .unwrap_err();
    assert!(matches!(err, ActionError::MissingIdentity));
}

#[test]
fn general_thread_require_topic() {
    let (db, id) = seed();
    let err = resolve(
        &db,
        "IR",
        &Identity {
            contact_id: Some(id),
            thread_id: Some(GENERAL_THREAD),
            ..Default::default()
        },
        ResolveMode::RequireTopic,
    )
    .unwrap_err();
    assert!(matches!(err, ActionError::NotFound(_)));
}

#[test]
fn unknown_number_allowed_for_sms() {
    let db = Db::open_in_memory().unwrap();
    let r = resolve(
        &db,
        "IR",
        &Identity {
            number: Some("09120000000".into()),
            ..Default::default()
        },
        ResolveMode::AllowBareNumber,
    )
    .unwrap();
    assert!(r.contact.is_none());
    assert!(r.topic.is_none());
    assert!(r.e164.unwrap().starts_with('+'));
}
