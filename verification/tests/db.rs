use telesms_bot::db::{Db, DbError, Topic};

#[test]
fn find_contact_by_e164_first_match_and_flag_ambiguity() {
    let mut db = Db::open_in_memory().unwrap();
    let a = db.upsert_contact("people/a", "Ali").unwrap();
    let b = db.upsert_contact("people/b", "Ali 2").unwrap();
    db.replace_contact_numbers(a, &["+989111111111".into()])
        .unwrap();
    db.replace_contact_numbers(b, &["+989111111111".into()])
        .unwrap();
    let c = db.find_contact_by_e164("+989111111111").unwrap().unwrap();
    assert_eq!(c.id, a);
    assert!(c.ambiguous);
}

#[test]
fn topic_roundtrip_and_default() {
    let mut db = Db::open_in_memory().unwrap();
    let contact_id = db.upsert_contact("people/a", "Ali").unwrap();
    db.upsert_topic(&Topic {
        thread_id: 42,
        contact_id: Some(contact_id),
        default_e164: None,
        title: "Ali (1111)".into(),
        ignored: false,
    })
    .unwrap();
    db.set_default_number(42, "+989111111111").unwrap();
    let t = db.get_topic_by_thread(42).unwrap().unwrap();
    assert_eq!(t.thread_id, 42);
    assert_eq!(t.contact_id, Some(contact_id));
    assert_eq!(t.default_e164.as_deref(), Some("+989111111111"));
    assert_eq!(t.title, "Ali (1111)");
    assert!(!t.ignored);
}

#[test]
fn ignore_number_persists() {
    let mut db = Db::open_in_memory().unwrap();
    assert!(!db.is_ignored("+98912").unwrap());
    db.ignore_number("+98912").unwrap();
    assert!(db.is_ignored("+98912").unwrap());
    assert!(!db.is_ignored("+98913").unwrap());
}

#[test]
fn inbound_path_dedup() {
    let mut db = Db::open_in_memory().unwrap();
    assert!(!db.seen_sms_path("/sms/1").unwrap());
    db.record_inbound("/sms/1", "+98912", "hi", None, "", 1)
        .unwrap();
    assert!(db.seen_sms_path("/sms/1").unwrap());
    assert!(db.seen_sms("/sms/1", "+98912", "hi", "").unwrap());
}

#[test]
fn seen_sms_same_content_different_path() {
    let mut db = Db::open_in_memory().unwrap();
    db.record_inbound("/sms/1", "+98912", "hi", None, "2026-08-19T12:00:00+00:00", 1)
        .unwrap();
    assert!(db
        .seen_sms("/sms/2", "+98912", "hi", "2026-08-19T12:00:00+00:00")
        .unwrap());
    assert!(!db
        .seen_sms("/sms/2", "+98912", "other", "2026-08-19T12:00:00+00:00")
        .unwrap());
}

#[test]
fn seen_sms_empty_ts_does_not_content_match() {
    let mut db = Db::open_in_memory().unwrap();
    db.record_inbound("/sms/1", "+98912", "hi", None, "", 1)
        .unwrap();
    assert!(!db.seen_sms("/sms/2", "+98912", "hi", "").unwrap());
    assert!(db.seen_sms("/sms/1", "+98912", "hi", "").unwrap());
}

#[test]
fn search_contacts_matches_name() {
    let mut db = Db::open_in_memory().unwrap();
    db.upsert_contact("people/a", "Ali Reza").unwrap();
    let hits = db.search_contacts("ali").unwrap();
    assert_eq!(hits.len(), 1);
    assert_eq!(hits[0].display_name, "Ali Reza");
}

#[test]
fn search_contacts_unavailable_when_flag_cleared() {
    let mut db = Db::open_in_memory().unwrap();
    db.upsert_contact("people/a", "Ali").unwrap();
    db.set_contacts_available(false);
    assert!(matches!(
        db.search_contacts("ali"),
        Err(DbError::ContactsUnavailable)
    ));
    db.set_contacts_available(true);
    assert_eq!(db.search_contacts("ali").unwrap().len(), 1);
}

fn insert_in(db: &mut Db, path: &str, e164: &str, created_at: &str) {
    db.insert_inbound_at(path, e164, "x", created_at).unwrap();
}

fn insert_out(db: &mut Db, e164: &str, result: &str, created_at: &str) {
    db.record_outbound_at(e164, "x", result, 1, created_at)
        .unwrap();
}

#[test]
fn today_counts_split_on_since() {
    let mut db = Db::open_in_memory().unwrap();
    let midnight = "2026-08-19T00:00:00+00:00";
    insert_in(&mut db, "/a", "+989111111111", "2026-08-18T23:59:59+00:00");
    insert_in(&mut db, "/b", "+989111111112", "2026-08-19T00:00:00+00:00");
    insert_out(&mut db, "+989111111113", "ok", "2026-08-18T23:59:59+00:00");
    insert_out(&mut db, "+989111111114", "ok", "2026-08-19T01:00:00+00:00");
    insert_out(
        &mut db,
        "+989111111115",
        "modem error: timeout",
        "2026-08-19T02:00:00+00:00",
    );
    insert_out(&mut db, "+989111111116", "ok", "2026-08-19T03:00:00+00:00");
    let c = db.today_sms_counts(midnight).unwrap();
    assert_eq!(c.inbound, 1);
    assert_eq!(c.sent_ok, 2);
    assert_eq!(c.sent_fail, 1);
}

#[test]
fn last_outbound_ok_skips_failures() {
    let mut db = Db::open_in_memory().unwrap();
    insert_out(&mut db, "+989111111111", "ok", "2026-08-19T01:00:00+00:00");
    insert_out(
        &mut db,
        "+989111111122",
        "modem error: x",
        "2026-08-19T02:00:00+00:00",
    );
    let last = db.last_outbound_ok().unwrap().unwrap();
    assert_eq!(last.0, "+989111111111");
    let fail = db
        .last_outbound_fail_since("2026-08-19T00:00:00+00:00")
        .unwrap()
        .unwrap();
    assert_eq!(fail, "modem error: x");
    assert!(db
        .last_outbound_fail_since("2026-08-19T03:00:00+00:00")
        .unwrap()
        .is_none());
}

#[test]
fn last_inbound_is_latest() {
    let mut db = Db::open_in_memory().unwrap();
    insert_in(&mut db, "/a", "+989111111111", "2026-08-19T01:00:00+00:00");
    insert_in(&mut db, "/b", "+989111111122", "2026-08-19T02:00:00+00:00");
    let last = db.last_inbound().unwrap().unwrap();
    assert_eq!(last.0, "+989111111122");
    assert_eq!(last.1, "2026-08-19T02:00:00+00:00");
}

#[test]
fn contacts_available_roundtrip() {
    let mut db = Db::open_in_memory().unwrap();
    assert!(db.contacts_available());
    db.set_contacts_available(false);
    assert!(!db.contacts_available());
}
