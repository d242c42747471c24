use telesms_bot::actions::history::{messages_page, Page};
use telesms_bot::actions::{list_chats, list_messages};
use telesms_bot::db::{
    ContactRow, Db, DbError, InboundRow, NumberRow, OutboundRow, PendingForwardMode, Topic,
    TopicRow,
};
use telesms_bot::route::{
    apply_incoming_default, plan_outbound, route_for_send, route_inbound, InboundDest,
    OutboundPlan, GENERAL_THREAD,
};

fn topic(thread_id: i32, contact_id: Option<i64>, default: Option<&str>, title: &str) -> Topic {
    Topic {
        thread_id,
        contact_id,
        default_e164: default.map(str::to_string),
        title: title.to_string(),
        ignored: false,
    }
}

fn received(path: &str, created_at: &str, body: &str, thread_id: Option<i32>) -> InboundRow {
    InboundRow {
        id: 0,
        mm_path: path.to_string(),
        e164: "+989121111111".to_string(),
        body: body.to_string(),
        tg_msg: None,
        created_at: created_at.to_string(),
        sms_ts: None,
        thread_id,
    }
}

fn sent(created_at: &str, body: &str, result: &str, thread_id: Option<i32>) -> OutboundRow {
    OutboundRow {
        id: 0,
        e164: "+989121111111".to_string(),
        body: body.to_string(),
        result: result.to_string(),
        created_at: created_at.to_string(),
        thread_id,
    }
}

#[test]
fn stored_topic_comes_back_and_others_stay() {
    let mut db = Db::open_in_memory().unwrap();
    db.upsert_topic(&topic(7, None, Some("+981"), "seven")).unwrap();
    db.upsert_topic(&topic(3, None, None, "three")).unwrap();
    db.upsert_topic(&topic(7, None, None, "seven again")).unwrap();
    let seven = db.get_topic_by_thread(7).unwrap().unwrap();
    assert_eq!(seven.title, "seven again");
    assert!(seven.default_e164.is_none());
    assert_eq!(db.get_topic_by_thread(3).unwrap().unwrap().title, "three");
    assert!(db.get_topic_by_thread(5).unwrap().is_none());
}

#[test]
fn topic_of_an_unknown_contact_is_refused() {
    let mut db = Db::open_in_memory().unwrap();
    let err = db.upsert_topic(&topic(7, Some(4), None, "x")).unwrap_err();
    assert!(matches!(err, DbError::Sqlite(_)));
    assert!(db.get_topic_by_thread(7).unwrap().is_none());
}

#[test]
fn default_number_touches_only_its_topic() {
    let mut db = Db::open_in_memory().unwrap();
    db.upsert_topic(&topic(7, None, None, "seven")).unwrap();
    db.upsert_topic(&topic(8, None, None, "eight")).unwrap();
    db.set_default_number(7, "+981").unwrap();
    db.set_default_number(99, "+982").unwrap();
    let seven = db.get_topic_by_thread(7).unwrap().unwrap();
    assert_eq!(seven.default_e164.as_deref(), Some("+981"));
    assert_eq!(seven.title, "seven");
    assert!(db.get_topic_by_thread(8).unwrap().unwrap().default_e164.is_none());
    assert!(db.get_topic_by_thread(99).unwrap().is_none());
}

#[test]
fn waiting_text_comes_back_once() {
    let mut db = Db::open_in_memory().unwrap();
    db.upsert_topic(&topic(7, None, None, "seven")).unwrap();
    db.set_pending_outbound(7, "hello", Some(55)).unwrap();
    db.set_pending_outbound(8, "lost", None).unwrap();
    assert_eq!(
        db.take_pending_outbound(7).unwrap(),
        Some(("hello".to_string(), Some(55)))
    );
    assert_eq!(db.take_pending_outbound(7).unwrap(), None);
    assert_eq!(db.take_pending_outbound(8).unwrap(), None);
}

#[test]
fn ignored_number_stays_ignored() {
    let mut db = Db::open_in_memory().unwrap();
    db.ignore_number("+981").unwrap();
    db.ignore_number("+981").unwrap();
    assert!(db.is_ignored("+981").unwrap());
    assert!(!db.is_ignored("+982").unwrap());
    assert_eq!(db.ignored_rows().len(), 1);
}

#[test]
fn dialogue_replaces_the_earlier_one_of_its_thread() {
    let mut db = Db::open_in_memory().unwrap();
    db.set_pending_forward(1, PendingForwardMode::Number, 10, 20).unwrap();
    db.set_pending_forward(2, PendingForwardMode::Number, 11, 21).unwrap();
    db.set_pending_forward(1, PendingForwardMode::Search, 12, 22).unwrap();
    let one = db.get_pending_forward(1).unwrap().unwrap();
    assert_eq!(one.mode, PendingForwardMode::Search);
    assert_eq!(one.edit_chat_id, 12);
    assert_eq!(one.edit_message_id, 22);
    assert_eq!(db.take_pending_forward(1).unwrap(), Some(one));
    assert_eq!(db.get_pending_forward(1).unwrap(), None);
    assert_eq!(db.get_pending_forward(2).unwrap().unwrap().edit_chat_id, 11);
}

#[test]
fn recorded_message_is_seen_by_its_content() {
    let mut db = Db::open_in_memory().unwrap();
    let ts = "2026-07-01T10:00:00+03:30";
    db.record_inbound("/sms/1", "+981", "hi", None, ts, 1).unwrap();
    assert!(db.seen_sms("/sms/1", "+981", "hi", ts).unwrap());
    assert!(db.seen_sms("/sms/9", "+981", "hi", ts).unwrap());
    assert!(!db.seen_sms("/sms/9", "+981", "hi", "").unwrap());
    assert!(!db.seen_sms("/sms/9", "+981", "hello", ts).unwrap());
    db.record_inbound("/sms/2", "+982", "yo", None, "", 1).unwrap();
    assert!(db.seen_sms("/sms/8", "+981", "hi", ts).unwrap());
    assert!(db.seen_sms("/sms/2", "+982", "yo", "").unwrap());
    assert!(!db.seen_sms("/sms/3", "+982", "yo", "").unwrap());
}

#[test]
fn seen_sms_path_reuse_after_mm_restart_is_not_seen() {
    let mut db = Db::open_in_memory().unwrap();
    let ts = "2026-08-20T10:00:00+00:00";
    db.record_inbound("/sms/3", "+981", "old", None, ts, 1).unwrap();
    assert!(db.seen_sms_path("/sms/3").unwrap());
    assert!(!db.seen_sms("/sms/3", "+982", "new", "2026-09-07T10:00:00+00:00").unwrap());
    assert!(!db.seen_sms("/sms/3", "+981", "old", "2026-09-07T10:00:00+00:00").unwrap());
    assert!(!db.seen_sms("/sms/3", "+982", "new", "").unwrap());
}

#[test]
fn record_inbound_recycled_path_replaces_stale_row() {
    let mut db = Db::open_in_memory().unwrap();
    db.record_inbound("/sms/1", "+981", "first", None, "t1", 1).unwrap();
    db.record_inbound("/sms/1", "+982", "second", None, "t2", 9).unwrap();
    assert_eq!(db.inbound_rows().len(), 1);
    assert_eq!(db.inbound_rows()[0].id, 1);
    assert_eq!(db.inbound_rows()[0].body, "second");
    assert_eq!(db.inbound_thread_id("/sms/1").unwrap(), Some(9));
    assert!(db.seen_sms("/sms/1", "+982", "second", "t2").unwrap());
    assert!(!db.seen_sms("/sms/5", "+981", "first", "t1").unwrap());
}

#[test]
fn contact_and_numbers_come_back() {
    let mut db = Db::open_in_memory().unwrap();
    let a = db.upsert_contact("people/a", "Ali").unwrap();
    let b = db.upsert_contact("people/b", "Bea").unwrap();
    assert_eq!((a, b), (1, 2));
    db.replace_contact_numbers(a, &["+981".into(), "+982".into()]).unwrap();
    db.replace_contact_numbers(b, &["+982".into()]).unwrap();
    assert_eq!(db.upsert_contact("people/a", "Alireza").unwrap(), a);
    let ali = db.get_contact(a).unwrap().unwrap();
    assert_eq!(ali.display_name, "Alireza");
    assert_eq!(ali.numbers, vec!["+981".to_string(), "+982".to_string()]);
    db.replace_contact_numbers(a, &["+983".into(), "+981".into()]).unwrap();
    assert_eq!(db.contact_numbers(a).unwrap(), vec!["+983", "+981"]);
    assert_eq!(db.contact_numbers(b).unwrap(), vec!["+982"]);
    assert_eq!(db.find_contact_by_e164("+983").unwrap().unwrap().id, a);
    assert!(!db.find_contact_by_e164("+982").unwrap().unwrap().ambiguous);
}

#[test]
fn repeated_or_orphaned_numbers_are_refused() {
    let mut db = Db::open_in_memory().unwrap();
    let a = db.upsert_contact("people/a", "Ali").unwrap();
    db.replace_contact_numbers(a, &["+981".into()]).unwrap();
    assert!(db
        .replace_contact_numbers(a, &["+982".into(), "+982".into()])
        .is_err());
    assert_eq!(db.contact_numbers(a).unwrap(), vec!["+981"]);
    assert!(db.replace_contact_numbers(77, &["+983".into()]).is_err());
    assert!(db.replace_contact_numbers(77, &[]).is_ok());
}

#[test]
fn search_matches_like_patterns_without_regard_to_case() {
    let mut db = Db::open_in_memory().unwrap();
    db.upsert_contact("people/a", "Ali Rezaei").unwrap();
    db.upsert_contact("people/b", "Bea").unwrap();
    assert_eq!(db.search_contacts("REZA").unwrap().len(), 1);
    assert_eq!(db.search_contacts("a_i").unwrap()[0].display_name, "Ali Rezaei");
    assert_eq!(db.search_contacts("").unwrap().len(), 2);
    assert!(db.search_contacts("zzz").unwrap().is_empty());
    db.set_contacts_available(false);
    assert!(matches!(
        db.search_contacts("a"),
        Err(DbError::ContactsUnavailable)
    ));
}

#[test]
fn rows_are_restored_in_order_only() {
    let mut db = Db::open_in_memory().unwrap();
    let contact = |id: i64, resource: &str| ContactRow {
        id,
        google_resource: resource.to_string(),
        display_name: "x".to_string(),
        last_synced: "t".to_string(),
    };
    db.restore_contact(contact(4, "people/a")).unwrap();
    assert!(db.restore_contact(contact(4, "people/b")).is_err());
    assert!(db.restore_contact(contact(5, "people/a")).is_err());
    db.restore_contact(contact(6, "people/b")).unwrap();
    assert_eq!(db.contact_rows().len(), 2);
    assert_eq!(db.upsert_contact("people/c", "c").unwrap(), 7);

    let number = |contact_id: i64| NumberRow {
        contact_id,
        e164: "+981".to_string(),
        last_seen_incoming: None,
    };
    db.restore_number(number(4)).unwrap();
    assert!(db.restore_number(number(4)).is_err());
    assert!(db.restore_number(number(9)).is_err());
    assert_eq!(db.number_rows().len(), 1);

    let row = |thread_id: i32, contact_id: Option<i64>| TopicRow {
        topic: topic(thread_id, contact_id, None, "t"),
        pending_outbound: Some("wait".to_string()),
        pending_reply_to: Some(3),
    };
    db.restore_topic(row(9, Some(4))).unwrap();
    assert!(db.restore_topic(row(8, None)).is_err());
    assert!(db.restore_topic(row(10, Some(99))).is_err());
    assert_eq!(db.topic_rows().len(), 1);
    assert_eq!(
        db.take_pending_outbound(9).unwrap(),
        Some(("wait".to_string(), Some(3)))
    );

    let mut inbound = received("/a", "t", "b", None);
    inbound.id = 3;
    db.restore_inbound(inbound).unwrap();
    let mut again = received("/a", "t", "b", None);
    again.id = 4;
    assert!(db.restore_inbound(again).is_err());
    let mut outbound = sent("t", "b", "ok", None);
    outbound.id = i64::MAX;
    db.restore_outbound(outbound).unwrap();
    assert!(db.record_outbound("+981", "x", "ok", 1).is_err());
    assert_eq!(db.outbound_rows().len(), 1);
    assert!(db.forward_rows().is_empty());
}

#[test]
fn pages_follow_each_other_newest_first() {
    let mut db = Db::open_in_memory().unwrap();
    db.upsert_topic(&topic(9, None, Some("+989121111111"), "nine")).unwrap();
    db.put_inbound(received("/1", "2026-07-01T10:00:00+00:00", "one", Some(9))).unwrap();
    db.put_outbound(sent("2026-07-01T11:00:00+00:00", "two", "ok", Some(9))).unwrap();
    db.put_inbound(received("/3", "2026-07-01T12:00:00+00:00", "three", Some(9))).unwrap();
    db.put_outbound(sent("2026-07-01T13:00:00+00:00", "four", "boom", Some(9))).unwrap();
    let page = list_messages(&db, "IR", 9, Some(2), &None, &None, &None, None).unwrap();
    let bodies: Vec<&str> = page.messages.iter().map(|m| m.body.as_str()).collect();
    assert_eq!(bodies, vec!["four", "three"]);
    assert_eq!(page.messages[0].id, "out:2");
    assert_eq!(page.messages[0].status, "failed");
    assert_eq!(page.messages[1].direction, "in");
    assert_eq!(page.next_before.as_deref(), Some("2026-07-01T12:00:00+00:00"));
    let next = list_messages(&db, "IR", 9, Some(2), &page.next_before, &None, &None, None).unwrap();
    let bodies: Vec<&str> = next.messages.iter().map(|m| m.body.as_str()).collect();
    assert_eq!(bodies, vec!["two", "one"]);
    let last = list_messages(&db, "IR", 9, Some(2), &next.next_before, &None, &None, None).unwrap();
    assert!(last.messages.is_empty());
    assert!(last.next_before.is_none());
    let after = Some("2026-07-01T11:30:00+00:00".to_string());
    let newer = list_messages(&db, "IR", 9, None, &None, &after, &None, None).unwrap();
    assert_eq!(newer.messages.len(), 2);
}

#[test]
fn equally_old_messages_go_by_id() {
    let mut db = Db::open_in_memory().unwrap();
    let at = "2026-07-01T10:00:00+00:00";
    db.put_inbound(received("/1", at, "one", None)).unwrap();
    db.put_inbound(received("/2", at, "two", None)).unwrap();
    let page = Page {
        limit: 10,
        before: None,
        after: None,
    };
    let list = messages_page(&db, GENERAL_THREAD, &page, None, None).unwrap();
    let bodies: Vec<&str> = list.messages.iter().map(|m| m.body.as_str()).collect();
    assert_eq!(bodies, vec!["two", "one"]);
    assert_eq!(list.title, "General");
    let page = Page {
        limit: -1,
        before: None,
        after: None,
    };
    let all = messages_page(&db, GENERAL_THREAD, &page, None, None).unwrap();
    assert_eq!(all.messages.len(), 2);
    assert!(all.next_before.is_none());
}

#[test]
fn each_chat_is_listed_once_with_its_newest_message() {
    let mut db = Db::open_in_memory().unwrap();
    let id = db.upsert_contact("people/a", "Ali").unwrap();
    db.upsert_topic(&topic(9, Some(id), Some("+981"), "Ali (1111)")).unwrap();
    db.put_inbound(received("/1", "2026-07-01T10:00:00+00:00", "old", Some(9))).unwrap();
    db.put_inbound(received("/2", "2026-07-01T12:00:00+00:00", "stray", None)).unwrap();
    db.put_outbound(sent("2026-07-01T11:00:00+00:00", "new", "ok", Some(9))).unwrap();
    db.put_outbound(sent("2026-07-01T13:00:00+00:00", "gone", "ok", Some(44))).unwrap();
    let list = list_chats(&db, None, &None, &None).unwrap();
    let seen: Vec<(i32, &str)> = list
        .chats
        .iter()
        .map(|c| (c.thread_id, c.last_message_preview.as_str()))
        .collect();
    assert_eq!(seen, vec![(1, "stray"), (9, "new")]);
    assert_eq!(list.chats[0].title, "General");
    assert_eq!(list.chats[1].display_name.as_deref(), Some("Ali"));
    assert_eq!(list.chats[1].last_message_direction, "out");
    let one = list_chats(&db, Some(1), &None, &None).unwrap();
    assert_eq!(one.chats.len(), 1);
    assert_eq!(one.next_before.as_deref(), Some("2026-07-01T12:00:00+00:00"));
}

#[test]
fn old_messages_get_their_threads_once() {
    let mut db = Db::open_in_memory().unwrap();
    let id = db.upsert_contact("people/a", "Ali").unwrap();
    db.replace_contact_numbers(id, &["+989121111111".into()]).unwrap();
    db.upsert_topic(&topic(9, Some(id), None, "Ali")).unwrap();
    db.put_inbound(received("/1", "t1", "known", None)).unwrap();
    db.put_outbound(sent("t2", "known", "ok", None)).unwrap();
    let mut stranger = received("/2", "t3", "stranger", None);
    stranger.e164 = "+15550100".to_string();
    db.put_inbound(stranger).unwrap();
    db.backfill_thread_ids().unwrap();
    assert_eq!(db.inbound_thread_id("/1").unwrap(), Some(9));
    assert_eq!(db.inbound_thread_id("/2").unwrap(), None);
    assert_eq!(db.outbound_rows()[0].thread_id, Some(9));
    db.upsert_topic(&topic(5, None, Some("+989121111111"), "other")).unwrap();
    db.backfill_thread_ids().unwrap();
    assert_eq!(db.inbound_thread_id("/1").unwrap(), Some(9));
}

#[test]
fn ignored_number_goes_to_general_and_changes_nothing() {
    let mut db = Db::open_in_memory().unwrap();
    let id = db.upsert_contact("people/a", "Ali").unwrap();
    db.replace_contact_numbers(id, &["+981".into(), "+982".into()]).unwrap();
    db.upsert_topic(&topic(9, Some(id), Some("+981"), "Ali")).unwrap();
    db.ignore_number("+982").unwrap();
    assert!(matches!(
        route_inbound(&mut db, "+982").unwrap(),
        InboundDest::General { .. }
    ));
    assert!(matches!(
        route_for_send(&db, "+982").unwrap(),
        InboundDest::General { .. }
    ));
    let nine = db.get_topic_by_thread(9).unwrap().unwrap();
    assert_eq!(nine.default_e164.as_deref(), Some("+981"));
}

#[test]
fn answers_follow_the_number_last_written_from() {
    let mut db = Db::open_in_memory().unwrap();
    let id = db.upsert_contact("people/a", "Ali").unwrap();
    db.replace_contact_numbers(id, &["+981".into(), "+982".into()]).unwrap();
    db.upsert_topic(&topic(9, Some(id), Some("+981"), "Ali")).unwrap();
    match route_inbound(&mut db, "+982").unwrap() {
        InboundDest::ExistingTopic {
            thread_id,
            note_switch_to,
        } => {
            assert_eq!(thread_id, 9);
            assert_eq!(note_switch_to.as_deref(), Some("+982"));
        }
        _ => panic!("expected the topic"),
    }
    match route_inbound(&mut db, "+982").unwrap() {
        InboundDest::ExistingTopic { note_switch_to, .. } => assert!(note_switch_to.is_none()),
        _ => panic!("expected the topic"),
    }
    assert!(apply_incoming_default(&mut db, "+982").unwrap().is_none());
    match plan_outbound(&mut db, 9).unwrap() {
        OutboundPlan::Send { e164 } => assert_eq!(e164, "+982"),
        _ => panic!("expected to send"),
    }
}

#[test]
fn plan_is_settled_by_the_first_text() {
    let mut db = Db::open_in_memory().unwrap();
    let id = db.upsert_contact("people/a", "Ali").unwrap();
    db.replace_contact_numbers(id, &["+981".into()]).unwrap();
    db.upsert_topic(&topic(9, Some(id), None, "Ali")).unwrap();
    for _ in 0..2 {
        match plan_outbound(&mut db, 9).unwrap() {
            OutboundPlan::Send { e164 } => assert_eq!(e164, "+981"),
            _ => panic!("expected to send"),
        }
        let nine = db.get_topic_by_thread(9).unwrap().unwrap();
        assert_eq!(nine.default_e164.as_deref(), Some("+981"));
    }
    assert!(matches!(
        plan_outbound(&mut db, GENERAL_THREAD).unwrap(),
        OutboundPlan::NotSms
    ));
    assert!(matches!(
        plan_outbound(&mut db, 77).unwrap(),
        OutboundPlan::UnknownTopic
    ));
}

#[test]
fn counts_and_last_messages_go_by_stamp() {
    let mut db = Db::open_in_memory().unwrap();
    db.put_inbound(received("/1", "2026-07-01T10:00:00+00:00", "a", None)).unwrap();
    db.put_inbound(received("/2", "2026-07-02T10:00:00+00:00", "b", None)).unwrap();
    db.put_outbound(sent("2026-07-02T11:00:00+00:00", "c", "ok", None)).unwrap();
    db.put_outbound(sent("2026-07-02T12:00:00+00:00", "d", "no signal", None)).unwrap();
    db.put_outbound(sent("2026-07-01T12:00:00+00:00", "e", "older", None)).unwrap();
    let since = "2026-07-02T00:00:00+00:00";
    let counts = db.today_sms_counts(since).unwrap();
    assert_eq!((counts.inbound, counts.sent_ok, counts.sent_fail), (1, 1, 1));
    assert_eq!(
        db.last_inbound().unwrap().unwrap().1,
        "2026-07-02T10:00:00+00:00"
    );
    assert_eq!(
        db.last_outbound_ok().unwrap().unwrap().1,
        "2026-07-02T11:00:00+00:00"
    );
    assert_eq!(
        db.last_outbound_fail_since(since).unwrap().as_deref(),
        Some("no signal")
    );
}

#[test]
fn incoming_mark_is_kept_with_the_number() {
    let mut db = Db::open_in_memory().unwrap();
    let id = db.upsert_contact("people/a", "Ali").unwrap();
    db.replace_contact_numbers(id, &["+981".into(), "+982".into()]).unwrap();
    db.mark_incoming_at("+982", "now").unwrap();
    assert_eq!(db.number_rows()[0].last_seen_incoming, None);
    assert_eq!(
        db.number_rows()[1].last_seen_incoming.as_deref(),
        Some("now")
    );
    db.mark_incoming("+981").unwrap();
    assert!(db.number_rows()[0].last_seen_incoming.is_some());
}

#[test]
fn rows_that_were_kept_come_back_whole() {
    let mut db = Db::open_in_memory().unwrap();
    let a = db.upsert_contact("people/a", "Ali").unwrap();
    let b = db.upsert_contact("people/b", "Bea").unwrap();
    db.replace_contact_numbers(a, &["+981".into(), "+982".into()]).unwrap();
    db.replace_contact_numbers(b, &["+982".into()]).unwrap();
    db.upsert_topic(&topic(9, Some(a), Some("+981"), "Ali")).unwrap();
    db.upsert_topic(&topic(4, None, None, "four")).unwrap();
    db.set_pending_outbound(4, "wait", Some(1)).unwrap();
    db.ignore_number("+983").unwrap();
    db.record_inbound("/1", "+981", "hi", None, "t", 9).unwrap();
    db.record_outbound("+981", "yo", "ok", 9).unwrap();
    db.set_pending_forward(9, PendingForwardMode::Search, 1, 2).unwrap();

    let mut again = Db::open_in_memory().unwrap();
    for r in db.contact_rows() {
        again
            .restore_contact(ContactRow {
                id: r.id,
                google_resource: r.google_resource.clone(),
                display_name: r.display_name.clone(),
                last_synced: r.last_synced.clone(),
            })
            .unwrap();
    }
    for r in db.number_rows() {
        again
            .restore_number(NumberRow {
                contact_id: r.contact_id,
                e164: r.e164.clone(),
                last_seen_incoming: r.last_seen_incoming.clone(),
            })
            .unwrap();
    }
    for r in db.topic_rows() {
        again
            .restore_topic(TopicRow {
                topic: topic(
                    r.topic.thread_id,
                    r.topic.contact_id,
                    r.topic.default_e164.as_deref(),
                    &r.topic.title,
                ),
                pending_outbound: r.pending_outbound.clone(),
                pending_reply_to: r.pending_reply_to,
            })
            .unwrap();
    }
    for e164 in db.ignored_rows() {
        again.ignore_number(e164).unwrap();
    }
    for r in db.inbound_rows() {
        let mut row = received(&r.mm_path, &r.created_at, &r.body, r.thread_id);
        row.id = r.id;
        row.e164 = r.e164.clone();
        row.sms_ts = r.sms_ts.clone();
        again.restore_inbound(row).unwrap();
    }
    for r in db.outbound_rows() {
        let mut row = sent(&r.created_at, &r.body, &r.result, r.thread_id);
        row.id = r.id;
        row.e164 = r.e164.clone();
        again.restore_outbound(row).unwrap();
    }
    for (thread_id, f) in db.forward_rows() {
        again
            .set_pending_forward(*thread_id, f.mode, f.edit_chat_id, f.edit_message_id)
            .unwrap();
    }
    assert_eq!(again.get_contact(a).unwrap().unwrap().numbers, vec!["+981", "+982"]);
    assert!(again.find_contact_by_e164("+982").unwrap().unwrap().ambiguous);
    assert_eq!(again.get_topic_by_contact(a).unwrap().unwrap().thread_id, 9);
    assert_eq!(
        again.take_pending_outbound(4).unwrap(),
        Some(("wait".to_string(), Some(1)))
    );
    assert!(again.is_ignored("+983").unwrap());
    assert!(again.seen_sms("/7", "+981", "hi", "t").unwrap());
    assert_eq!(again.last_outbound_ok().unwrap().unwrap().0, "+981");
    assert_eq!(again.get_pending_forward(9).unwrap().unwrap().edit_message_id, 2);
}

#[test]
fn created_topic_is_used_from_then_on() {
    let mut db = Db::open_in_memory().unwrap();
    let id = db.upsert_contact("people/a", "Ali").unwrap();
    db.replace_contact_numbers(id, &["+989121111111".into()]).unwrap();
    match route_for_send(&db, "+989121111111").unwrap() {
        InboundDest::CreateContactTopic {
            contact_id,
            title,
            default_e164,
        } => {
            assert_eq!((contact_id, title.as_str()), (id, "Ali (1111)"));
            db.upsert_topic(&topic(77, Some(contact_id), Some(&default_e164), &title))
                .unwrap();
        }
        _ => panic!("expected a new topic"),
    }
    match route_inbound(&mut db, "+989121111111").unwrap() {
        InboundDest::ExistingTopic {
            thread_id,
            note_switch_to,
        } => {
            assert_eq!(thread_id, 77);
            assert!(note_switch_to.is_none());
        }
        _ => panic!("expected the topic"),
    }
}
