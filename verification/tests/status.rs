use chrono::{TimeZone, Utc};
use telesms_bot::clock::UtcTime;
use telesms_bot::db::Db;
use telesms_bot::modem::{
    radio_from_access_tech, FakeModem, ModemLive, ModemState, Radio, Registration, SimStatus,
};
use telesms_bot::status::{
    format_relative, format_status_html, gather, radio_label, signal_label, LastSms, ModemView,
    StatusSnapshot,
};

fn utc(time: chrono::DateTime<Utc>) -> UtcTime {
    UtcTime {
        secs: time.timestamp(),
        nanos: time.timestamp_subsec_nanos(),
    }
}

fn live_ok() -> ModemLive {
    ModemLive {
        state: ModemState::Registered,
        operator: Some("MTN Irancell".into()),
        registration: Some(Registration::Home),
        signal_percent: Some(38),
        rssi_dbm: Some(-93),
        access_tech: Some(Radio::Umts),
        sim: SimStatus::Ready,
    }
}

fn happy() -> StatusSnapshot {
    StatusSnapshot {
        modem_uid: "dwm222".into(),
        modem: ModemView::Live(live_ok()),
        today_in: 4,
        today_out_ok: 2,
        today_out_fail: 0,
        last_fail_error: None,
        last_in: Some(LastSms {
            label: "Ali".into(),
            when: "12m ago".into(),
        }),
        last_out: Some(LastSms {
            label: "Sara".into(),
            when: "3h ago".into(),
        }),
        contacts_ok: true,
    }
}

#[test]
fn happy_path_html() {
    let html = format_status_html(&happy());
    assert_eq!(
        html,
        "<b>Modem</b>\n\
🟢 Registered · MTN Irancell · home\n\
📶 Fair (38%) · 3G · -93 dBm\n\
SIM ok\n\
\n\
<b>Today</b>\n\
↓ 4 received\n\
↑ 2 sent\n\
✗ 0 failed\n\
\n\
<b>Last</b>\n\
↓ Ali · 12m ago\n\
↑ Sara · 3h ago\n\
\n\
Contacts · OK"
    );
}

#[test]
fn offline_html() {
    let mut s = happy();
    s.modem = ModemView::Offline;
    let html = format_status_html(&s);
    assert!(html.contains("🔴 Offline"));
    assert!(html.contains("<i>Stick not found (dwm222)</i>"));
    assert!(!html.contains("📶"));
    assert!(!html.contains("SIM"));
    assert!(html.contains("↓ Ali · 12m ago"));
}

#[test]
fn failed_send_html() {
    let mut s = happy();
    s.today_out_fail = 1;
    s.last_fail_error = Some("modem error: <timeout>".into());
    let html = format_status_html(&s);
    assert!(html.contains("✗ 1 failed"));
    assert!(html.contains("modem error: &lt;timeout&gt;"));
    assert!(!html.contains("<timeout>"));
}

#[test]
fn searching_empty_html() {
    let s = StatusSnapshot {
        modem_uid: "dwm222".into(),
        modem: ModemView::Live(ModemLive {
            state: ModemState::Searching,
            operator: None,
            registration: None,
            signal_percent: Some(0),
            rssi_dbm: None,
            access_tech: None,
            sim: SimStatus::Ready,
        }),
        today_in: 0,
        today_out_ok: 0,
        today_out_fail: 0,
        last_fail_error: None,
        last_in: None,
        last_out: None,
        contacts_ok: false,
    };
    let html = format_status_html(&s);
    assert!(html.contains("🟡 Searching · no operator"));
    assert!(html.contains("📶 No signal"));
    assert!(html.contains("none yet"));
    assert!(html.contains("Contacts · unavailable"));
}

#[test]
fn escapes_operator() {
    let mut s = happy();
    if let ModemView::Live(live) = &mut s.modem {
        live.operator = Some("A&B".into());
    }
    assert!(format_status_html(&s).contains("A&amp;B"));
}

#[test]
fn signal_label_table() {
    assert_eq!(signal_label(None), "No signal");
    assert_eq!(signal_label(Some(0)), "No signal");
    assert_eq!(signal_label(Some(1)), "Poor");
    assert_eq!(signal_label(Some(19)), "Poor");
    assert_eq!(signal_label(Some(20)), "Fair");
    assert_eq!(signal_label(Some(38)), "Fair");
    assert_eq!(signal_label(Some(39)), "Fair");
    assert_eq!(signal_label(Some(40)), "Good");
    assert_eq!(signal_label(Some(80)), "Excellent");
    assert_eq!(signal_label(Some(100)), "Excellent");
}

#[test]
fn radio_from_bits() {
    assert_eq!(
        radio_from_access_tech(1 << 15),
        Some(Radio::Nr)
    );
    assert_eq!(
        radio_from_access_tech(1 << 14),
        Some(Radio::Lte)
    );
    assert_eq!(
        radio_from_access_tech(1 << 5),
        Some(Radio::Umts)
    );
    assert_eq!(
        radio_from_access_tech(1 << 1),
        Some(Radio::Gsm)
    );
    assert_eq!(radio_from_access_tech(0), None);
    assert_eq!(radio_label(Radio::Umts), "3G");
    assert_eq!(radio_label(Radio::Lte), "4G LTE");
}

#[test]
fn relative_time_table() {
    let tz = "Asia/Tehran";
    let now = Utc.with_ymd_and_hms(2026, 8, 19, 11, 0, 0).unwrap();
    assert_eq!(
        format_relative(utc(now - chrono::Duration::seconds(30)), utc(now), tz),
        "just now"
    );
    assert_eq!(
        format_relative(utc(now - chrono::Duration::minutes(12)), utc(now), tz),
        "12m ago"
    );
    assert_eq!(
        format_relative(utc(now - chrono::Duration::hours(3)), utc(now), tz),
        "3h ago"
    );
    // Age < 24h wins even if the calendar day is yesterday.
    let same_day_window = Utc.with_ymd_and_hms(2026, 8, 18, 15, 10, 0).unwrap();
    assert_eq!(format_relative(utc(same_day_window), utc(now), tz), "19h ago");
    // 2026-08-18 05:10 UTC = 08:40 Tehran; 29h50m ago and calendar yesterday.
    let y = Utc.with_ymd_and_hms(2026, 8, 18, 5, 10, 0).unwrap();
    assert_eq!(format_relative(utc(y), utc(now), tz), "yesterday 08:40");
    let old = Utc.with_ymd_and_hms(2025, 12, 31, 5, 42, 0).unwrap();
    assert_eq!(format_relative(utc(old), utc(now), tz), "2025-12-31 09:12");
}

#[test]
fn gather_offline_still_has_counts() {
    let mut db = Db::open_in_memory().unwrap();
    db.insert_inbound_at("/a", "+989111111111", "x", "2026-08-19T10:00:00+00:00")
        .unwrap();
    let id = db.upsert_contact("people/a", "Ali").unwrap();
    db.replace_contact_numbers(id, &["+989111111111".into()])
        .unwrap();
    let modem = FakeModem::default(); // live None → NotFound
    let now = Utc.with_ymd_and_hms(2026, 8, 19, 11, 0, 0).unwrap();
    let snap = gather(modem.snapshot(), &db, "Asia/Tehran", "dwm222", utc(now)).unwrap();
    assert!(matches!(snap.modem, ModemView::Offline));
    assert_eq!(snap.today_in, 1);
    assert_eq!(snap.last_in.as_ref().unwrap().label, "Ali");
}

#[test]
fn gather_uses_live_snapshot() {
    let db = Db::open_in_memory().unwrap();
    let mut modem = FakeModem::default();
    modem.live = Some(live_ok());
    let now = Utc.with_ymd_and_hms(2026, 8, 19, 11, 0, 0).unwrap();
    let snap = gather(modem.snapshot(), &db, "UTC", "dwm222", utc(now)).unwrap();
    match snap.modem {
        ModemView::Live(live) => assert_eq!(live.state, ModemState::Registered),
        ModemView::Offline => panic!("expected live"),
    }
    assert!(snap.contacts_ok);
}
