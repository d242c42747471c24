use telesms_bot::actions::history::{accept_cursor, chats_page, cursors_in_order, parse_cursor, Page};
use telesms_bot::actions::{list_messages, ActionError};
use telesms_bot::app::incoming::deliver_incoming;
use telesms_bot::app::sweep::sms_too_old_at;
use telesms_bot::app::{Effect, Step};
use telesms_bot::clock::{is_earlier, Instants, LocalTime, Moment, UtcTime};
use telesms_bot::config::{Config, ConfigError};
use telesms_bot::db::Db;
use telesms_bot::google::{redirect_from, redirect_params};
use telesms_bot::http::{api_key_matches, authorized};
use telesms_bot::modem::{IncomingSms, ModemError};
use telesms_bot::normalize::{clean, normalize_e164, number_text, settle, NormalizeError};
use telesms_bot::status::{
    assemble, dated_words, format_status_html, local_day_start, only_instant,
    today_start_rfc3339, try_format_relative, try_gather, try_today_start,
};

/// 2026-07-01 12:00:00 in UTC.
const NOON: UtcTime = UtcTime {
    secs: 1_782_907_200,
    nanos: 0,
};

fn before_noon(secs: i64) -> UtcTime {
    UtcTime {
        secs: NOON.secs - secs,
        nanos: 0,
    }
}

fn vars(extra: &[(&str, &str)]) -> Vec<(String, String)> {
    let base = [
        ("TELEGRAM_BOT_TOKEN", "token"),
        ("TELEGRAM_USER_ID", "7"),
        ("TELEGRAM_GROUP_ID", "-100"),
        ("MODEM_UID", "stick"),
        ("GOOGLE_CLIENT_ID", "id"),
        ("GOOGLE_CLIENT_SECRET", "secret"),
    ];
    base.iter()
        .chain(extra.iter())
        .map(|(k, v)| (k.to_string(), v.to_string()))
        .collect()
}

#[test]
fn relative_times_in_words() {
    let say = |secs: i64| try_format_relative(before_noon(secs), NOON, "Asia/Tehran").unwrap();
    assert_eq!(say(-5), "just now");
    assert_eq!(say(59), "just now");
    assert_eq!(say(60), "1m ago");
    assert_eq!(say(3599), "59m ago");
    assert_eq!(say(3600), "1h ago");
    assert_eq!(say(86399), "23h ago");
    assert_eq!(say(86400), "yesterday 15:30");
    assert_eq!(say(2 * 86400), "Jun 29 15:30");
    assert_eq!(say(365 * 86400), "2025-07-01 15:30");
}

#[test]
fn relative_times_need_a_known_zone_only_for_dates() {
    let far = UtcTime {
        secs: i64::MAX,
        nanos: 0,
    };
    assert_eq!(
        try_format_relative(before_noon(90), NOON, "Nowhere/Here").as_deref(),
        Some("1m ago")
    );
    assert_eq!(
        try_format_relative(before_noon(90000), NOON, "Nowhere/Here"),
        None
    );
    assert_eq!(try_format_relative(NOON, far, "UTC"), None);
}

#[test]
fn local_days_begin_at_their_own_midnight() {
    assert_eq!(
        today_start_rfc3339(NOON, "Asia/Tehran"),
        "2026-06-30T20:30:00+00:00"
    );
    assert_eq!(
        try_today_start(NOON, "America/New_York").as_deref(),
        Some("2026-07-01T04:00:00+00:00")
    );
    assert_eq!(
        try_today_start(NOON, "UTC").as_deref(),
        Some("2026-07-01T00:00:00+00:00")
    );
    assert_eq!(try_today_start(NOON, "Nowhere/Here"), None);
}

#[test]
fn midnight_that_a_clock_change_skips_is_not_made_up() {
    // On 2018-11-04 the clocks of Brazil went from 00:00 to 01:00.
    let that_noon = UtcTime {
        secs: 1_541_332_800,
        nanos: 0,
    };
    assert_eq!(try_today_start(that_noon, "America/Sao_Paulo"), None);
    let db = Db::open_in_memory().unwrap();
    let modem = Err(ModemError::NotFound("stick".to_string()));
    assert!(try_gather(modem, &db, "America/Sao_Paulo", "stick", that_noon).is_none());
}

#[test]
fn dates_are_told_as_short_as_they_can_be() {
    let local = |year: i32, day: u32, day_number: i32| LocalTime {
        year,
        day,
        day_number,
    };
    let say = |then: LocalTime, now: LocalTime| {
        dated_words(then, now, "08:05", "Jan", "2025-01-04 08:05")
    };
    let now = local(2026, 3, 1000);
    assert_eq!(say(local(2026, 2, 999), now), "yesterday 08:05");
    assert_eq!(say(local(2026, 1, 998), now), "Jan 1 08:05");
    assert_eq!(say(local(2025, 4, 700), now), "2025-01-04 08:05");
    assert_eq!(say(local(2025, 31, 999), now), "yesterday 08:05");
    assert_eq!(
        say(local(2026, 3, i32::MIN), local(2026, 4, i32::MIN)),
        "Jan 3 08:05"
    );
}

#[test]
fn day_begins_only_where_its_midnight_is_one_point_in_time() {
    let t = |secs: i64| UtcTime { secs, nanos: 0 };
    assert_eq!(only_instant(Some(Instants::One(t(5)))), Some(t(5)));
    assert_eq!(only_instant(Some(Instants::Two(t(5), t(6)))), None);
    assert_eq!(only_instant(Some(Instants::Gap)), None);
    assert_eq!(only_instant(None), None);
    assert_eq!(local_day_start(NOON, "UTC"), Some(before_noon(12 * 3600)));
    assert_eq!(
        local_day_start(NOON, "Asia/Tehran"),
        Some(before_noon(15 * 3600 + 1800))
    );
    // On 2018-11-04 the clocks of Cuba went from 01:00 back to 00:00.
    assert_eq!(local_day_start(t(1_541_332_800), "America/Havana"), None);
    assert_eq!(
        local_day_start(t(1_541_332_800 - 86400), "America/Havana"),
        Some(t(1_541_332_800 - 86400 - 8 * 3600))
    );
}

#[test]
fn present_moment_is_kept_as_it_is_told() {
    let now = Moment::now();
    let back = chrono::DateTime::parse_from_rfc3339(&now.text).unwrap();
    assert_eq!(back.timestamp(), now.time.secs);
    assert_eq!(back.timestamp_subsec_nanos(), now.time.nanos);
    assert!(now.time.secs > 1_700_000_000);
}

#[test]
fn points_in_time_are_ordered_to_the_nanosecond() {
    let t = |secs: i64, nanos: u32| UtcTime { secs, nanos };
    assert!(is_earlier(t(1, 5), t(1, 6)));
    assert!(!is_earlier(t(1, 6), t(1, 6)));
    assert!(is_earlier(t(-1, 999), t(0, 0)));
    assert!(!is_earlier(t(2, 0), t(1, 999)));
}

#[test]
fn message_is_too_old_after_a_day() {
    assert!(!sms_too_old_at("2026-06-30T12:00:00Z", NOON));
    assert!(sms_too_old_at("2026-06-30T11:59:59Z", NOON));
    assert!(sms_too_old_at("2026-06-30T15:29:59+03:30", NOON));
    assert!(!sms_too_old_at("tomorrow", NOON));
}

#[test]
fn snapshot_tells_the_last_messages() {
    let mut db = Db::open_in_memory().unwrap();
    let id = db.upsert_contact("people/a", "A & B").unwrap();
    db.replace_contact_numbers(id, &["+981".to_string()]).unwrap();
    db.record_inbound_at("/1", "+981", "x", None, "", 1, "2026-07-01T11:00:00+00:00")
        .unwrap();
    db.record_outbound_at("+982", "y", "ok", 1, "not a time").unwrap();
    let modem = Err(ModemError::Failed("x".to_string()));
    let snap = try_gather(modem, &db, "UTC", "stick", NOON).unwrap().unwrap();
    let last_in = snap.last_in.as_ref().unwrap();
    assert_eq!((last_in.label.as_str(), last_in.when.as_str()), ("A & B", "1h ago"));
    let last_out = snap.last_out.as_ref().unwrap();
    assert_eq!((last_out.label.as_str(), last_out.when.as_str()), ("+982", "just now"));
    assert_eq!((snap.today_in, snap.today_out_ok, snap.today_out_fail), (1, 1, 0));
    assert!(format_status_html(&snap).contains("↓ A &amp; B · 1h ago"));

    let told = assemble(
        Err(ModemError::Failed("x".to_string())),
        &db,
        "stick",
        "2026-07-01T11:30:00+00:00",
        "earlier",
        "later",
    )
    .unwrap();
    assert_eq!(told.today_in, 0);
    assert_eq!(told.last_in.unwrap().when, "earlier");
    assert_eq!(told.last_out.unwrap().when, "later");
}

#[test]
fn unknown_zone_is_refused_in_the_words_of_its_parser() {
    let bad = vars(&[("STATUS_TZ", "Mars/Base")]);
    let err = Config::from_env(&bad).unwrap_err();
    let words = "Mars/Base".parse::<chrono_tz::Tz>().unwrap_err().to_string();
    assert_eq!(err.message(), format!("invalid value for STATUS_TZ: {words}"));
    let good = Config::from_env(&vars(&[("STATUS_TZ", "Europe/Berlin")])).unwrap();
    assert_eq!(good.status_tz, "Europe/Berlin");
    let unset = Config::from_env(&vars(&[("STATUS_TZ", "")])).unwrap();
    assert_eq!(unset.status_tz, "Asia/Tehran");
    let told = Config::from_vars(&bad, Some("unheard of".to_string())).unwrap_err();
    assert!(matches!(
        told,
        ConfigError::Invalid { key: "STATUS_TZ", ref source } if source == "unheard of"
    ));
    assert!(Config::from_vars(&bad, None).is_ok());
}

#[test]
fn numbers_are_read_as_dialled_in_the_region() {
    assert_eq!(normalize_e164("0912 123-4567", "IR").unwrap(), "+989121234567");
    assert_eq!(normalize_e164("030 123456", "DE").unwrap(), "+4930123456");
    assert_eq!(normalize_e164("+49 30 123456", "IR").unwrap(), "+4930123456");
    assert!(normalize_e164("0912 123-4567", "nowhere").is_err());
    let err = normalize_e164("12 ab", "IR").unwrap_err();
    assert_eq!(err.message(), "invalid phone number: 12 ab");
    let err = normalize_e164(" - ", "IR").unwrap_err();
    assert_eq!(err.message(), "empty phone number");
    assert_eq!(clean("+1 (2)-3"), "+1(2)3");
    assert_eq!(number_text("98 912"), "+98912");
    assert_eq!(number_text("0912"), "0912");
    assert_eq!(settle("x", Some("+1".to_string())).unwrap(), "+1");
    assert!(matches!(settle("x", None), Err(NormalizeError::Invalid { raw }) if raw == "x"));
    assert!(matches!(
        settle("--", Some("+1".to_string())),
        Err(NormalizeError::Empty)
    ));
}

#[test]
fn keys_match_only_themselves() {
    assert!(api_key_matches("secret", "secret"));
    assert!(!api_key_matches("secret", "secreT"));
    assert!(!api_key_matches("secret", "secret\0"));
    assert!(!api_key_matches("secret\0", "secret"));
    assert!(!api_key_matches("", "x"));
    assert!(api_key_matches("", ""));
    assert!(api_key_matches("кл", "кл"));
    let some = |s: &str| Some(s.to_string());
    assert!(authorized(&some("k"), &some("k")));
    assert!(!authorized(&some(""), &some("")));
    assert!(!authorized(&some("k"), &None));
    assert!(!authorized(&None, &some("k")));
}

#[test]
fn redirect_names_code_and_state() {
    let read = |line: &str| redirect_params(line).map_err(|e| e.message());
    assert_eq!(
        read("GET /?state=s%201&code=4%2Fab HTTP/1.1\r\nHost: x\r\n\r\n").unwrap(),
        ("4/ab".to_string(), "s 1".to_string())
    );
    assert_eq!(
        read("GET /?code=1&code=2&state=s HTTP/1.1").unwrap().0,
        "1"
    );
    assert_eq!(
        read("GET /?state=s HTTP/1.1").unwrap_err(),
        "redirect missing code"
    );
    assert_eq!(
        read("GET /?code=c HTTP/1.1").unwrap_err(),
        "redirect missing state"
    );
    assert_eq!(read("").unwrap_err(), "redirect missing code");
    assert_eq!(
        read("GET :x HTTP/1.1").unwrap_err(),
        oauth2::url::Url::parse("http://127.0.0.1:x")
            .unwrap_err()
            .to_string()
    );
    assert_eq!(
        redirect_from(Err("broken".to_string())).unwrap_err().message(),
        "broken"
    );
}

#[test]
fn cursors_are_points_in_time() {
    let text = |s: &str| Some(s.to_string());
    assert_eq!(
        parse_cursor(&text(" 2026-07-01T10:00:00Z ")).unwrap(),
        text("2026-07-01T10:00:00Z")
    );
    assert_eq!(parse_cursor(&text("  ")).unwrap(), None);
    assert_eq!(parse_cursor(&None).unwrap(), None);
    assert!(matches!(
        parse_cursor(&text("yesterday")),
        Err(ActionError::Validation(m)) if m == "invalid cursor timestamp"
    ));
    assert_eq!(accept_cursor(&text("x"), Some(NOON)).unwrap(), text("x"));
    assert!(accept_cursor(&text("x"), None).is_err());
    assert!(!cursors_in_order(Some(NOON), Some(NOON)));
    assert!(cursors_in_order(Some(NOON), Some(before_noon(1))));
    assert!(cursors_in_order(None, Some(NOON)));
    let db = Db::open_in_memory().unwrap();
    let earlier = text("2026-07-01T12:00:00+03:30");
    let later = text("2026-07-01T10:00:00Z");
    let err = list_messages(&db, "IR", 1, None, &earlier, &later, &None, None).unwrap_err();
    assert_eq!(err.message(), "before must be greater than after");
    assert!(list_messages(&db, "IR", 1, None, &later, &earlier, &None, None).is_ok());
    let page = Page {
        limit: 3,
        before: None,
        after: None,
    };
    assert!(chats_page(&db, &page).unwrap().chats.is_empty());
}

#[test]
fn delivery_begins_where_the_number_belongs() {
    let mut db = Db::open_in_memory().unwrap();
    let sms = IncomingSms {
        path: "/1".to_string(),
        e164: "0912".to_string(),
        text: "hi".to_string(),
        inbound: true,
        timestamp: String::new(),
    };
    match deliver_incoming(&mut db, sms, false, "+989121234567") {
        Step::Do(Effect::Post { thread_id, text }, _) => {
            assert_eq!((thread_id, text.as_str()), (1, "+989121234567\nhi"))
        }
        _ => panic!("expected a post"),
    }
}
