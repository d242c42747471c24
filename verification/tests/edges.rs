use telesms_bot::actions::history::history_limit;
use telesms_bot::actions::forward::forward_request;
use telesms_bot::actions::identity::{has_number, resolve_here, resolve_with};
use telesms_bot::actions::{
    forward_answer, get_call_forward, put_call_forward, search_contacts, ActionError,
    ForwardRequest, Identity, ResolveMode,
};
use telesms_bot::call_forward::{
    ccfc_line, ccfc_line_with, ccfc_number, ccfc_verdict, number_in, parse_ussd_reply,
    ussd_verdict, CallForwardState, CcfcLine,
};
use telesms_bot::collate::{matches_like, text_at_most};
use telesms_bot::config::{max_age_fits, parse_sms_delete_enabled, Config};
use telesms_bot::db::{Contact, Db, PendingForwardMode, Topic};
use telesms_bot::decimal::{
    i64_text, int_problem, parse_i64, parse_u16, parse_u32, parse_u64, u64_text,
};
use telesms_bot::google::{
    check_state, classify_send_err, keep_number, next_page, person_to_contact, snippet,
    sync_parsed_at, sync_start, sync_step, token_lifetime, unparsable_token, unreadable_token,
    GoogleError, Person, SyncAction, SyncAt,
};
use telesms_bot::http::{
    action_to_response, api_error_response, forward_from_req, json_rejection_response, BodyProblem,
    ForwardField,
};
use telesms_bot::modem::{
    FakeModem, IncomingSms, ModemError, ModemState, Radio, Registration, SimStatus,
};
use telesms_bot::modem_mm::{
    delete_outcome, disable_forward, forward_to, load_incoming_sms_retry, loaded_sms, lookup_path,
    modem_live, path_error_is_stale, path_failed, path_found, query_forward, resolve_path,
    with_modem_path, BusError, ForwardFlow, ForwardStep, LoadStep, ModemProperties, PathAt,
    PathCache, PathStep, LOAD_ATTEMPTS,
};
use telesms_bot::normalize::NormalizeError;
use telesms_bot::status::{
    ago_words, assemble, format_forward_line, format_status_with_forward, html_escape,
    view_forward, ForwardView,
};
use telesms_bot::telegram::handlers::{
    handle_forward_tap, read_message, read_tap, ForwardTap, OwnerCommand, Tap,
};
use telesms_bot::telegram::keyboards::{
    article_message, button_label, forward_number_keyboard, forward_search_keyboard,
    number_keyboard, search_keyboard, status_keyboard, Keyboard,
};
use telesms_bot::telegram::parse::{
    dm_hint, parse_cf_callback, parse_num_callback, parse_open_callback, parse_open_cmd, CfAction,
};
use telesms_bot::telegram::util::{forum_thread, thread_id_i32};
use telesms_bot::text::{
    among, cat, cat3, chars_of, digit, digits, lookup, matches_at, opt_eq, space, split_at_space,
    split_on, str_eq, string_of, strip_prefix, take_chars, to_lower, to_lower_char, to_upper,
    to_upper_char, trim, word,
};

fn strings(list: &[&str]) -> Vec<String> {
    list.iter().map(|s| s.to_string()).collect()
}

#[test]
fn texts_are_cut_and_joined() {
    assert!(digit('7') && !digit('٧'));
    assert!(space('\u{3000}') && !space('\u{200b}'));
    assert_eq!((to_lower_char('Ä'), to_lower_char('Z')), ('Ä', 'z'));
    assert_eq!((to_upper_char('ä'), to_upper_char('a')), ('ä', 'A'));
    let chars = chars_of("añb");
    assert_eq!(chars, vec!['a', 'ñ', 'b']);
    assert_eq!(string_of(&chars, 1, 3), "ñb");
    assert!(str_eq("a", "a") && !str_eq("a", "A"));
    assert!(opt_eq(&Some("x".to_string()), "x") && !opt_eq(&None, "x"));
    assert_eq!(cat("a", "b"), "ab");
    assert_eq!(cat3("a", "", "c"), "ac");
    assert_eq!(to_lower("ÀB"), "Àb");
    assert_eq!(to_upper("àb"), "àB");
    assert_eq!(digits("+98 (91)2"), "98912");
    assert_eq!(take_chars("ñandu", 2), "ña");
    assert_eq!(take_chars("a", 2), "a");
    assert!(matches_at(&chars, 1, &chars_of("ñb")) && !matches_at(&chars, 2, &chars_of("ñb")));
    assert_eq!(strip_prefix("cf:n", "cf:").as_deref(), Some("n"));
    assert_eq!(strip_prefix("cf", "cf:"), None);
    assert_eq!(trim("\u{a0} a b\r\n"), "a b");
    assert_eq!(split_on("a,,b", ','), vec!["a", "", "b"]);
    assert_eq!(split_on("", ','), vec![""]);
    assert_eq!(
        split_at_space("a  b"),
        Some(("a".to_string(), " b".to_string()))
    );
    assert_eq!(split_at_space("ab"), None);
    assert_eq!(word("  ab c").as_deref(), Some("ab"));
    assert_eq!(word(" \t"), None);
    assert!(among(&strings(&["a", "b"]), "b") && !among(&strings(&["a"]), "b"));
    let pairs = vec![
        ("k".to_string(), "1".to_string()),
        ("k".to_string(), "2".to_string()),
    ];
    assert_eq!(lookup(&pairs, "k").as_deref(), Some("1"));
    assert_eq!(lookup(&pairs, "x"), None);
}

#[test]
fn integers_are_written_and_read_back() {
    for n in [0, 7, -7, 10, i64::MAX, i64::MIN] {
        assert_eq!(i64_text(n), n.to_string());
        assert_eq!(parse_i64(&i64_text(n)), Some(n));
    }
    assert_eq!(u64_text(u64::MAX), u64::MAX.to_string());
    assert_eq!(parse_u64(&u64_text(u64::MAX)), Some(u64::MAX));
    for s in ["", "-", "+", "-0", "+5", "007", "9223372036854775808", "1 ", "-1", "65536"] {
        assert_eq!(parse_i64(s), s.parse().ok(), "{s}");
        assert_eq!(parse_u64(s), s.parse().ok(), "{s}");
        assert_eq!(parse_u32(s), s.parse().ok(), "{s}");
        assert_eq!(parse_u16(s), s.parse().ok(), "{s}");
    }
}

#[test]
fn integers_that_cannot_be_read_say_why() {
    for s in ["", "-", "+", "x", "1x", "9223372036854775808", "-9223372036854775809", "12 "] {
        let words = s.parse::<i64>().unwrap_err().to_string();
        assert_eq!(int_problem(s, i64::MIN, i64::MAX as u64), words, "{s}");
    }
    for s in ["", "-1", "-", "70000", "99999x"] {
        let words = s.parse::<u16>().unwrap_err().to_string();
        assert_eq!(int_problem(s, 0, u16::MAX as u64), words, "{s}");
    }
}

#[test]
fn texts_are_ordered_by_their_bytes() {
    let words = ["", "a", "aa", "b", "é", "z", "\u{ffff}", "\u{10000}"];
    for a in words {
        for b in words {
            assert_eq!(text_at_most(a, b), a.as_bytes() <= b.as_bytes());
        }
    }
}

#[test]
fn patterns_match_like_sql() {
    assert!(matches_like("%li%", "ALI REZA"));
    assert!(matches_like("a_c", "ABC") && !matches_like("a_c", "ac"));
    assert!(matches_like("%", "") && !matches_like("", "x"));
    assert!(!matches_like("É", "é"));
    assert!(matches_like("%a\0b%", "a") && !matches_like("%a\0b%", "ab"));
    assert!(matches_like("a", "A\0b"));
    assert!(matches_like("\u{FFFE}", "\u{FFFF}") && matches_like("\u{FFFD}", "\u{FFFE}"));
}

#[test]
fn patterns_match_as_the_stored_tables_match_them() {
    let conn = rusqlite::Connection::open_in_memory().unwrap();
    let mut stmt = conn.prepare("SELECT ?2 LIKE ?1").unwrap();
    let mut texts: Vec<String> = vec![String::new()];
    let alphabet = [
        'a', 'A', 'b', '%', '_', '\0', '\u{E9}', '\u{C9}', '\u{FFFD}', '\u{FFFF}', '\u{1F4F6}',
    ];
    for x in alphabet {
        texts.push(x.to_string());
        for y in alphabet {
            texts.push([x, y].iter().collect());
        }
    }
    texts.push("%a_b%".to_string());
    texts.push("xaAbb%".to_string());
    texts.push("%\u{FFFE}_%".to_string());
    for p in &texts {
        for t in &texts {
            let matched: bool = stmt.query_row((p, t), |row| row.get(0)).unwrap();
            assert_eq!(matches_like(p, t), matched, "{p:?} {t:?}");
        }
    }
}

#[test]
fn settings_say_what_is_wrong_with_them() {
    let base = [
        ("TELEGRAM_BOT_TOKEN", "t"),
        ("TELEGRAM_USER_ID", "7"),
        ("TELEGRAM_GROUP_ID", "-100"),
        ("MODEM_UID", "stick"),
        ("GOOGLE_CLIENT_ID", "id"),
        ("GOOGLE_CLIENT_SECRET", "s"),
    ];
    let with = |key: &str, value: Option<&str>| -> Vec<(String, String)> {
        base.iter()
            .filter(|(k, _)| *k != key)
            .map(|(k, v)| (k.to_string(), v.to_string()))
            .chain(value.map(|v| (key.to_string(), v.to_string())))
            .collect()
    };
    for (key, _) in base {
        let err = Config::from_env(&with(key, None)).unwrap_err();
        assert_eq!(err.message(), format!("missing required env var: {key}"));
    }
    let wrong = |key: &str, value: &str| {
        Config::from_env(&with(key, Some(value))).unwrap_err().message()
    };
    assert_eq!(
        wrong("TELEGRAM_USER_ID", "me"),
        "invalid value for TELEGRAM_USER_ID: invalid digit found in string"
    );
    assert_eq!(
        wrong("API_PORT", "65536"),
        "invalid value for API_PORT: number too large to fit in target type"
    );
    assert_eq!(
        wrong("SMS_DELETE_ENABLED", "maybe"),
        "invalid value for SMS_DELETE_ENABLED: expected true/1/yes or false/0/no"
    );
    let days = with("SMS_DELETE_MAX_AGE_DAYS", Some("2"));
    assert!(max_age_fits(&days));
    assert_eq!(Config::from_env(&days).unwrap().sms_delete_max_age, 172_800);
    assert!(max_age_fits(&with("SMS_DELETE_MAX_AGE_DAYS", Some("213503982334601"))));
    assert!(!max_age_fits(&with("SMS_DELETE_MAX_AGE_DAYS", Some("213503982334602"))));
    assert!(max_age_fits(&with("SMS_DELETE_MAX_AGE_DAYS", Some(" "))));
    let keyed = Config::from_env(&with("API_KEY", Some("k"))).unwrap();
    assert!(keyed.api_enabled());
    assert!(!Config::from_env(&with("API_KEY", Some(""))).unwrap().api_enabled());
    assert!(!Config::from_env(&with("API_KEY", None)).unwrap().api_enabled());
    assert!(parse_sms_delete_enabled(" YES ").unwrap());
    assert!(!parse_sms_delete_enabled("No").unwrap());
    assert!(parse_sms_delete_enabled("").unwrap());
}

#[test]
fn failed_requests_are_told_apart() {
    assert_eq!(snippet(&"x".repeat(300)).len(), 200);
    let words = |t: bool, c: bool| classify_send_err(t, c, "m".to_string()).message();
    assert_eq!(words(true, false), "transient: m");
    assert_eq!(words(false, true), "transient: m");
    assert_eq!(words(false, false), "http: m");
    assert_eq!(
        unreadable_token("gone").message(),
        "google auth: token file unreadable: gone"
    );
    assert_eq!(
        unparsable_token("eof").message(),
        "google auth: token file unparsable: eof"
    );
    assert_eq!(GoogleError::Io("x".to_string()).message(), "io: x");
    assert_eq!(GoogleError::Json("x".to_string()).message(), "json: x");
    assert_eq!((token_lifetime(None), token_lifetime(Some(5))), (3600, 5));
    assert!(check_state("a", "a").is_ok());
    assert_eq!(
        check_state("a", "b").unwrap_err().message(),
        "oauth state mismatch"
    );
    assert_eq!(next_page(Some("t".to_string())).as_deref(), Some("t"));
    assert_eq!(next_page(Some(String::new())), None);
    assert_eq!(next_page(None), None);
}

#[test]
fn sync_renews_its_token_once() {
    let auth = || Some(GoogleError::Auth("expired".to_string()));
    let (at, action) = sync_start();
    assert!(matches!(action, SyncAction::GetToken { drop_cached: false }));
    let (at, action) = sync_step(at, None);
    assert!(matches!(action, SyncAction::FetchPages));
    assert!(matches!(
        sync_step(at, Some(GoogleError::Other("x".to_string()))).1,
        SyncAction::Fail(GoogleError::Other(_))
    ));
    let (at, action) = sync_step(at, auth());
    assert!(matches!(action, SyncAction::GetToken { drop_cached: true }));
    let (at, action) = sync_step(at, None);
    assert!(matches!(action, SyncAction::FetchPages));
    assert_eq!(at, SyncAt::Pages { again: true });
    assert!(matches!(
        sync_step(at, auth()).1,
        SyncAction::Fail(GoogleError::Auth(_))
    ));
    assert!(matches!(sync_step(at, None).1, SyncAction::Store));
    assert!(matches!(
        sync_step(SyncAt::Token { again: false }, auth()).1,
        SyncAction::Fail(GoogleError::Auth(_))
    ));
}

#[test]
fn people_become_contacts() {
    let person = |resource: Option<&str>, names: &[Option<&str>], numbers: &[Option<&str>]| Person {
        resource_name: resource.map(str::to_string),
        names: names.iter().map(|n| n.map(str::to_string)).collect(),
        phone_numbers: numbers.iter().map(|n| n.map(str::to_string)).collect(),
    };
    let numbers = [
        Some("0912 123 4567"),
        None,
        Some("x"),
        Some("+989121234567"),
        Some("+14155552671"),
    ];
    let c = person_to_contact(&person(Some("people/a"), &[Some("Ali")], &numbers), "IR").unwrap();
    assert_eq!((c.0.as_str(), c.1.as_str()), ("people/a", "Ali"));
    assert_eq!(c.2, vec!["+989121234567", "+14155552671"]);
    assert!(person_to_contact(&person(None, &[Some("Ali")], &[]), "IR").is_none());
    for names in [&[][..], &[None][..], &[Some("")][..], &[None, Some("B")][..]] {
        let c = person_to_contact(&person(Some("p"), names, &[]), "IR").unwrap();
        assert_eq!(c.1, "Unknown");
    }
    assert_eq!(
        keep_number(strings(&["+1"]), Ok("+2".to_string())),
        vec!["+1", "+2"]
    );
    assert_eq!(keep_number(strings(&["+1"]), Ok("+1".to_string())), vec!["+1"]);
    assert!(keep_number(Vec::new(), Err(NormalizeError::Empty)).is_empty());
}

#[test]
fn storing_the_same_contact_again_changes_nothing() {
    let mut db = Db::open_in_memory().unwrap();
    let ali = vec![("people/a".to_string(), "Ali".to_string(), strings(&["+981", "+982"]))];
    assert_eq!(sync_parsed_at(&mut db, &ali, "t").unwrap(), 1);
    assert_eq!(sync_parsed_at(&mut db, &ali, "t").unwrap(), 1);
    assert_eq!(db.contact_rows().len(), 1);
    assert_eq!(db.number_rows().len(), 2);
    assert_eq!(db.contact_rows()[0].last_synced, "t");
    assert_eq!(db.upsert_contact_at("people/a", "Ali R", "u").unwrap(), 1);
    assert_eq!(db.contact_rows()[0].last_synced, "u");
    let twice = vec![
        ("people/b".to_string(), "B".to_string(), strings(&["+1", "+1"])),
        ("people/c".to_string(), "C".to_string(), Vec::new()),
    ];
    assert!(matches!(
        sync_parsed_at(&mut db, &twice, "t").unwrap_err(),
        GoogleError::Db(_)
    ));
    assert_eq!(db.contact_rows().len(), 2);
    assert_eq!(db.number_rows().len(), 2);
}

#[test]
fn errors_answer_with_their_status() {
    let say = |e: ActionError| {
        let r = action_to_response(e);
        (r.status, r.error, r.message)
    };
    let told = |status: u16, error: &str, message: &str| {
        (status, error.to_string(), message.to_string())
    };
    let m = || "m".to_string();
    assert_eq!(
        say(ActionError::MissingIdentity),
        told(400, "missing_identity", "missing identity")
    );
    assert_eq!(say(ActionError::Validation(m())), told(400, "validation", "m"));
    assert_eq!(say(ActionError::InvalidNumber(m())), told(400, "invalid_number", "m"));
    assert_eq!(say(ActionError::NotFound(m())), told(404, "not_found", "m"));
    assert_eq!(
        say(ActionError::IdentityConflict),
        told(409, "identity_conflict", "identity fields disagree")
    );
    assert_eq!(
        say(ActionError::ContactsUnavailable),
        told(503, "contacts_unavailable", "contacts unavailable")
    );
    assert_eq!(say(ActionError::ModemFailed(m())), told(502, "modem_failed", "m"));
    assert_eq!(say(ActionError::ModemUnavailable(m())), told(503, "modem_unavailable", "m"));
    assert_eq!(say(ActionError::ForwardFailed(m())), told(500, "forward_failed", "m"));
    let choose = action_to_response(ActionError::NeedDefaultNumber {
        numbers: strings(&["+1", "+2"]),
    });
    assert_eq!((choose.status, choose.error.as_str()), (409, "need_default_number"));
    assert_eq!(choose.numbers, Some(strings(&["+1", "+2"])));
    let lost = action_to_response(ActionError::TelegramFailed {
        sent: true,
        message: m(),
    });
    assert_eq!((lost.status, lost.error.as_str()), (502, "telegram_failed"));
    assert_eq!((lost.sent, lost.numbers), (Some(true), None));
    let plain = api_error_response(418, "teapot", "short and stout");
    assert_eq!((plain.status, plain.error.as_str()), (418, "teapot"));
    assert_eq!(plain.sent, None);
}

#[test]
fn request_bodies_say_what_they_want() {
    let body = |p: BodyProblem| json_rejection_response(p).message;
    assert_eq!(body(BodyProblem::Unreadable("eof".to_string())), "eof");
    assert_eq!(
        body(BodyProblem::NotJson),
        "expected request with content-type application/json"
    );
    assert_eq!(body(BodyProblem::Other), "invalid request body");
    let wish = |f: ForwardField| forward_from_req(f).map_err(|e| e.message());
    assert_eq!(wish(ForwardField::Missing).unwrap_err(), "e164 is required");
    assert_eq!(wish(ForwardField::Null).unwrap(), None);
    assert_eq!(
        wish(ForwardField::Text(" ".to_string())).unwrap_err(),
        "e164 must not be empty"
    );
    assert_eq!(
        wish(ForwardField::Text("0912".to_string())).unwrap().as_deref(),
        Some("0912")
    );
    assert_eq!(
        wish(ForwardField::Other).unwrap_err(),
        "e164 must be string or null"
    );
    assert_eq!(history_limit(None).unwrap(), 50);
    assert_eq!(history_limit(Some(100)).unwrap(), 100);
    for n in [0, 101, -1] {
        assert_eq!(
            history_limit(Some(n)).unwrap_err().message(),
            "limit must be 1..=100"
        );
    }
}

fn sms(inbound: bool, text: &str) -> IncomingSms {
    IncomingSms {
        path: "/1".to_string(),
        e164: "+1".to_string(),
        text: text.to_string(),
        inbound,
        timestamp: String::new(),
    }
}

#[test]
fn reading_a_message_ends() {
    let mut flow = load_incoming_sms_retry();
    for attempt in 1..=LOAD_ATTEMPTS {
        flow = match flow.next(Ok(sms(true, ""))) {
            LoadStep::Again(next) => next,
            LoadStep::End(_) => panic!("ended after {attempt}"),
        };
    }
    assert!(matches!(flow.next(Ok(sms(true, ""))), LoadStep::End(Ok(_))));
    let mut flow = load_incoming_sms_retry();
    for _ in 1..LOAD_ATTEMPTS {
        flow = match flow.next(Err(ModemError::Failed("x".to_string()))) {
            LoadStep::Again(next) => next,
            LoadStep::End(_) => panic!("ended early"),
        };
    }
    assert!(matches!(
        flow.next(Err(ModemError::Failed("x".to_string()))),
        LoadStep::End(Err(_))
    ));
    assert!(matches!(
        load_incoming_sms_retry().next(Ok(sms(true, "hi"))),
        LoadStep::End(Ok(_))
    ));
    assert!(matches!(
        load_incoming_sms_retry().next(Ok(sms(false, ""))),
        LoadStep::End(Ok(_))
    ));
}

#[test]
fn message_properties_say_whether_it_was_received() {
    let inbound = |pdu: u32, number: &str| {
        loaded_sms("/1".to_string(), number.to_string(), "t".to_string(), pdu, None).inbound
    };
    assert!(inbound(1, "") && inbound(0, "+1") && inbound(9, "+1"));
    assert!(!inbound(2, "+1") && !inbound(0, ""));
    let timed = loaded_sms(
        "/1".to_string(),
        "+1".to_string(),
        "t".to_string(),
        1,
        Some("ts".to_string()),
    );
    assert_eq!((timed.timestamp.as_str(), timed.e164.as_str()), ("ts", "+1"));
}

#[test]
fn what_is_gone_counts_as_deleted() {
    let fail = |e: BusError| delete_outcome(Err((e, "words".to_string()))).map_err(|e| e.message());
    let other = |text: &str| BusError::Other {
        text: text.to_string(),
    };
    let method = |name: &str| BusError::Method {
        name: name.to_string(),
    };
    assert!(delete_outcome(Ok(())).is_ok());
    assert!(fail(BusError::Standard { unknown_object: true }).is_ok());
    assert!(fail(BusError::Standard { unknown_object: false }).is_err());
    assert!(fail(method("org.freedesktop.DBus.Error.UnknownObject")).is_ok());
    assert!(fail(method("org.freedesktop.DBus.Error.Failed")).is_err());
    assert!(fail(other("No SMS found with path")).is_ok());
    assert!(fail(other("timeout")).unwrap_err().contains("words"));
}

#[test]
fn modem_that_moved_is_looked_for_once() {
    let gone = || ModemError::Failed("UnknownObject".to_string());
    let mut cache = PathCache::new();
    assert!(matches!(
        with_modem_path(&cache),
        PathStep::Lookup(PathAt::Looking { again: false })
    ));
    let objects = vec![
        ("/m/0".to_string(), None),
        ("/m/1".to_string(), Some("other".to_string())),
        ("/m/2".to_string(), Some("stick".to_string())),
        ("/m/3".to_string(), Some("stick".to_string())),
    ];
    assert_eq!(lookup_path(&objects, "stick").unwrap(), "/m/2");
    assert!(matches!(
        lookup_path(&objects, "none"),
        Err(ModemError::NotFound(uid)) if uid == "none"
    ));
    match path_found(&mut cache, false, Ok("/m/2".to_string())) {
        PathStep::Run(path, at) => {
            assert_eq!((path.as_str(), at), ("/m/2", PathAt::Running { again: false }))
        }
        _ => panic!("expected to run"),
    }
    assert!(matches!(with_modem_path(&cache), PathStep::Run(..)));
    assert!(matches!(
        path_failed(&mut cache, false, ModemError::Failed("busy".to_string())),
        PathStep::Fail(_)
    ));
    assert_eq!(cache.hit().as_deref(), Some("/m/2"));
    assert!(matches!(
        path_failed(&mut cache, false, gone()),
        PathStep::Lookup(PathAt::Looking { again: true })
    ));
    assert_eq!(cache.hit(), None);
    assert!(matches!(
        resolve_path(&cache, true),
        PathStep::Lookup(PathAt::Looking { again: true })
    ));
    path_found(&mut cache, true, Ok("/m/4".to_string()));
    assert!(matches!(path_failed(&mut cache, true, gone()), PathStep::Fail(_)));
    assert_eq!(cache.hit().as_deref(), Some("/m/4"));
    assert!(matches!(
        path_found(&mut cache, true, Err(ModemError::NotFound("stick".to_string()))),
        PathStep::Fail(ModemError::NotFound(_))
    ));
    assert_eq!(cache.hit(), None);
    assert!(path_error_is_stale(&gone()));
}

#[test]
fn properties_tell_how_the_modem_is() {
    let silent = ModemProperties {
        state: 99,
        failed_reason: None,
        signal_percent: None,
        access_technologies: None,
        unlock_required: None,
        operator: Some(String::new()),
        registration: Some(3),
        rssi_dbm: None,
    };
    let live = modem_live(silent);
    assert_eq!(live.state, ModemState::Unknown);
    assert!(live.operator.is_none() && live.registration.is_none() && live.access_tech.is_none());
    let talking = ModemProperties {
        state: 8,
        failed_reason: Some(0),
        signal_percent: Some(70),
        access_technologies: Some(1 << 14),
        unlock_required: Some(1),
        operator: Some("IR-MCI".to_string()),
        registration: Some(5),
        rssi_dbm: Some(-71),
    };
    let live = modem_live(talking);
    assert_eq!(live.state, ModemState::Registered);
    assert_eq!(live.operator.as_deref(), Some("IR-MCI"));
    assert_eq!(live.registration, Some(Registration::Roaming));
    assert_eq!(live.access_tech, Some(Radio::Lte));
    assert_eq!(live.sim, SimStatus::Ready);
    assert_eq!((live.signal_percent, live.rssi_dbm), (Some(70), Some(-71)));
}

fn state(enabled: bool, e164: Option<&str>) -> CallForwardState {
    CallForwardState {
        enabled,
        e164: e164.map(str::to_string),
    }
}

#[test]
fn network_is_asked_again_after_a_change() {
    let failed = || Err(ModemError::Failed("x".to_string()));
    let dialled = |step: ForwardStep| match step {
        ForwardStep::Dial(code, flow) => (code, flow),
        ForwardStep::End(_) => panic!("expected to dial"),
    };
    let ended = |step: ForwardStep| match step {
        ForwardStep::End(r) => r.map_err(|e| e.message()),
        ForwardStep::Dial(..) => panic!("expected an end"),
    };
    let (code, flow) = dialled(forward_to(Ok("+989121234567".to_string())));
    assert_eq!(code, "*21*989121234567#");
    let (code, flow) = dialled(flow.next(Ok("done".to_string()), "IR"));
    assert_eq!(code, "*#21#");
    assert_eq!(
        ended(flow.next(failed(), "IR")).unwrap(),
        state(true, Some("+989121234567"))
    );
    let (code, flow) = dialled(disable_forward());
    assert_eq!(code, "#21#");
    assert!(ended(flow.next(failed(), "IR")).is_err());
    let confirming = ForwardFlow::Confirming {
        wanted: state(false, None),
    };
    assert_eq!(
        ended(confirming.next(Ok("forwarded to +989121234567".to_string()), "IR")).unwrap(),
        state(true, Some("+989121234567"))
    );
    let (code, flow) = dialled(query_forward());
    assert_eq!(code, "*#21#");
    assert!(ended(flow.next(Ok("garbage".to_string()), "IR")).is_err());
    assert_eq!(
        ended(ForwardFlow::Asking.next_with(Ok("t".to_string()), Ok(state(false, None)))).unwrap(),
        state(false, None)
    );
    assert!(ended(forward_to(Err(NormalizeError::Empty))).is_err());
}

#[test]
fn remembering_modem_forwards_where_it_is_told() {
    let mut modem = FakeModem::default();
    assert_eq!(
        modem.forward_to(Ok("+981".to_string())).unwrap(),
        state(true, Some("+981"))
    );
    assert_eq!(modem.query_forward("IR").unwrap(), state(true, Some("+981")));
    assert!(modem.forward_to(Err(NormalizeError::Empty)).is_err());
    assert_eq!(modem.disable_forward("IR").unwrap(), state(false, None));
}

#[test]
fn lines_about_forwarding_are_read() {
    assert_eq!(ccfc_number("+CCFC: 1,1,\"+989121234567\",145"), "+989121234567");
    assert_eq!(ccfc_number("+CCFC: 0,7"), "");
    assert_eq!(ccfc_number("OK"), "");
    let read = |line: &str| match ccfc_line(line, "IR") {
        CcfcLine::Other => "other".to_string(),
        CcfcLine::Inactive => "inactive".to_string(),
        CcfcLine::Nowhere => "nowhere".to_string(),
        CcfcLine::To(e164) => e164,
        CcfcLine::Bad(m) => m,
    };
    assert_eq!(read(" OK "), "other");
    assert_eq!(read("+CCFC: 0,1,\"+989121234567\",145"), "inactive");
    assert_eq!(read("+ccfc: 1,1"), "nowhere");
    assert_eq!(read("+CCFC:1,1,\"09121234567\",129"), "+989121234567");
    assert_eq!(read(" +CCFC: x,1"), "bad +CCFC status in: +CCFC: x,1");
    assert_eq!(read("+CCFC: 1,1,\"zz\""), "invalid phone number: zz");
    assert!(matches!(
        ccfc_line_with("+CCFC: 1,1,\"7\"", Ok("+7".to_string())),
        CcfcLine::To(n) if n == "+7"
    ));
    let to = |n: &str| CcfcLine::To(n.to_string());
    assert_eq!(
        ccfc_verdict("t", &vec![to("+1"), CcfcLine::Inactive, to("+2")]).unwrap(),
        state(true, Some("+2"))
    );
    assert_eq!(
        ccfc_verdict("t", &vec![CcfcLine::Nowhere]).unwrap_err(),
        "AT+CCFC reports active but has no number: t"
    );
    assert_eq!(
        ccfc_verdict("t", &vec![to("+1"), CcfcLine::Bad("b".to_string())]).unwrap_err(),
        "b"
    );
    assert_eq!(ccfc_verdict("ok", &vec![CcfcLine::Other]).unwrap(), state(false, None));
    assert_eq!(
        ccfc_verdict("t", &Vec::new()).unwrap_err(),
        "unparseable AT+CCFC reply: t"
    );
}

#[test]
fn replies_name_their_number() {
    assert_eq!(number_in("to +9891212345 now").as_deref(), Some("+9891212345"));
    assert_eq!(number_in("code +12345 to 09121234567").as_deref(), Some("09121234567"));
    assert_eq!(
        number_in("1234567890 or 98765432101").as_deref(),
        Some("98765432101")
    );
    assert_eq!(number_in("1234567890 or 0987654321").as_deref(), Some("1234567890"));
    assert_eq!(number_in("123456789"), None);
    assert_eq!(
        parse_ussd_reply("Deactivated, was active to +989121234567", "IR").unwrap(),
        state(false, None)
    );
    assert_eq!(
        ussd_verdict("Activated", Some(Ok("+7".to_string()))).unwrap(),
        state(true, Some("+7"))
    );
    assert_eq!(
        ussd_verdict("active", None).unwrap_err(),
        "ussd reply looks enabled but has no number: active"
    );
    assert_eq!(
        ussd_verdict("active", Some(Err(NormalizeError::Empty))).unwrap_err(),
        "empty phone number"
    );
    assert_eq!(
        ussd_verdict("hello", Some(Ok("+7".to_string()))).unwrap_err(),
        "unparseable ussd reply: hello"
    );
}

#[test]
fn wishes_about_forwarding_become_requests() {
    assert!(matches!(get_call_forward(), ForwardRequest::Query));
    assert!(matches!(put_call_forward("IR", &None).unwrap(), ForwardRequest::Disable));
    assert!(matches!(
        put_call_forward("IR", &Some("0912 123 4567".to_string())).unwrap(),
        ForwardRequest::Enable(n) if n == "+989121234567"
    ));
    assert!(matches!(
        put_call_forward("IR", &Some("x".to_string())),
        Err(ActionError::InvalidNumber(_))
    ));
    assert!(matches!(
        forward_request(Some(Ok("+7".to_string()))).unwrap(),
        ForwardRequest::Enable(n) if n == "+7"
    ));
    assert!(matches!(
        forward_answer(Err(ModemError::NotFound("s".to_string()))),
        Err(ActionError::ModemUnavailable(s)) if s == "s"
    ));
    assert!(matches!(
        forward_answer(Err(ModemError::Failed("s".to_string()))),
        Err(ActionError::ForwardFailed(s)) if s == "s"
    ));
}

#[test]
fn card_shows_where_calls_go() {
    let mut db = Db::open_in_memory().unwrap();
    let id = db.upsert_contact("people/a", "A <b>").unwrap();
    db.replace_contact_numbers(id, &strings(&["+981"])).unwrap();
    let line = |answer| format_forward_line(&view_forward(&db, answer).unwrap());
    assert_eq!(line(Ok(state(false, None))), "↪️ Forward · off");
    assert_eq!(line(Ok(state(true, Some("+981")))), "↪️ Forward · A &lt;b&gt;");
    assert_eq!(line(Ok(state(true, Some("+982")))), "↪️ Forward · +982");
    assert_eq!(
        line(Err(ModemError::Failed("x".to_string()))),
        "↪️ Forward · unavailable"
    );
    let offline = Err(ModemError::NotFound("stick".to_string()));
    let snap = assemble(offline, &db, "stick", "", "", "").unwrap();
    assert_eq!(
        format_status_with_forward(&snap, &ForwardView::Off),
        "<b>Modem</b>\n🔴 Offline\n<i>Stick not found (stick)</i>\n↪️ Forward · off\n\n\
         <b>Today</b>\n↓ 0 received\n↑ 0 sent\n✗ 0 failed\n\n<b>Last</b>\nnone yet\n\nContacts · OK"
    );
    assert_eq!(html_escape("a<b>&\"c"), "a&lt;b&gt;&amp;\"c");
    let age = |secs: i64| telesms_bot::clock::Elapsed { secs, nanos: 0 };
    assert_eq!(ago_words(age(119)).as_deref(), Some("1m ago"));
    assert_eq!(ago_words(age(-100)).as_deref(), Some("just now"));
    assert_eq!(ago_words(age(86400)), None);
}

fn shown(k: &Keyboard) -> Vec<Vec<(String, String)>> {
    k.inline_keyboard
        .iter()
        .map(|row| row.iter().map(|b| (b.text.clone(), b.data.clone())).collect())
        .collect()
}

fn contact(id: i64, name: &str) -> Contact {
    Contact {
        id,
        google_resource: format!("people/{id}"),
        display_name: name.to_string(),
        numbers: Vec::new(),
        ambiguous: false,
    }
}

#[test]
fn buttons_send_what_reads_back() {
    let row = |text: &str, data: &str| vec![(text.to_string(), data.to_string())];
    assert_eq!(shown(&status_keyboard()), vec![row("🔄 Refresh", "st:r")]);
    let numbers = strings(&["+981", "+982"]);
    assert_eq!(
        shown(&number_keyboard(&numbers)),
        vec![row("+981", "num:+981"), row("+982", "num:+982")]
    );
    assert_eq!(
        shown(&forward_number_keyboard(&numbers[..1])),
        vec![row("+981", "cf:n:+981")]
    );
    let hits: Vec<Contact> = (1..=21).map(|id| contact(id, "x")).collect();
    let opening = shown(&search_keyboard(&hits));
    let forwarding = shown(&forward_search_keyboard(&hits));
    assert_eq!((opening.len(), forwarding.len()), (20, 20));
    assert_eq!(parse_open_callback(&opening[19][0].1), Some(20));
    assert!(matches!(
        parse_cf_callback(&forwarding[4][0].1),
        Some(CfAction::Contact(5))
    ));
    assert_eq!(parse_num_callback("num:+981").as_deref(), Some("+981"));
    assert!(matches!(
        parse_cf_callback("cf:n:+981"),
        Some(CfAction::Number(n)) if n == "+981"
    ));
    assert_eq!(button_label(""), "?");
    assert_eq!(button_label(&"é".repeat(70)), "é".repeat(64));
    assert_eq!(article_message("unavailable"), "contacts unavailable");
    assert_eq!(article_message("42"), "/open 42");
    assert_eq!(parse_open_cmd(&article_message("-42")), Some(-42));
}

#[test]
fn threads_come_back() {
    for id in [1, 2, 77] {
        assert_eq!(thread_id_i32(forum_thread(id)), id);
    }
    assert_eq!(thread_id_i32(None), 1);
    assert!(dm_hint(-100).starts_with("Commands only work in the forum group (id -100)."));
}

#[test]
fn messages_and_taps_are_told_apart() {
    let read = |text: &str| read_message(text, 9);
    assert!(matches!(
        read("/sms 0912 hi there"),
        OwnerCommand::Sms { number, body } if number == "0912" && body == "hi there"
    ));
    assert!(matches!(read("/help"), OwnerCommand::Help));
    assert!(matches!(read("/who@bot"), OwnerCommand::Who));
    assert!(matches!(read("/number"), OwnerCommand::Number));
    assert!(matches!(read("/ignore"), OwnerCommand::Ignore));
    assert!(matches!(read("/search"), OwnerCommand::Search { query } if query.is_empty()));
    assert!(matches!(read("/search ali"), OwnerCommand::Search { query } if query == "ali"));
    assert!(matches!(read("/open 4"), OwnerCommand::Open { contact_id: 4 }));
    assert!(matches!(read("/open x"), OwnerCommand::Nothing));
    assert!(matches!(read("/forward"), OwnerCommand::Forward));
    assert!(matches!(read("/status"), OwnerCommand::Status));
    assert!(matches!(read("/nope"), OwnerCommand::Nothing));
    assert!(matches!(read("hello"), OwnerCommand::Text));
    assert!(matches!(read_message("hello", 1), OwnerCommand::Nothing));
    assert!(matches!(read_tap("st:r", true), Tap::Refresh));
    assert!(matches!(read_tap("num:+1", true), Tap::Nothing));
    assert!(matches!(read_tap("num:+1", false), Tap::Number { e164 } if e164 == "+1"));
    assert!(matches!(read_tap("open:4", false), Tap::Open { contact_id: 4 }));
    assert!(matches!(
        read_tap("cf:off", false),
        Tap::Forward {
            action: CfAction::Disable
        }
    ));
    assert!(matches!(read_tap("zzz", false), Tap::Nothing));
}

#[test]
fn forwarding_dialogue_is_led_by_buttons() {
    let mut db = Db::open_in_memory().unwrap();
    let none = db.upsert_contact("people/a", "None").unwrap();
    let one = db.upsert_contact("people/b", "One").unwrap();
    let two = db.upsert_contact("people/c", "Two").unwrap();
    db.replace_contact_numbers(one, &strings(&["+989121234567"])).unwrap();
    db.replace_contact_numbers(two, &strings(&["+981", "+982"])).unwrap();
    let tap = |db: &mut Db, action: CfAction| {
        handle_forward_tap(db, "IR", 9, -100, 7, action).unwrap()
    };
    let words = |t: ForwardTap| match t {
        ForwardTap::Show { text, keyboard } => (text, keyboard.is_some()),
        ForwardTap::Ask(_) => panic!("expected words"),
    };
    assert!(matches!(
        tap(&mut db, CfAction::Disable),
        ForwardTap::Ask(ForwardRequest::Disable)
    ));
    assert_eq!(
        words(tap(&mut db, CfAction::TypeNumber)).0,
        "send the number to forward calls to"
    );
    let pending = db.get_pending_forward(9).unwrap().unwrap();
    assert_eq!(pending.mode, PendingForwardMode::Number);
    assert_eq!((pending.edit_chat_id, pending.edit_message_id), (-100, 7));
    assert_eq!(words(tap(&mut db, CfAction::Search)).0, "send a name to search for");
    assert_eq!(
        db.get_pending_forward(9).unwrap().unwrap().mode,
        PendingForwardMode::Search
    );
    assert_eq!(words(tap(&mut db, CfAction::Cancel)).0, "cancelled");
    assert!(db.get_pending_forward(9).unwrap().is_none());
    db.clear_pending_forward(9).unwrap();
    assert!(matches!(
        tap(&mut db, CfAction::Number("0912 123 4567".to_string())),
        ForwardTap::Ask(ForwardRequest::Enable(n)) if n == "+989121234567"
    ));
    assert_eq!(
        words(tap(&mut db, CfAction::Number("x".to_string()))).0,
        "invalid phone number: x"
    );
    assert_eq!(words(tap(&mut db, CfAction::Contact(none))).0, "no numbers");
    assert_eq!(words(tap(&mut db, CfAction::Contact(99))).0, "unknown contact");
    assert!(matches!(
        tap(&mut db, CfAction::Contact(one)),
        ForwardTap::Ask(ForwardRequest::Enable(_))
    ));
    assert_eq!(
        words(tap(&mut db, CfAction::Contact(two))),
        ("which number?".to_string(), true)
    );
}

#[test]
fn identities_are_resolved_from_what_was_read() {
    let mut db = Db::open_in_memory().unwrap();
    let id = db.upsert_contact("people/a", "Ali").unwrap();
    db.replace_contact_numbers(id, &strings(&["+981"])).unwrap();
    db.upsert_topic(&Topic {
        thread_id: 9,
        contact_id: Some(id),
        default_e164: None,
        title: "Ali".to_string(),
        ignored: false,
    })
    .unwrap();
    let whom = |number: Option<&str>, contact_id: Option<i64>, thread_id: Option<i32>| Identity {
        number: number.map(str::to_string),
        contact_id,
        thread_id,
    };
    assert!(has_number(&whom(Some(" 1 "), None, None)));
    assert!(!has_number(&whom(Some(" "), None, None)));
    let r = resolve_with(
        &db,
        &whom(Some("981"), None, None),
        Some("+981".to_string()),
        ResolveMode::RequireTopic,
    )
    .unwrap();
    assert_eq!(r.topic.unwrap().thread_id, 9);
    assert!(resolve_here(&db, "IR", &whom(None, None, Some(9)), ResolveMode::RequireTopic).is_ok());
    assert!(resolve_here(&db, "IR", &whom(None, None, None), ResolveMode::RequireTopic).is_err());
    assert!(matches!(
        search_contacts(&db, " "),
        Err(ActionError::Validation(m)) if m == "query is required"
    ));
    assert_eq!(search_contacts(&db, " ali ").unwrap().len(), 1);
    db.set_contacts_available(false);
    assert!(matches!(
        search_contacts(&db, "ali"),
        Err(ActionError::ContactsUnavailable)
    ));
}
