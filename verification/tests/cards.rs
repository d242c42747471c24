use telesms_bot::actions::ActionError;
use telesms_bot::app::OwnerTextOutcome;
use telesms_bot::call_forward::CallForwardState;
use telesms_bot::db::{Contact, Db, DbError};
use telesms_bot::modem::{ModemError, ModemLive, ModemState, Radio, Registration, SimStatus};
use telesms_bot::status::{format_status_html, ModemView, StatusSnapshot};
use telesms_bot::telegram::cards::{
    card_begun, card_edited, change_card, contact_prompt, error_card, forward_card, number_prompt,
    search_card, status_told, tap_card, text_prompt, Card, CardStep, EditOutcome, Unedited,
};
use telesms_bot::telegram::handlers::read_dm;

fn ali() -> Contact {
    Contact {
        id: 7,
        google_resource: "people/a".to_string(),
        display_name: "Ali".to_string(),
        numbers: vec!["+981".to_string()],
        ambiguous: false,
    }
}

fn buttons(card: &Card) -> Vec<(String, String)> {
    match &card.keyboard {
        None => vec![],
        Some(k) => k
            .inline_keyboard
            .iter()
            .flatten()
            .map(|b| (b.text.clone(), b.data.clone()))
            .collect(),
    }
}

fn pair(text: &str, data: &str) -> (String, String) {
    (text.to_string(), data.to_string())
}

fn refused(not_modified: bool, message: &str) -> EditOutcome {
    EditOutcome::Refused {
        not_modified,
        message: message.to_string(),
    }
}

#[test]
fn numbers_are_asked_for_where_there_are_any() {
    assert!(number_prompt(&[]).is_none());
    let card = number_prompt(&["+981".to_string(), "+982".to_string()]).unwrap();
    assert_eq!((card.text.as_str(), card.html), ("which number?", false));
    assert_eq!(
        buttons(&card),
        vec![pair("+981", "num:+981"), pair("+982", "num:+982")]
    );
}

#[test]
fn text_that_waits_asks_for_its_number() {
    assert!(text_prompt(&OwnerTextOutcome::Done).is_none());
    let card = text_prompt(&OwnerTextOutcome::NeedNumber(vec!["+981".to_string()])).unwrap();
    assert_eq!(card.text, "which number?");
    assert_eq!(buttons(&card), vec![pair("+981", "num:+981")]);
    let bare = text_prompt(&OwnerTextOutcome::NeedNumber(vec![])).unwrap();
    assert_eq!(bare.text, "which number?");
    assert!(bare.keyboard.is_some() && buttons(&bare).is_empty());
}

#[test]
fn contacts_are_offered_where_there_are_any() {
    assert!(contact_prompt(&[]).is_none());
    let card = contact_prompt(&[ali()]).unwrap();
    assert_eq!((card.text.as_str(), card.html), ("pick a contact", false));
    assert_eq!(buttons(&card), vec![pair("Ali", "open:7")]);
}

#[test]
fn search_in_a_dialogue_tells_what_it_found() {
    let card = search_card(&Ok(vec![ali()]));
    assert_eq!((card.text.as_str(), card.html), ("pick a contact", true));
    assert_eq!(buttons(&card), vec![pair("Ali", "cf:c:7")]);
    let none = search_card(&Ok(vec![]));
    assert_eq!(none.text, "no matches");
    assert!(none.keyboard.is_none());
    let failed = search_card(&Err(ActionError::Validation("a<b".to_string())));
    assert!(failed.text.contains("a&lt;b"));
    assert!(failed.keyboard.is_none());
}

#[test]
fn dialogue_shows_plain_words_and_errors_escaped() {
    let card = tap_card("a & b", None);
    assert_eq!((card.text.as_str(), card.html), ("a &amp; b", true));
    assert_eq!(card.unedited, Unedited::Fail);
    assert_eq!(
        error_card(&ActionError::InvalidNumber("<1>".to_string())).text,
        ActionError::InvalidNumber("<1>".to_string())
            .message()
            .replace('<', "&lt;")
            .replace('>', "&gt;")
    );
}

#[test]
fn change_of_forwarding_is_told() {
    let mut db = Db::open_in_memory().unwrap();
    let id = db.upsert_contact("people/a", "Ali").unwrap();
    db.replace_contact_numbers(id, &["+981".to_string()]).unwrap();
    let on = CallForwardState {
        enabled: true,
        e164: Some("+981".to_string()),
    };
    let card = change_card(&db, Ok(on)).unwrap();
    assert_eq!((card.text.as_str(), card.html), ("↪️ Forward · Ali", true));
    assert!(card.keyboard.is_none());
    let off = CallForwardState {
        enabled: false,
        e164: None,
    };
    assert_eq!(change_card(&db, Ok(off)).unwrap().text, "↪️ Forward · off");
    let failed = change_card(&db, Err(ActionError::ModemFailed("a>b".to_string()))).unwrap();
    assert!(failed.text.contains("a&gt;b"));
}

#[test]
fn dialogue_opens_with_the_state_and_its_buttons() {
    let db = Db::open_in_memory().unwrap();
    let card = forward_card(&db, Err(ModemError::Failed("x".to_string()))).unwrap();
    assert_eq!(card.text, "↪️ Forward · unavailable");
    assert_eq!(
        buttons(&card),
        vec![
            pair("Pick contact", "cf:search"),
            pair("Type number", "cf:type"),
            pair("Disable", "cf:off"),
            pair("Cancel", "cf:cancel"),
        ]
    );
}

#[test]
fn status_is_told_or_why_it_is_not() {
    let card = status_told(Ok("<b>Modem</b>".to_string()));
    assert_eq!((card.text.as_str(), card.html), ("<b>Modem</b>", true));
    assert_eq!(buttons(&card), vec![pair("🔄 Refresh", "st:r")]);
    assert_eq!(card.unedited, Unedited::SendNew);
    let failed = status_told(Err(DbError::Poisoned));
    assert_eq!(
        (failed.text.as_str(), failed.html),
        ("status failed: database lock poisoned", false)
    );
    assert!(failed.keyboard.is_none());
    assert_eq!(failed.unedited, Unedited::LetGo);
}

#[test]
fn card_takes_the_place_of_a_message_where_it_can() {
    assert_eq!(card_begun(Some(5)), CardStep::Edit { message_id: 5 });
    assert_eq!(card_begun(None), CardStep::Send);
    for unedited in [Unedited::SendNew, Unedited::LetGo, Unedited::Fail] {
        assert_eq!(card_edited(unedited, &EditOutcome::Edited), CardStep::Done);
        assert_eq!(card_edited(unedited, &refused(true, "x")), CardStep::Done);
        let words = refused(false, "Bad Request: message is not modified");
        assert_eq!(card_edited(unedited, &words), CardStep::Done);
    }
    let gone = refused(false, "message to edit not found");
    assert_eq!(card_edited(Unedited::SendNew, &gone), CardStep::Send);
    assert_eq!(card_edited(Unedited::LetGo, &gone), CardStep::Done);
    assert_eq!(card_edited(Unedited::Fail, &gone), CardStep::Failed);
}

#[test]
fn private_chat_gives_the_status_and_nothing_else() {
    assert_eq!(read_dm("/status", -100), None);
    assert_eq!(read_dm("/status@bot now", -100), None);
    let hint = read_dm("/sms 1 hello", -100).unwrap();
    assert!(hint.contains("(id -100)"));
    assert_eq!(read_dm("hello", -100), Some(hint));
}

#[test]
fn without_a_signal_the_radio_is_not_shown() {
    let snap = |percent: Option<u32>, radio: Option<Radio>, dbm: Option<i32>| StatusSnapshot {
        modem_uid: "stick".to_string(),
        modem: ModemView::Live(ModemLive {
            state: ModemState::Registered,
            operator: Some("MTN".to_string()),
            registration: Some(Registration::Home),
            signal_percent: percent,
            rssi_dbm: dbm,
            access_tech: radio,
            sim: SimStatus::Ready,
        }),
        today_in: 0,
        today_out_ok: 0,
        today_out_fail: 0,
        last_fail_error: None,
        last_in: None,
        last_out: None,
        contacts_ok: true,
    };
    let bare = format_status_html(&snap(None, None, None));
    assert!(bare.contains("home\n📶 No signal\nSIM ok"));
    assert_eq!(format_status_html(&snap(Some(0), Some(Radio::Lte), Some(-93))), bare);
    assert_ne!(format_status_html(&snap(Some(1), Some(Radio::Lte), Some(-93))), bare);
}
