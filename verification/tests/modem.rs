use telesms_bot::modem::{sim_status, FakeModem, ModemState, Registration, SimStatus};

#[test]
fn mm_state_and_sim() {
    assert_eq!(ModemState::from_mm(8).label(), "Registered");
    assert_eq!(ModemState::from_mm(-1), ModemState::Failed);
    assert_eq!(sim_status(ModemState::Failed, 2, 1), SimStatus::Missing);
    assert_eq!(sim_status(ModemState::Locked, 0, 2), SimStatus::PinRequired);
    assert_eq!(sim_status(ModemState::Registered, 0, 3), SimStatus::Ready);
    assert_eq!(Registration::from_mm(1), Some(Registration::Home));
    assert_eq!(Registration::from_mm(5), Some(Registration::Roaming));
    assert_eq!(Registration::from_mm(0), None);
}

#[test]
fn send_returns_unique_paths_and_records() {
    let mut m = FakeModem::default();
    let a = m.send("+98912", "hi").unwrap();
    let b = m.send("+98913", "yo").unwrap();
    assert_eq!(a, "/fake/sms/1");
    assert_eq!(b, "/fake/sms/2");
    assert_ne!(a, b);
    assert_eq!(
        m.sent.as_slice(),
        &[
            ("+98912".into(), "hi".into()),
            ("+98913".into(), "yo".into())
        ]
    );
}

#[test]
fn delete_records_path_and_is_idempotent() {
    let mut m = FakeModem::default();
    m.delete("/sms/1").unwrap();
    m.delete("/sms/1").unwrap();
    assert_eq!(
        m.deleted.as_slice(),
        &["/sms/1".into(), "/sms/1".into()] as &[String]
    );
}

#[test]
fn send_fail_does_not_delete() {
    let mut m = FakeModem {
        fail: true,
        ..FakeModem::default()
    };
    assert!(m.send("+1", "x").is_err());
    assert!(m.deleted.is_empty());
}

#[test]
fn fake_call_forward_set_query_disable() {
    let mut m = FakeModem::default();
    assert!(!m.query_forward("IR").unwrap().enabled);
    let set = m.set_forward("+989121234567", "IR").unwrap();
    assert!(set.enabled);
    assert_eq!(set.e164.as_deref(), Some("+989121234567"));
    assert_eq!(m.query_forward("IR").unwrap(), set);
    let off = m.disable_forward("IR").unwrap();
    assert!(!off.enabled);
    assert!(off.e164.is_none());
}

#[test]
fn fake_call_forward_fail() {
    let m = FakeModem {
        forward_fail: true,
        ..FakeModem::default()
    };
    assert!(m.query_forward("IR").is_err());
}
