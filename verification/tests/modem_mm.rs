use telesms_bot::call_forward::parse_ussd_reply;
use telesms_bot::modem::ModemError;
use telesms_bot::modem_mm::{
    apply_ussd_reply, delete_already_gone, delete_already_gone_name, rssi_from_signal,
    sms_is_inbound, sms_text_ready, BusError, PathCache, Rsrp,
};

#[test]
fn submit_pdu_is_not_inbound() {
    assert!(!sms_is_inbound(2));
    assert!(sms_is_inbound(1));
}

#[test]
fn empty_inbound_text_is_not_decode_ready() {
    assert!(!sms_text_ready(""));
    assert!(sms_text_ready("hi"));
    assert!(sms_text_ready("سلام\nline"));
}

#[test]
fn apply_ussd_reply_only_requires_initiate_success() {
    assert!(parse_ussd_reply("Operation completed", "IR").is_err());
    assert!(apply_ussd_reply(Ok("Operation completed".into())).is_ok());
    assert!(apply_ussd_reply(Err(ModemError::Failed("initiate failed".into()))).is_err());
}

#[test]
fn unknown_object_fdo_is_already_gone() {
    let err = zbus::Error::FDO(Box::new(zbus::fdo::Error::UnknownObject("gone".into())));
    assert!(delete_already_gone(&bus_error(&err)));
    let other = zbus::Error::Failure("modem busy".into());
    assert!(!delete_already_gone(&bus_error(&other)));
}

#[test]
fn mm_core_not_found_is_already_gone() {
    assert!(delete_already_gone_name(
        "org.freedesktop.ModemManager1.Error.Core.NotFound"
    ));
    let err = zbus::Error::Failure(
        "org.freedesktop.ModemManager1.Error.Core.NotFound: \
         Not found: No SMS found with path '/org/freedesktop/ModemManager1/SMS/193'"
            .into(),
    );
    assert!(delete_already_gone(&bus_error(&err)));
    assert!(!delete_already_gone_name(
        "org.freedesktop.ModemManager1.Error.Core.Failed"
    ));
}

#[test]
fn rssi_prefers_lte_rsrp() {
    let rsrp: f64 = -102.4;
    let rssi: f64 = -80.0;
    let lte_rsrp = Rsrp {
        dbm: rsrp.round() as i32,
        real: rsrp.abs() > 0.1,
    };
    assert_eq!(
        rssi_from_signal(Some(lte_rsrp), Some(rssi.round() as i32), None, None),
        Some(-102)
    );
}

fn sample_path() -> String {
    "/org/freedesktop/ModemManager1/Modem/0".to_string()
}

fn bus_error(err: &zbus::Error) -> BusError {
    match err {
        zbus::Error::FDO(e) => BusError::Standard {
            unknown_object: matches!(e.as_ref(), zbus::fdo::Error::UnknownObject(_)),
        },
        zbus::Error::MethodError(name, _, _) => BusError::Method {
            name: name.as_str().to_string(),
        },
        _ => BusError::Other {
            text: err.to_string(),
        },
    }
}

#[test]
fn path_cache_hit_store_invalidate() {
    let mut cache = PathCache::new();
    assert!(cache.hit().is_none());
    let path = sample_path();
    cache.store(path.clone());
    assert_eq!(
        cache.hit().as_ref().map(|p| p.as_str()),
        Some(path.as_str())
    );
    cache.invalidate();
    assert!(cache.hit().is_none());
}

#[test]
fn stale_path_errors_invalidate_cache() {
    let mut cache = PathCache::new();
    cache.store(sample_path());
    assert!(!cache.invalidate_if_stale(&ModemError::Failed("modem busy".into())));
    assert!(cache.hit().is_some());
    assert!(cache.invalidate_if_stale(&ModemError::NotFound("dwm222".into())));
    assert!(cache.hit().is_none());
    cache.store(sample_path());
    assert!(cache.invalidate_if_stale(&ModemError::Failed(
        "org.freedesktop.DBus.Error.UnknownObject".into()
    )));
    assert!(cache.hit().is_none());
}
