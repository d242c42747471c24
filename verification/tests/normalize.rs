use telesms_bot::normalize::{normalize_e164, NormalizeError};

#[test]
fn ir_national_09() {
    assert_eq!(
        normalize_e164("09121234567", "IR").unwrap(),
        "+989121234567"
    );
}

#[test]
fn ir_without_plus() {
    assert_eq!(
        normalize_e164("989121234567", "IR").unwrap(),
        "+989121234567"
    );
}

#[test]
fn already_e164() {
    assert_eq!(
        normalize_e164("+989121234567", "IR").unwrap(),
        "+989121234567"
    );
}

#[test]
fn other_plus_kept() {
    assert_eq!(
        normalize_e164("+14155552671", "IR").unwrap(),
        "+14155552671"
    );
}

#[test]
fn garbage_err() {
    assert!(matches!(
        normalize_e164("hello", "IR"),
        Err(NormalizeError::Invalid { .. })
    ));
}

#[test]
fn empty_err() {
    assert!(matches!(
        normalize_e164("  ", "IR"),
        Err(NormalizeError::Empty)
    ));
}
