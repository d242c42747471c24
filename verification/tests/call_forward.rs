use telesms_bot::call_forward::{
    ccfc_disable, ccfc_enable, ccfc_query, parse_ccfc_reply, parse_ussd_reply, ussd_disable,
    ussd_enable, ussd_query,
};

#[test]
fn ussd_codes() {
    assert_eq!(ussd_query(), "*#21#");
    assert_eq!(ussd_disable(), "#21#");
    assert_eq!(ussd_enable("+989121234567"), "*21*989121234567#");
}

#[test]
fn ccfc_codes() {
    assert_eq!(ccfc_query(), "AT+CCFC=0,2");
    assert_eq!(ccfc_disable(), "AT+CCFC=0,4");
    assert_eq!(
        ccfc_enable("+989121234567"),
        "AT+CCFC=0,3,\"+989121234567\",145"
    );
}

#[test]
fn parse_ccfc_disabled() {
    let st = parse_ccfc_reply("+CCFC: 0,7\r\nOK\r\n", "IR").unwrap();
    assert!(!st.enabled);
    assert!(st.e164.is_none());
}

#[test]
fn parse_ccfc_enabled_international() {
    let st = parse_ccfc_reply("+CCFC: 1,1,\"+989121234567\",145\r\nOK\r\n", "IR").unwrap();
    assert!(st.enabled);
    assert_eq!(st.e164.as_deref(), Some("+989121234567"));
}

#[test]
fn parse_ccfc_enabled_digits_only() {
    let st = parse_ccfc_reply("+CCFC: 1,1,\"989121234567\",145\r\nOK\r\n", "IR").unwrap();
    assert!(st.enabled);
    assert_eq!(st.e164.as_deref(), Some("+989121234567"));
}

#[test]
fn parse_ccfc_prefers_active_class_with_number() {
    let st = parse_ccfc_reply(
        "+CCFC: 0,1\r\n+CCFC: 1,2,\"09121234567\",129\r\nOK\r\n",
        "IR",
    )
    .unwrap();
    assert!(st.enabled);
    assert_eq!(st.e164.as_deref(), Some("+989121234567"));
}

#[test]
fn parse_ccfc_error_line() {
    assert!(parse_ccfc_reply("ERROR\r\n", "IR").is_err());
    assert!(parse_ccfc_reply("+CME ERROR: 3\r\n", "IR").is_err());
}

#[test]
fn parse_disabled_phrases() {
    for s in [
        "Call Forwarding Unconditional Not Forwarded",
        "CFU deactivated",
        "not forwarded",
        "disabled",
        "Call forwarding not activated for 09121234567",
        "Call forwarding inactive for 09121234567",
    ] {
        let st = parse_ussd_reply(s, "IR").unwrap();
        assert!(!st.enabled, "{s}");
        assert!(st.e164.is_none(), "{s}");
    }
}

#[test]
fn parse_enabled_with_plus_e164() {
    let st = parse_ussd_reply("Call Forwarding Unconditional +989121234567", "IR").unwrap();
    assert!(st.enabled);
    assert_eq!(st.e164.as_deref(), Some("+989121234567"));
}

#[test]
fn parse_enabled_local_digits() {
    let st = parse_ussd_reply("Forwarded to 09121234567", "IR").unwrap();
    assert!(st.enabled);
    assert_eq!(st.e164.as_deref(), Some("+989121234567"));
}

#[test]
fn parse_garbage_errors() {
    assert!(parse_ussd_reply("asdf qwerty", "IR").is_err());
}

#[test]
fn unrelated_digit_run_does_not_enable_forwarding() {
    assert!(parse_ussd_reply("Account reference 09121234567", "IR").is_err());
}
