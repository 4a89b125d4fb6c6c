use entrypoint::port::{
    colon_port, parse_u16, port_suffix, resolve_port, u16_to_decimal, DEFAULT_HTTPS_PORT,
};

#[test]
fn parse_plain_numbers() {
    assert_eq!(parse_u16("0"), Some(0));
    assert_eq!(parse_u16("1"), Some(1));
    assert_eq!(parse_u16("443"), Some(443));
    assert_eq!(parse_u16("8443"), Some(8443));
    assert_eq!(parse_u16("65535"), Some(65535));
    assert_eq!(parse_u16("0443"), Some(443));
}

#[test]
fn parse_accepts_leading_plus() {
    assert_eq!(parse_u16("+443"), Some(443));
    assert_eq!(parse_u16("+0"), Some(0));
}

#[test]
fn parse_rejects_malformed() {
    assert_eq!(parse_u16(""), None);
    assert_eq!(parse_u16("+"), None);
    assert_eq!(parse_u16("not-a-number"), None);
    assert_eq!(parse_u16("-1"), None);
    assert_eq!(parse_u16(" 443"), None);
    assert_eq!(parse_u16("443 "), None);
    assert_eq!(parse_u16("44_3"), None);
    assert_eq!(parse_u16("8443x"), None);
    assert_eq!(parse_u16("\u{34}\u{2074}"), None);
}

#[test]
fn parse_rejects_overflow() {
    assert_eq!(parse_u16("65536"), None);
    assert_eq!(parse_u16("99999"), None);
    assert_eq!(parse_u16("999999999999999999999"), None);
}

#[test]
fn resolve_unset_is_default_and_silent() {
    let c = resolve_port(None);
    assert_eq!(c.port, 443);
    assert!(!c.warned);
    assert_eq!(c.port, DEFAULT_HTTPS_PORT);
}

#[test]
fn resolve_valid_override() {
    let c = resolve_port(Some("8443"));
    assert_eq!(c.port, 8443);
    assert!(!c.warned);
}

#[test]
fn resolve_malformed_override_warns_and_defaults() {
    let c = resolve_port(Some("not-a-number"));
    assert_eq!(c.port, 443);
    assert!(c.warned);
    let c = resolve_port(Some("65536"));
    assert_eq!(c.port, 443);
    assert!(c.warned);
    let c = resolve_port(Some(""));
    assert_eq!(c.port, 443);
    assert!(c.warned);
}

#[test]
fn decimal_writing() {
    assert_eq!(u16_to_decimal(0), "0");
    assert_eq!(u16_to_decimal(7), "7");
    assert_eq!(u16_to_decimal(10), "10");
    assert_eq!(u16_to_decimal(443), "443");
    assert_eq!(u16_to_decimal(8443), "8443");
    assert_eq!(u16_to_decimal(65535), "65535");
}

#[test]
fn colon_port_always_prefixed() {
    assert_eq!(colon_port(443), ":443");
    assert_eq!(colon_port(8443), ":8443");
}

#[test]
fn suffix_empty_exactly_for_default() {
    assert_eq!(port_suffix(443), "");
    assert_eq!(port_suffix(8443), ":8443");
    assert_eq!(port_suffix(1), ":1");
    assert_eq!(port_suffix(65535), ":65535");
    assert_eq!(port_suffix(80), ":80");
}
