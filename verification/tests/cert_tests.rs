use entrypoint::cert::{
    cert_tool_invocation, generation_needed, subject_dn, tool_failure_logs, CURVE_PARAM,
    SUBJECT_C, SUBJECT_CN, SUBJECT_L, SUBJECT_O, SUBJECT_ST, VALIDITY_DAYS,
};
use entrypoint::logging::Severity;

#[test]
fn subject_constants() {
    assert_eq!(SUBJECT_C, "DE");
    assert_eq!(SUBJECT_ST, "Bayern");
    assert_eq!(SUBJECT_L, "Kempten (Allg\u{e4}u)");
    assert_eq!(SUBJECT_O, "FLECS Technologies GmbH");
    assert_eq!(SUBJECT_CN, "flecs-webapp.local");
    assert_eq!(VALIDITY_DAYS, "3650");
    assert_eq!(CURVE_PARAM, "ec_paramgen_curve:P-256");
}

#[test]
fn subject_dn_field_order() {
    assert_eq!(
        subject_dn(),
        "/C=DE/ST=Bayern/L=Kempten (Allg\u{e4}u)/O=FLECS Technologies GmbH/CN=flecs-webapp.local"
    );
}

#[test]
fn tool_invocation_is_fixed() {
    let t = cert_tool_invocation("etc/nginx/certs/key.pem", "etc/nginx/certs/cert.pem");
    assert_eq!(t.program, "/bin/openssl");
    assert_eq!(t.env_name, "OPENSSL_CONF");
    assert_eq!(t.env_value, "/dev/null");
    let expected: Vec<&str> = vec![
        "req",
        "-x509",
        "-newkey",
        "ec",
        "-pkeyopt",
        "ec_paramgen_curve:P-256",
        "-keyout",
        "etc/nginx/certs/key.pem",
        "-out",
        "etc/nginx/certs/cert.pem",
        "-nodes",
        "-sha256",
        "-days",
        "3650",
        "-subj",
        "/C=DE/ST=Bayern/L=Kempten (Allg\u{e4}u)/O=FLECS Technologies GmbH/CN=flecs-webapp.local",
        "-addext",
        "basicConstraints=critical,CA:FALSE",
        "-addext",
        "keyUsage=critical,digitalSignature,keyEncipherment",
        "-addext",
        "extendedKeyUsage=serverAuth,clientAuth",
    ];
    assert_eq!(t.args.len(), expected.len());
    for (got, want) in t.args.iter().zip(expected.iter()) {
        assert_eq!(got, want);
    }
}

#[test]
fn generation_needed_truth_table() {
    assert!(!generation_needed(true, true));
    assert!(generation_needed(true, false));
    assert!(generation_needed(false, true));
    assert!(generation_needed(false, false));
}

#[test]
fn failure_logs_carry_both_streams() {
    let lines = tool_failure_logs(
        &Some(String::from("out text")),
        &Some(String::from("err text")),
    );
    assert_eq!(lines.len(), 2);
    assert_eq!(lines[0].severity, Severity::Error);
    assert_eq!(lines[0].message, "--- stdout: out text");
    assert_eq!(lines[1].severity, Severity::Error);
    assert_eq!(lines[1].message, "--- stderr: err text");
}

#[test]
fn failure_logs_use_placeholder_for_invalid_text() {
    let lines = tool_failure_logs(&None, &None);
    assert_eq!(lines[0].message, "--- stdout: Invalid output");
    assert_eq!(lines[1].message, "--- stderr: Invalid output");
}
