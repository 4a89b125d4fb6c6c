//! Certificate provisioning: when to generate, how to invoke the
//! certificate tool, and how a failed invocation is reported.
//!
//! The pair is regenerated only when the key file or the certificate file is
//! missing; an existing pair is accepted without inspection. Generation asks
//! the external tool for a self-signed certificate with an elliptic-curve
//! key on curve P-256, SHA-256 digest, ten-year validity and a fixed subject,
//! with the tool's own configuration lookup suppressed.

use vstd::prelude::*;
use crate::logging::{LogLine, Severity};

verus! {

/// Subject country.
pub const SUBJECT_C: &'static str = "DE";

/// Subject state or province.
pub const SUBJECT_ST: &'static str = "Bayern";

/// Subject locality.
pub const SUBJECT_L: &'static str = "Kempten (Allg\u{e4}u)";

/// Subject organization.
pub const SUBJECT_O: &'static str = "FLECS Technologies GmbH";

/// Subject common name.
pub const SUBJECT_CN: &'static str = "flecs-webapp.local";

/// Validity of the generated certificate, in days.
pub const VALIDITY_DAYS: &'static str = "3650";

/// The key-generation parameter selecting the P-256 curve.
pub const CURVE_PARAM: &'static str = "ec_paramgen_curve:P-256";

/// The subject distinguished name, fields in the order C, ST, L, O, CN.
pub open spec fn spec_subject_dn() -> Seq<char> {
    "/C="@ + SUBJECT_C@ + "/ST="@ + SUBJECT_ST@ + "/L="@ + SUBJECT_L@ + "/O="@ + SUBJECT_O@
        + "/CN="@ + SUBJECT_CN@
}

/// Assembles the subject distinguished name from the fixed fields.
pub fn subject_dn() -> (s: String)
    ensures
        s@ == spec_subject_dn(),
{
    let mut s = String::from_str("/C=");
    s.append(SUBJECT_C);
    s.append("/ST=");
    s.append(SUBJECT_ST);
    s.append("/L=");
    s.append(SUBJECT_L);
    s.append("/O=");
    s.append(SUBJECT_O);
    s.append("/CN=");
    s.append(SUBJECT_CN);
    proof {
        assert(s@ =~= spec_subject_dn());
    }
    s
}

/// The argument list of the certificate-tool invocation for given key and
/// certificate destinations.
pub open spec fn spec_tool_args(key: Seq<char>, cert: Seq<char>) -> Seq<Seq<char>> {
    seq![
        "req"@,
        "-x509"@,
        "-newkey"@,
        "ec"@,
        "-pkeyopt"@,
        CURVE_PARAM@,
        "-keyout"@,
        key,
        "-out"@,
        cert,
        "-nodes"@,
        "-sha256"@,
        "-days"@,
        VALIDITY_DAYS@,
        "-subj"@,
        spec_subject_dn(),
        "-addext"@,
        "basicConstraints=critical,CA:FALSE"@,
        "-addext"@,
        "keyUsage=critical,digitalSignature,keyEncipherment"@,
        "-addext"@,
        "extendedKeyUsage=serverAuth,clientAuth"@,
    ]
}

/// One synchronous run of the certificate tool: program, arguments, and the
/// single environment override that suppresses its configuration lookup.
/// Standard input is to be closed.
pub struct ToolInvocation {
    pub program: String,
    pub args: Vec<String>,
    pub env_name: String,
    pub env_value: String,
}

/// Builds the certificate-tool invocation writing to the given paths.
pub fn cert_tool_invocation(key_path: &str, cert_path: &str) -> (t: ToolInvocation)
    ensures
        t.program@ == "/bin/openssl"@,
        t.env_name@ == "OPENSSL_CONF"@,
        t.env_value@ == "/dev/null"@,
        t.args.deep_view() == spec_tool_args(key_path@, cert_path@),
{
    let mut args: Vec<String> = Vec::new();
    args.push(String::from_str("req"));
    args.push(String::from_str("-x509"));
    args.push(String::from_str("-newkey"));
    args.push(String::from_str("ec"));
    args.push(String::from_str("-pkeyopt"));
    args.push(String::from_str(CURVE_PARAM));
    args.push(String::from_str("-keyout"));
    args.push(String::from_str(key_path));
    args.push(String::from_str("-out"));
    args.push(String::from_str(cert_path));
    args.push(String::from_str("-nodes"));
    args.push(String::from_str("-sha256"));
    args.push(String::from_str("-days"));
    args.push(String::from_str(VALIDITY_DAYS));
    args.push(String::from_str("-subj"));
    args.push(subject_dn());
    args.push(String::from_str("-addext"));
    args.push(String::from_str("basicConstraints=critical,CA:FALSE"));
    args.push(String::from_str("-addext"));
    args.push(String::from_str("keyUsage=critical,digitalSignature,keyEncipherment"));
    args.push(String::from_str("-addext"));
    args.push(String::from_str("extendedKeyUsage=serverAuth,clientAuth"));
    proof {
        assert(args.deep_view() =~~= spec_tool_args(key_path@, cert_path@));
    }
    ToolInvocation {
        program: String::from_str("/bin/openssl"),
        args,
        env_name: String::from_str("OPENSSL_CONF"),
        env_value: String::from_str("/dev/null"),
    }
}

/// Whether a pair must be generated: only when at least one file is missing.
pub open spec fn spec_generation_needed(key_exists: bool, cert_exists: bool) -> bool {
    !(key_exists && cert_exists)
}

/// Decides whether the key/certificate pair must be generated.
pub fn generation_needed(key_exists: bool, cert_exists: bool) -> (r: bool)
    ensures
        r == spec_generation_needed(key_exists, cert_exists),
{
    !(key_exists && cert_exists)
}

/// What a captured output stream reads in the log: its text, or a fixed
/// placeholder where the stream was not valid text.
pub open spec fn spec_stream_text(s: Option<Seq<char>>) -> Seq<char> {
    match s {
        Some(t) => t,
        None => "Invalid output"@,
    }
}

/// The view of an optionally captured stream.
pub open spec fn spec_stream_view(s: Option<String>) -> Option<Seq<char>> {
    match s {
        Some(t) => Some(t@),
        None => None,
    }
}

fn stream_text(s: &Option<String>) -> (r: &str)
    ensures
        r@ == spec_stream_text(spec_stream_view(*s)),
{
    match s {
        Some(t) => t.as_str(),
        None => "Invalid output",
    }
}

/// The diagnostic lines for a tool run that exited unsuccessfully: both
/// captured streams, each on an error line, with the placeholder standing in
/// for a stream that was not valid text.
pub fn tool_failure_logs(stdout: &Option<String>, stderr: &Option<String>) -> (lines: Vec<
    LogLine,
>)
    ensures
        lines@.len() == 2,
        lines@[0].severity == Severity::Error,
        lines@[0].message@ == "--- stdout: "@ + spec_stream_text(spec_stream_view(*stdout)),
        lines@[1].severity == Severity::Error,
        lines@[1].message@ == "--- stderr: "@ + spec_stream_text(spec_stream_view(*stderr)),
{
    let mut out_msg = String::from_str("--- stdout: ");
    out_msg.append(stream_text(stdout));
    let mut err_msg = String::from_str("--- stderr: ");
    err_msg.append(stream_text(stderr));
    let mut lines: Vec<LogLine> = Vec::new();
    lines.push(LogLine { severity: Severity::Error, message: out_msg });
    lines.push(LogLine { severity: Severity::Error, message: err_msg });
    lines
}

} // verus!
