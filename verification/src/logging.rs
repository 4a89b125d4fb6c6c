//! Diagnostic lines the bootstrap sequence emits.
//!
//! Each line carries a severity and a message; the shell prints informational
//! lines to standard output and the others to standard error, each behind its
//! severity prefix.

use vstd::prelude::*;

verus! {

/// Severity of a diagnostic line.
#[derive(Clone, Copy, PartialEq, Eq, Structural, Debug)]
pub enum Severity {
    Info,
    Warning,
    Error,
}

/// One diagnostic line.
pub struct LogLine {
    pub severity: Severity,
    pub message: String,
}

/// The prefix each severity is printed behind.
pub open spec fn spec_severity_prefix(s: Severity) -> Seq<char> {
    match s {
        Severity::Info => "[INFO] "@,
        Severity::Warning => "[WARN] "@,
        Severity::Error => "[ERROR] "@,
    }
}

/// The prefix a severity is printed behind.
pub fn severity_prefix(s: Severity) -> (r: &'static str)
    ensures
        r@ == spec_severity_prefix(s),
{
    match s {
        Severity::Info => "[INFO] ",
        Severity::Warning => "[WARN] ",
        Severity::Error => "[ERROR] ",
    }
}

/// Renders a diagnostic line as the text the shell prints.
pub fn format_log_line(line: &LogLine) -> (s: String)
    ensures
        s@ == spec_severity_prefix(line.severity) + line.message@,
{
    let mut s = String::from_str(severity_prefix(line.severity));
    s.append(line.message.as_str());
    s
}

} // verus!
