//! The audit log: one entry per policy decision, and never the secret
//! itself (an entry has no field that could hold it).
use std::io::Write;
use vstd::prelude::*;
use crate::policy::Decision;

verus! {

/// One decision, as the audit log records it.
pub struct AuditEntry<'a> {
    pub caller_exe: &'a str,
    pub provider: &'a str,
    pub action: &'a str,
    pub decision: &'a str,
}

/// Where audit entries go.
pub trait AuditSink: Send + Sync {
    /// Whether `line` is among the lines that this sink has recorded, as
    /// far as the sink can tell.
    spec fn recorded(&self, line: Seq<char>) -> bool;

    /// Records `entry`, as the line `format_entry` gives for it.
    fn record(&self, entry: &AuditEntry)
        ensures
            self.recorded(audit_line(entry.caller_exe@, entry.provider@, entry.action@, entry.decision@)),
    ;
}

/// A boxed sink records what the sink inside records.
impl<T: AuditSink + ?Sized> AuditSink for Box<T> {
    open spec fn recorded(&self, line: Seq<char>) -> bool {
        (**self).recorded(line)
    }

    fn record(&self, entry: &AuditEntry) {
        (**self).record(entry)
    }
}

/// The line that records `entry`.
pub open spec fn audit_line(caller_exe: Seq<char>, provider: Seq<char>, action: Seq<char>, decision: Seq<char>) -> Seq<char> {
    "[audit] caller="@ + caller_exe + " provider="@ + provider + " action="@ + action
        + " decision="@ + decision
}

/// The line that records `entry`, without its line feed.
pub fn format_entry(entry: &AuditEntry) -> (r: String)
    ensures
        r@ == audit_line(entry.caller_exe@, entry.provider@, entry.action@, entry.decision@),
{
    let mut line = String::from_str("[audit] caller=");
    line.append(entry.caller_exe);
    line.append(" provider=");
    line.append(entry.provider);
    line.append(" action=");
    line.append(entry.action);
    line.append(" decision=");
    line.append(entry.decision);
    line
}

/// The name under which the audit log records a decision: what is done
/// with the request. Asking the user is, for now, a denial.
pub open spec fn decision_label(decision: Decision) -> Seq<char> {
    match decision {
        Decision::Allow => "ALLOW"@,
        Decision::Deny => "DENY"@,
        Decision::AskUser => "DENY"@,
    }
}

/// The name under which the audit log records `decision`.
pub fn decision_name(decision: Decision) -> (r: &'static str)
    ensures
        r@ == decision_label(decision),
{
    match decision {
        Decision::Allow => "ALLOW",
        Decision::Deny => "DENY",
        Decision::AskUser => "DENY",
    }
}

/// The entry that records `decision` on `caller_exe` carrying out `action`
/// of `provider`.
pub fn audit_entry<'a>(caller_exe: &'a str, provider: &'a str, action: &'a str, decision: Decision) -> (r: AuditEntry<'a>)
    ensures
        r.caller_exe@ == caller_exe@,
        r.provider@ == provider@,
        r.action@ == action@,
        r.decision@ == decision_label(decision),
{
    AuditEntry { caller_exe, provider, action, decision: decision_name(decision) }
}

/// Writes `line` and a line feed to standard output, ignoring a failed
/// write (std's `writeln!` on `std::io::stdout()`); nothing is stated of
/// the output.
#[verifier::external_body]
fn write_stdout_line(line: &str) {
    let _ = writeln!(std::io::stdout(), "{}", line);
}

/// A sink that writes each entry as a line on standard output.
#[derive(Default)]
pub struct StdoutSink;

impl AuditSink for StdoutSink {
    /// Standard output keeps nothing that the library could read back: of
    /// this sink, nothing is known of a line beyond its having been
    /// written, so every line counts as recorded.
    open spec fn recorded(&self, line: Seq<char>) -> bool {
        true
    }

    fn record(&self, entry: &AuditEntry) {
        let line = format_entry(entry);
        write_stdout_line(line.as_str());
    }
}

} // verus!
