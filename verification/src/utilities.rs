//! What the crate asks of the operating system.

use crate::error::ServerError;
use crate::text::{decimal, lemma_parse_decimal, parse_unsigned, parse_unsigned_spec};
use vstd::prelude::*;
use vstd::string::*;

verus! {

/// Asks `sysinfo` for a fresh process table and looks for `pid` in it with
/// `System::process`. The answer is the machine's: nothing is claimed of it.
#[verifier::external_body]
pub(crate) fn process_exists(pid: u32) -> (found: bool) {
    sysinfo::System::new_with_specifics(
        sysinfo::RefreshKind::new().with_processes(sysinfo::ProcessRefreshKind::everything()),
    ).process(sysinfo::Pid::from_u32(pid)).is_some()
}

/// The largest PID that a pidfile can hold.
pub open spec fn pid_max() -> nat {
    0xffff_ffff
}

/// The PID that a pidfile's text writes, if it writes one.
pub open spec fn pid_spec(text: Seq<char>) -> Option<nat> {
    parse_unsigned_spec(text, pid_max())
}

/// Reads the PID from a pidfile's text.
pub fn parse_pid(text: &str) -> (r: Result<u32, ServerError>)
    ensures
        match r {
            Ok(pid) => pid_spec(text@) == Some(pid as nat),
            Err(e) => pid_spec(text@) is None && (e matches ServerError::ParseIntError(t) && t@
                == text@),
        },
{
    match parse_unsigned(text, 0xffff_ffff) {
        Some(pid) => Ok(pid),
        None => Err(ServerError::ParseIntError(String::from_str(text))),
    }
}

/// Whether the process that a pidfile names is in the process table. Text
/// that is no PID is an error; for a PID the machine decides.
pub fn pid_is_live(text: &str) -> (r: Result<bool, ServerError>)
    ensures
        pid_spec(text@) is Some ==> r is Ok,
        pid_spec(text@) is None ==> (r matches Err(ServerError::ParseIntError(t)) && t@ == text@),
{
    match parse_pid(text) {
        Ok(pid) => Ok(process_exists(pid)),
        Err(e) => Err(e),
    }
}

/// A PID that is written to a pidfile in decimal is read back from it.
pub proof fn lemma_pid_reads_back(pid: u32)
    ensures
        pid_spec(decimal(pid as nat)) == Some(pid as nat),
{
    lemma_parse_decimal(pid as nat, pid_max());
}

} // verus!
