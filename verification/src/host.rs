//! The process executor: runs script text in a fresh scripting-host process
//! and captures its standard output.
//!
//! Everything here crosses into the `powershell_script` crate.  The contracts
//! below are trusted: they state no more than that crate's source shows, and
//! in particular nothing about which outcome a run produces — the host's
//! behaviour is outside this library, and callers must hold for every
//! outcome.

use vstd::prelude::*;

use crate::error::BridgeError;

verus! {

/// The handle to the process-execution mechanism of `powershell_script`.
#[verifier::external_type_specification]
#[verifier::external_body]
pub struct ExPsScript(powershell_script::PsScript);

/// The captured outcome of one host process run.
#[verifier::external_type_specification]
#[verifier::external_body]
pub struct ExOutput(powershell_script::Output);

/// Relies on `powershell_script::Output::stdout`: the utf-8 parsed
/// standard-output capture of the child process, `None` exactly when the
/// capture was empty — so a returned string is never empty.
pub assume_specification[ powershell_script::Output::stdout ](
    o: &powershell_script::Output,
) -> (r: Option<String>)
    ensures
        r matches Some(s) ==> s@.len() > 0,
;

/// Relies on `powershell_script::PsScriptBuilder`: builds a host handle
/// configured for unattended, headless use — non-interactive, hidden
/// window, no startup profile, commands not echoed to output.
#[verifier::external_body]
pub fn build_host() -> (r: powershell_script::PsScript) {
    powershell_script::PsScriptBuilder::new().non_interactive(true).hidden(true).no_profile(
        true,
    ).print_commands(false).build()
}

/// Relies on `powershell_script::PsScript::run`: feeds the script text line
/// by line to a fresh host process and waits synchronously for its exit.
/// An `Err` is classified by the variant of the crate's `PsError`:
/// `Powershell` (the host ran and signaled an error status) becomes
/// [`BridgeError::ExecutionError`]; `Io`, `PowershellNotFound` and
/// `ChildStdinNotFound` (the host could not be started or driven) become
/// [`BridgeError::SpawnFailure`].
///
/// Caveat: `run` looks the host executable up on the search path and
/// unwraps that lookup, so in an environment with no `PATH` variable the
/// call panics inside the outside crate.  That is environmental, not a
/// function of the arguments, and cannot be excluded by a precondition.
#[verifier::external_body]
pub fn run_host(ps: &powershell_script::PsScript, script: &str) -> (r: Result<
    powershell_script::Output,
    BridgeError,
>)
    ensures
        r matches Err(e) ==> e.is_host_error(),
{
    match ps.run(script) {
        Ok(out) => Ok(out),
        Err(powershell_script::PsError::Powershell(_)) => Err(BridgeError::ExecutionError),
        Err(powershell_script::PsError::Io(_)) => Err(BridgeError::SpawnFailure),
        Err(powershell_script::PsError::PowershellNotFound) => Err(BridgeError::SpawnFailure),
        Err(powershell_script::PsError::ChildStdinNotFound) => Err(BridgeError::SpawnFailure),
    }
}

} // verus!
