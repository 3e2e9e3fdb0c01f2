//! Control of OS service units through the `systemctl` command.
//!
//! Every call runs `systemctl` as an external command and reports a
//! tri-state outcome: a regular exit with a code, an abnormal end, or an
//! indeterminate result.  What a call returns depends on the machine, so
//! the functions here promise nothing of the outcome itself; callers hand
//! the outcome to the decision functions of the other modules, which are
//! verified for every possible value.

use vstd::prelude::*;

verus! {

/// Exit of a finished external command, as the `subprocess` crate reports it.
#[derive(Clone, Copy, Debug, PartialEq, Eq, Structural)]
pub enum ExitOutcome {
    /// The process exited regularly with the given exit code.
    Exited(u32),
    /// The process was killed by the given signal.
    Signaled(u8),
    /// The process finished in a way that fits neither of the above.
    Other(i32),
    /// The exit of the process could not be determined.
    Undetermined,
}

/// Holds when a service-control call finished with exit code zero.
pub open spec fn outcome_ok(r: Result<ExitOutcome, String>) -> bool {
    r matches Ok(ExitOutcome::Exited(0))
}

/// Decides whether a service-control outcome reports success, that is,
/// a regular exit with code zero.
pub fn is_ok(outcome: &Result<ExitOutcome, String>) -> (b: bool)
    ensures
        b == outcome_ok(*outcome),
{
    match outcome {
        Ok(ExitOutcome::Exited(code)) => *code == 0,
        _ => false,
    }
}

/// The spawn failure of a service-control call, if it has one: a call
/// that ran is tolerated whatever its exit, since best-effort steps let
/// later probes observe the actual state.
pub fn spawn_failure(outcome: Result<ExitOutcome, String>) -> (r: Option<String>)
    ensures
        match r {
            Some(error) => outcome matches Err(e) && error@ == e@,
            None => outcome is Ok,
        },
{
    match outcome {
        Ok(_) => None,
        Err(error) => Some(error),
    }
}

/// Relies on `subprocess::Popen::create` and `subprocess::Popen::wait`:
/// runs the given command line and waits for it to finish.  The outcome
/// depends on the machine, so nothing is promised of it; a failure to
/// spawn or to wait comes back as the error's text.
#[verifier::external_body]
fn run_and_wait(argv: &Vec<String>) -> (r: Result<ExitOutcome, String>) {
    let waited = subprocess::Popen::create(argv, subprocess::PopenConfig {
        stdout: subprocess::Redirection::Pipe,
        stderr: subprocess::Redirection::Pipe,
        detached: false,
        ..Default::default()
    })
    .and_then(|mut popen| popen.wait());
    match waited {
        Ok(subprocess::ExitStatus::Exited(code)) => Ok(ExitOutcome::Exited(code)),
        Ok(subprocess::ExitStatus::Signaled(signal)) => Ok(ExitOutcome::Signaled(signal)),
        Ok(subprocess::ExitStatus::Other(other)) => Ok(ExitOutcome::Other(other)),
        Ok(subprocess::ExitStatus::Undetermined) => Ok(ExitOutcome::Undetermined),
        Err(error) => Err(error.to_string()),
    }
}

/// The views of a command line.
pub open spec fn argv_views(argv: Seq<String>) -> Seq<Seq<char>> {
    Seq::new(argv.len(), |i: int| argv[i]@)
}

/// A subcommand of one verb on one unit.
fn verb_unit(verb: &str, service: &str) -> (args: Vec<String>)
    ensures
        argv_views(args@) == seq![verb@, service@],
{
    let args = vec![verb.to_owned(), service.to_owned()];
    proof {
        assert(argv_views(args@) =~= seq![verb@, service@]);
    }
    args
}

/// A subcommand of one verb with one flag on one unit.
fn verb_flag_unit(verb: &str, flag: &str, service: &str) -> (args: Vec<String>)
    ensures
        argv_views(args@) == seq![verb@, flag@, service@],
{
    let args = vec![verb.to_owned(), flag.to_owned(), service.to_owned()];
    proof {
        assert(argv_views(args@) =~= seq![verb@, flag@, service@]);
    }
    args
}

/// Runs a systemctl subcommand with administrative rights: the command
/// line is `sudo systemctl` followed by exactly the subcommand.
fn systemctl_adm(args: Vec<String>) -> Result<ExitOutcome, String> {
    let mut argv: Vec<String> = Vec::new();
    argv.push("sudo".to_owned());
    argv.push("systemctl".to_owned());
    let ghost subcommand = args@;
    let mut rest = args;
    argv.append(&mut rest);
    proof {
        assert(argv_views(argv@) =~= seq!["sudo"@, "systemctl"@] + argv_views(subcommand));
    }
    run_and_wait(&argv)
}

/// Runs a systemctl subcommand as the normal user: the command line is
/// `systemctl` followed by exactly the subcommand.
fn systemctl(args: Vec<String>) -> Result<ExitOutcome, String> {
    let mut argv: Vec<String> = Vec::new();
    argv.push("systemctl".to_owned());
    let ghost subcommand = args@;
    let mut rest = args;
    argv.append(&mut rest);
    proof {
        assert(argv_views(argv@) =~= seq!["systemctl"@] + argv_views(subcommand));
    }
    run_and_wait(&argv)
}

/// Starts the given service.
pub fn start(service: &str) -> Result<ExitOutcome, String> {
    systemctl_adm(verb_unit("start", service))
}

/// Stops the given service.
pub fn stop(service: &str) -> Result<ExitOutcome, String> {
    systemctl_adm(verb_unit("stop", service))
}

/// Stops and disables the given service.
pub fn stop_and_disable(service: &str) -> Result<ExitOutcome, String> {
    systemctl_adm(verb_flag_unit("disable", "--now", service))
}

/// Enables and starts the given service.
pub fn enable_and_start(service: &str) -> Result<ExitOutcome, String> {
    systemctl_adm(verb_flag_unit("enable", "--now", service))
}

/// Asks whether the given service is enabled.
pub fn is_enabled(service: &str) -> Result<ExitOutcome, String> {
    systemctl(verb_unit("is-enabled", service))
}

/// Asks whether the given service is active.
pub fn is_active(service: &str) -> Result<ExitOutcome, String> {
    systemctl(verb_unit("is-active", service))
}

/// Returns the status of the given service.
pub fn status(service: &str) -> Result<ExitOutcome, String> {
    systemctl(verb_unit("status", service))
}

/// Determines whether the given service is enabled or active: first the
/// enablement is probed, and only if that does not report success is the
/// activity probed.
pub fn is_enabled_or_active(service: &str) -> bool {
    if is_ok(&is_enabled(service)) {
        return true;
    }
    if is_ok(&is_active(service)) {
        return true;
    }
    false
}

} // verus!
