//! The browser lifecycle supervisor.
//!
//! The kiosk web browser runs as a service unit; the supervisor drives
//! it through stop, poll and start.  A shutdown is awaited by polling
//! the unit's status; the wait is bounded so that a stuck unit cannot
//! hang the handling thread forever.

use vstd::prelude::*;
use vstd::string::StringExecFns;

use crate::constants::CHROMIUM_SERVICE;
use crate::systemctl;
use crate::systemctl::{is_ok, spawn_failure};

verus! {

/// Path of the browser's preferences file below the home directory.
pub const CHROMIUM_DEFAULT_PREFERENCES: &'static str = ".config/chromium/Default/Preferences";

/// Upper bound on the status polls of one shutdown wait.
pub const MAX_SHUTDOWN_POLLS: u64 = 600;

/// Relies on `home::home_dir`: the user's home directory, read from the
/// environment, so nothing is promised of the result.
#[verifier::external_body]
fn home_directory() -> (r: Option<String>) {
    home::home_dir().and_then(|path| path.to_str().map(str::to_string))
}

/// The preferences file path below the given home directory.
pub fn preferences_path(home: String) -> (r: String)
    ensures
        r@ == home@ + "/"@ + CHROMIUM_DEFAULT_PREFERENCES@,
{
    home.concat("/").concat(CHROMIUM_DEFAULT_PREFERENCES)
}

/// Returns the path to the default preferences file of the kiosk
/// browser, or nothing when no home directory can be resolved.
pub fn default_preferences_file() -> (r: Option<String>) {
    match home_directory() {
        Some(home) => Some(preferences_path(home)),
        None => None,
    }
}

/// The raw outcome of stopping the browser service.
fn stop_outcome() -> Result<crate::systemctl::ExitOutcome, String> {
    systemctl::stop(CHROMIUM_SERVICE)
}

/// Stops the browser service and reports whether the stop call
/// succeeded.
pub fn stop() -> bool {
    is_ok(&stop_outcome())
}

/// Asks whether the browser service currently reports a running status.
pub fn is_running() -> bool {
    is_ok(&systemctl::status(CHROMIUM_SERVICE))
}

/// Starts the browser service and reports whether the start call
/// succeeded.
pub fn start() -> bool {
    is_ok(&systemctl::start(CHROMIUM_SERVICE))
}

/// Why a shutdown wait did not observe the browser down.
#[derive(Clone, Debug, PartialEq, Eq)]
pub enum ShutdownError {
    /// The stop command could not be issued; the text of the error.
    StopFailed(String),
    /// A status poll could not be issued; the text of the error.
    PollFailed(String),
    /// The service still reported running when the bounded wait expired.
    TimedOut,
}

/// Issues a stop and then polls the service's status until it reports
/// not-running: success means a poll observed the service down.  A stop
/// or poll that cannot even be issued is reported as the error it was;
/// the wait gives up with a timeout error after a fixed number of
/// polls, so that an unresponsive unit cannot block the handler
/// indefinitely.  A stop that runs but exits non-zero is tolerated:
/// teardown is best-effort, and the polls observe the actual state.
pub fn await_shutdown() -> (r: Result<(), ShutdownError>) {
    if let Some(error) = spawn_failure(stop_outcome()) {
        return Err(ShutdownError::StopFailed(error));
    }
    let mut polls: u64 = 0;
    while polls < MAX_SHUTDOWN_POLLS
        invariant
            polls <= MAX_SHUTDOWN_POLLS,
        decreases MAX_SHUTDOWN_POLLS - polls,
    {
        let outcome = systemctl::status(CHROMIUM_SERVICE);
        if !is_ok(&outcome) {
            match spawn_failure(outcome) {
                Some(error) => {
                    return Err(ShutdownError::PollFailed(error));
                },
                None => {
                    return Ok(());
                },
            }
        }
        polls = polls + 1;
    }
    Err(ShutdownError::TimedOut)
}

/// Restarts the browser service: awaits its shutdown, then starts it,
/// and reports whether the start call succeeded.  A failed wait does
/// not abort the restart — the start is attempted all the same, and
/// only the start call's success is the answer.
pub fn restart() -> bool {
    let _ = await_shutdown();
    start()
}

} // verus!
