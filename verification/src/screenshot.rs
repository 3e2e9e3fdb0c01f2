//! Triggering the screenshot service.
//!
//! A screenshot is taken by a dedicated service unit that writes the
//! image to a fixed file.  The trigger starts the unit and then waits,
//! bounded, until the unit no longer reports active; reading the image
//! file afterwards is the caller's part.

use vstd::prelude::*;

use crate::systemctl;
use crate::systemctl::{is_ok, spawn_failure};

verus! {

/// Service unit that takes the screenshot.
pub const SCREENSHOT_SERVICE: &'static str = "screenshot.service";

/// File that the screenshot service writes the image to.
pub const SCREENSHOT_FILE: &'static str = "/tmp/screenshot.png";

/// Upper bound on the status polls of one screenshot wait.
pub const MAX_SCREENSHOT_POLLS: u64 = 600;

/// Starts the screenshot service and waits until it no longer reports
/// active, so that the image file is complete when the caller reads it.
/// A failure to issue the start call comes back as the error's text;
/// the wait is bounded, so a stuck unit cannot hang the handler.
pub fn trigger_screenshot() -> (r: Result<(), String>) {
    if let Some(error) = spawn_failure(systemctl::start(SCREENSHOT_SERVICE)) {
        return Err(error);
    }
    let mut polls: u64 = 0;
    while polls < MAX_SCREENSHOT_POLLS
        invariant
            polls <= MAX_SCREENSHOT_POLLS,
        decreases MAX_SCREENSHOT_POLLS - polls,
    {
        if !is_ok(&systemctl::is_active(SCREENSHOT_SERVICE)) {
            return Ok(());
        }
        polls = polls + 1;
    }
    Ok(())
}

} // verus!
