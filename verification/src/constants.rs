//! Names of the service units that the agent controls.

use vstd::prelude::*;

verus! {

/// Service unit of the kiosk web browser.
pub const CHROMIUM_SERVICE: &'static str = "chromium.service";

/// Service unit that shows installation instructions.
pub const INSTALLATION_INSTRUCTIONS_SERVICE: &'static str = "installation-instructions.service";

/// Service unit that warns about an unconfigured system.
pub const UNCONFIGURED_WARNING_SERVICE: &'static str = "unconfigured-warning.service";

/// The display-owning service units, of which at most one may drive the
/// screen at any time, in the preference order of the mode query:
/// productive content first, then informational services.
pub fn conflicting_services() -> (services: Vec<&'static str>)
    ensures
        services@.len() == 3,
        services@[0]@ == CHROMIUM_SERVICE@,
        services@[1]@ == INSTALLATION_INSTRUCTIONS_SERVICE@,
        services@[2]@ == UNCONFIGURED_WARNING_SERVICE@,
{
    vec![CHROMIUM_SERVICE, INSTALLATION_INSTRUCTIONS_SERVICE, UNCONFIGURED_WARNING_SERVICE]
}

} // verus!
