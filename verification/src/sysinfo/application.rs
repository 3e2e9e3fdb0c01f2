//! The display applications that the device can run, and which of them
//! is preferred or currently active.

use vstd::prelude::*;

use crate::systemctl::{is_active, is_enabled, is_ok};
use crate::sysinfo::text::str_eq;

verus! {

/// The operating mode that a display application belongs to.
#[derive(Clone, Copy, Debug, PartialEq, Eq, Structural)]
pub enum Mode {
    /// Productive digital-signage content.
    Productive,
    /// Installation instructions.
    InstallationInstructions,
    /// The not-configured warning.
    NotConfigured,
    /// No display application.
    Off,
}

/// The display applications, in the preference order of the status
/// probe: productive applications first, then the informational ones.
#[derive(Clone, Copy, Debug, PartialEq, Eq, Structural)]
pub enum Application {
    /// The HTML digital-signage application.
    Html,
    /// The Air digital-signage application.
    Air,
    /// The not-configured warning screen.
    NotConfiguredWarning,
    /// The installation-instructions screen.
    InstallationInstructions,
    /// No display application.
    Off,
}

/// What is known of one display application: its name, its mode, and
/// its service unit and package where it has them.
#[derive(Clone, Copy, Debug, PartialEq, Eq)]
pub struct Metadata {
    /// The short name of the application.
    pub name: &'static str,
    /// The mode the application belongs to.
    pub mode: Mode,
    /// The service unit that runs the application, if it has one.
    pub unit: Option<&'static str>,
    /// The package that ships the application, if it has one.
    pub package: Option<&'static str>,
}

impl Metadata {
    /// Builds a metadata record from its four parts.
    pub fn new(
        name: &'static str,
        mode: Mode,
        unit: Option<&'static str>,
        package: Option<&'static str>,
    ) -> (r: Self)
        ensures
            r.name == name,
            r.mode == mode,
            r.unit == unit,
            r.package == package,
    {
        Self { name, mode, unit, package }
    }

    /// Whether the application shows productive content.
    pub fn is_productive(&self) -> (r: bool)
        ensures
            r == (self.mode is Productive),
    {
        match self.mode {
            Mode::Productive => true,
            _ => false,
        }
    }
}

/// Holds when a metadata record carries exactly the given parts.
pub open spec fn metadata_is(
    r: Metadata,
    name: Seq<char>,
    mode: Mode,
    unit: Option<Seq<char>>,
    package: Option<Seq<char>>,
) -> bool {
    &&& r.name@ == name
    &&& r.mode == mode
    &&& match (r.unit, unit) {
        (Some(u), Some(v)) => u@ == v,
        (None, None) => true,
        _ => false,
    }
    &&& match (r.package, package) {
        (Some(u), Some(v)) => u@ == v,
        (None, None) => true,
        _ => false,
    }
}

/// The metadata of each display application.
pub fn metadata_of(application: &Application) -> (r: Metadata)
    ensures
        *application is Html ==> metadata_is(
            r,
            "html"@,
            Mode::Productive,
            Some("html5ds.service"@),
            Some("application-html"@),
        ),
        *application is Air ==> metadata_is(
            r,
            "air"@,
            Mode::Productive,
            Some("application.service"@),
            Some("application-air"@),
        ),
        *application is NotConfiguredWarning ==> metadata_is(
            r,
            "not configured"@,
            Mode::NotConfigured,
            Some("unconfigured-warning.service"@),
            None,
        ),
        *application is InstallationInstructions ==> metadata_is(
            r,
            "installation instructions"@,
            Mode::InstallationInstructions,
            Some("installation-instructions.service"@),
            None,
        ),
        *application is Off ==> metadata_is(r, "off"@, Mode::Off, None, None),
{
    match application {
        Application::Html => Metadata::new(
            "html",
            Mode::Productive,
            Some("html5ds.service"),
            Some("application-html"),
        ),
        Application::Air => Metadata::new(
            "air",
            Mode::Productive,
            Some("application.service"),
            Some("application-air"),
        ),
        Application::NotConfiguredWarning => Metadata::new(
            "not configured",
            Mode::NotConfigured,
            Some("unconfigured-warning.service"),
            None,
        ),
        Application::InstallationInstructions => Metadata::new(
            "installation instructions",
            Mode::InstallationInstructions,
            Some("installation-instructions.service"),
            None,
        ),
        Application::Off => Metadata::new("off", Mode::Off, None, None),
    }
}

/// Holds when one of the names equals the given one.
pub open spec fn spec_contains_name(names: Seq<Seq<char>>, target: Seq<char>) -> bool {
    exists|i: int| 0 <= i < names.len() && names[i] == target
}

/// The views of a list of names.
pub open spec fn name_views(names: Seq<String>) -> Seq<Seq<char>> {
    Seq::new(names.len(), |i: int| names[i]@)
}

/// Decides whether the list of names holds the given one.
fn contains_name(names: &Vec<String>, target: &str) -> (r: bool)
    ensures
        r == spec_contains_name(name_views(names@), target@),
{
    let mut i: usize = 0;
    while i < names.len()
        invariant
            0 <= i <= names@.len(),
            forall|j: int| 0 <= j < i ==> names@[j]@ != target@,
        decreases names@.len() - i,
    {
        if str_eq(names[i].as_str(), target) {
            proof {
                assert(name_views(names@)[i as int] == target@);
            }
            return true;
        }
        i = i + 1;
    }
    proof {
        assert forall|j: int| 0 <= j < names@.len() implies name_views(names@)[j] != target@ by {
            assert(name_views(names@)[j] == names@[j]@);
        }
    }
    false
}

/// The preferred productive application among the available service
/// units: the HTML application wins over the Air application, and no
/// productive application is preferred when neither unit is available.
pub open spec fn spec_preferred_application(available: Seq<Seq<char>>) -> Option<Application> {
    if spec_contains_name(available, "html5ds.service"@) {
        Some(Application::Html)
    } else if spec_contains_name(available, "application.service"@) {
        Some(Application::Air)
    } else {
        None
    }
}

/// Picks the preferred productive application: the first application of
/// the preference order that is productive and whose service unit is
/// among the available unit files, handed in by the caller, who reads
/// the service directory at the edge.
pub fn get_preferred_application(available_units: &Vec<String>) -> (r: Option<Application>)
    ensures
        r == spec_preferred_application(name_views(available_units@)),
{
    if contains_name(available_units, "html5ds.service") {
        Some(Application::Html)
    } else if contains_name(available_units, "application.service") {
        Some(Application::Air)
    } else {
        None
    }
}

/// Whether the given service unit is both enabled and active.
fn unit_is_up(unit: &str) -> bool {
    is_ok(&is_enabled(unit)) && is_ok(&is_active(unit))
}

/// The application that a set of probe answers witnesses: the first of
/// the preference order whose unit answered up; off when none did.
pub open spec fn spec_status(
    html: bool,
    air: bool,
    warning: bool,
    instructions: bool,
) -> Application {
    if html {
        Application::Html
    } else if air {
        Application::Air
    } else if warning {
        Application::NotConfiguredWarning
    } else if instructions {
        Application::InstallationInstructions
    } else {
        Application::Off
    }
}

/// Reads the application off a set of probe answers, as [`spec_status`]
/// maps them.
pub fn status_from_probes(html: bool, air: bool, warning: bool, instructions: bool) -> (a:
    Application)
    ensures
        a == spec_status(html, air, warning, instructions),
{
    if html {
        Application::Html
    } else if air {
        Application::Air
    } else if warning {
        Application::NotConfiguredWarning
    } else if instructions {
        Application::InstallationInstructions
    } else {
        Application::Off
    }
}

/// Probes which display application currently owns the screen: the
/// units are probed in the preference order, productive content first,
/// and the probing stops at the first unit found enabled and active.
/// The answer is read off the probe answers by [`status_from_probes`],
/// whose contract carries the first-match policy; a unit the probing
/// never reached counts as down, which the policy never consults.
pub fn status() -> Metadata {
    let html = unit_is_up("html5ds.service");
    let air = !html && unit_is_up("application.service");
    let warning = !html && !air && unit_is_up("unconfigured-warning.service");
    let instructions = !html && !air && !warning && unit_is_up(
        "installation-instructions.service",
    );
    metadata_of(&status_from_probes(html, air, warning, instructions))
}

} // verus!
