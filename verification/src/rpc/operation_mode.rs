//! The operation-mode state machine.
//!
//! The operation mode is what the system shows on its screen.  Every mode
//! except the black screen maps to one display-owning service unit, and
//! the machine enforces that at most one of the competing units drives
//! the display: setting a mode first tears all competing units down and
//! only then brings the target unit up.
//!
//! What `systemctl` reports depends on the machine, so [`OperationMode::get`]
//! and [`OperationMode::set`] cannot promise what the units do.  The pure
//! model below ([`ConflictState`], [`spec_apply`], [`spec_observe`]) states
//! the machine's guarantees for every combination of call outcomes, and the
//! lemmas at the end prove the exclusivity and get-after-set laws of it.

use vstd::prelude::*;

use crate::constants::{
    conflicting_services, CHROMIUM_SERVICE, INSTALLATION_INSTRUCTIONS_SERVICE,
    UNCONFIGURED_WARNING_SERVICE,
};
use crate::systemctl::{enable_and_start, is_enabled_or_active, is_ok, stop_and_disable};

verus! {

/// Operation mode of the system: what is shown on the display.
#[derive(Clone, Copy, Debug, PartialEq, Eq, Structural)]
pub enum OperationMode {
    /// The kiosk web browser presents digital-signage content.
    Chromium,
    /// Installation instructions are shown.
    InstallationInstructions,
    /// A warning that the system is not configured is shown.
    UnconfiguredWarning,
    /// The screen is turned black; no display service runs.
    BlackScreen,
}

impl OperationMode {
    /// The wire name of the mode, as the RPC surface spells it.
    pub open spec fn spec_name(self) -> Seq<char> {
        match self {
            OperationMode::Chromium => "chromium"@,
            OperationMode::InstallationInstructions => "installationInstructions"@,
            OperationMode::UnconfiguredWarning => "unconfiguredWarning"@,
            OperationMode::BlackScreen => "blackScreen"@,
        }
    }

    /// Returns the wire name of the mode.
    pub fn name(&self) -> (r: &'static str)
        ensures
            r@ == self.spec_name(),
    {
        match self {
            OperationMode::Chromium => "chromium",
            OperationMode::InstallationInstructions => "installationInstructions",
            OperationMode::UnconfiguredWarning => "unconfiguredWarning",
            OperationMode::BlackScreen => "blackScreen",
        }
    }

    /// The service unit that owns the display in this mode, if the mode
    /// has one: the black screen maps to none.
    pub open spec fn spec_unit(self) -> Option<Seq<char>> {
        match self {
            OperationMode::Chromium => Some(CHROMIUM_SERVICE@),
            OperationMode::InstallationInstructions => Some(INSTALLATION_INSTRUCTIONS_SERVICE@),
            OperationMode::UnconfiguredWarning => Some(UNCONFIGURED_WARNING_SERVICE@),
            OperationMode::BlackScreen => None,
        }
    }

    /// Returns the service unit of the mode, as [`Self::spec_unit`] maps
    /// it.
    pub fn unit(&self) -> (r: Option<&'static str>)
        ensures
            r matches Some(unit) ==> self.spec_unit() == Some(unit@),
            r is None <==> self.spec_unit() is None,
    {
        match self {
            Self::Chromium => Some(CHROMIUM_SERVICE),
            Self::InstallationInstructions => Some(INSTALLATION_INSTRUCTIONS_SERVICE),
            Self::UnconfiguredWarning => Some(UNCONFIGURED_WARNING_SERVICE),
            Self::BlackScreen => None,
        }
    }

    /// Queries the current operation mode: the known services are probed
    /// in the fixed preference order, productive content first, and the
    /// probing stops at the first unit found enabled or active.  The
    /// answer is read off the probed state by [`observe`], whose
    /// contract carries the first-match policy; a unit the probing
    /// never reached counts as down, which the policy never consults.
    pub fn get() -> Self {
        let chromium = is_enabled_or_active(CHROMIUM_SERVICE);
        let instructions = !chromium && is_enabled_or_active(INSTALLATION_INSTRUCTIONS_SERVICE);
        let warning = !chromium && !instructions && is_enabled_or_active(
            UNCONFIGURED_WARNING_SERVICE,
        );
        observe(&probed_state(chromium, instructions, warning))
    }

    /// Sets the system to this operation mode by activating its service
    /// unit, as [`Self::spec_unit`] maps it, exclusively.  Setting the
    /// black screen always succeeds, since it only tears the competing
    /// units down.
    pub fn set(&self) -> (ok: bool)
        ensures
            *self is BlackScreen ==> ok,
    {
        activate_exclusive(self.unit())
    }
}

/// The conflict state that a set of probe answers witnesses: a unit
/// whose probe answered enabled-or-active counts as up, one whose probe
/// answered down, or was never reached, counts as down.
pub fn probed_state(
    chromium: bool,
    installation_instructions: bool,
    unconfigured_warning: bool,
) -> (s: ConflictState)
    ensures
        enabled_or_active(s.chromium) == chromium,
        enabled_or_active(s.installation_instructions) == installation_instructions,
        enabled_or_active(s.unconfigured_warning) == unconfigured_warning,
{
    ConflictState {
        chromium: UnitState { enabled: chromium, active: chromium },
        installation_instructions: UnitState {
            enabled: installation_instructions,
            active: installation_instructions,
        },
        unconfigured_warning: UnitState {
            enabled: unconfigured_warning,
            active: unconfigured_warning,
        },
    }
}

/// Stops and disables every unit of the conflict set, best-effort: a
/// failed teardown is not surfaced and does not abort the loop.  Then, if
/// a target unit is given, enables and starts it and reports whether that
/// call succeeded; with no target the activation trivially succeeds.
pub fn activate_exclusive(service: Option<&str>) -> (ok: bool)
    ensures
        service is None ==> ok,
{
    let conflicts = conflicting_services();
    let mut i: usize = 0;
    while i < conflicts.len()
        invariant
            i <= conflicts@.len(),
        decreases conflicts@.len() - i,
    {
        let _ = stop_and_disable(conflicts[i]);
        i = i + 1;
    }
    match service {
        Some(service) => is_ok(&enable_and_start(service)),
        None => true,
    }
}

/// Observable state of one service unit.
#[derive(Clone, Copy, Debug, PartialEq, Eq, Structural)]
pub struct UnitState {
    /// Whether the unit is enabled.
    pub enabled: bool,
    /// Whether the unit is active.
    pub active: bool,
}

/// Modeled state of the three competing display services.
#[derive(Clone, Copy, Debug, PartialEq, Eq, Structural)]
pub struct ConflictState {
    /// State of the kiosk browser unit.
    pub chromium: UnitState,
    /// State of the installation-instructions unit.
    pub installation_instructions: UnitState,
    /// State of the unconfigured-warning unit.
    pub unconfigured_warning: UnitState,
}

/// Which teardown calls of one exclusive activation reported success.
#[derive(Clone, Copy, Debug, PartialEq, Eq, Structural)]
pub struct TeardownOutcome {
    /// Whether stopping and disabling the kiosk browser unit succeeded.
    pub chromium: bool,
    /// Whether stopping and disabling the installation-instructions unit succeeded.
    pub installation_instructions: bool,
    /// Whether stopping and disabling the unconfigured-warning unit succeeded.
    pub unconfigured_warning: bool,
}

/// A unit that is neither enabled nor active.
pub open spec fn unit_down() -> UnitState {
    UnitState { enabled: false, active: false }
}

/// A unit that is both enabled and active.
pub open spec fn unit_up() -> UnitState {
    UnitState { enabled: true, active: true }
}

/// Holds when the unit is enabled or active: the mode query counts such a
/// unit as owning the display.
pub open spec fn enabled_or_active(u: UnitState) -> bool {
    u.enabled || u.active
}

/// Holds when the unit is both enabled and active.
pub open spec fn unit_is_up(u: UnitState) -> bool {
    u.enabled && u.active
}

/// The mode that the query policy reads off a conflict state: first unit
/// found enabled or active wins, in the fixed preference order, with the
/// black screen as the default.
pub open spec fn spec_observe(s: ConflictState) -> OperationMode {
    if enabled_or_active(s.chromium) {
        OperationMode::Chromium
    } else if enabled_or_active(s.installation_instructions) {
        OperationMode::InstallationInstructions
    } else if enabled_or_active(s.unconfigured_warning) {
        OperationMode::UnconfiguredWarning
    } else {
        OperationMode::BlackScreen
    }
}

/// Reads the mode off a modeled conflict state, mirroring the probe order
/// of [`OperationMode::get`].
pub fn observe(s: &ConflictState) -> (mode: OperationMode)
    ensures
        mode == spec_observe(*s),
{
    if s.chromium.enabled || s.chromium.active {
        OperationMode::Chromium
    } else if s.installation_instructions.enabled || s.installation_instructions.active {
        OperationMode::InstallationInstructions
    } else if s.unconfigured_warning.enabled || s.unconfigured_warning.active {
        OperationMode::UnconfiguredWarning
    } else {
        OperationMode::BlackScreen
    }
}

/// The state of one unit after its teardown call: a successful stop
/// leaves the unit down, a failed one leaves it as it was.
pub open spec fn after_teardown(u: UnitState, stopped: bool) -> UnitState {
    if stopped {
        unit_down()
    } else {
        u
    }
}

/// The modeled effect of one exclusive activation: every competing unit
/// is torn down best-effort, then the target unit, if the mode has one,
/// comes up exactly when its start call succeeded.
pub open spec fn spec_apply(
    s: ConflictState,
    target: OperationMode,
    stops: TeardownOutcome,
    start_ok: bool,
) -> ConflictState {
    let torn = ConflictState {
        chromium: after_teardown(s.chromium, stops.chromium),
        installation_instructions: after_teardown(
            s.installation_instructions,
            stops.installation_instructions,
        ),
        unconfigured_warning: after_teardown(s.unconfigured_warning, stops.unconfigured_warning),
    };
    if start_ok {
        match target {
            OperationMode::Chromium => ConflictState { chromium: unit_up(), ..torn },
            OperationMode::InstallationInstructions => ConflictState {
                installation_instructions: unit_up(),
                ..torn
            },
            OperationMode::UnconfiguredWarning => ConflictState {
                unconfigured_warning: unit_up(),
                ..torn
            },
            OperationMode::BlackScreen => torn,
        }
    } else {
        torn
    }
}

/// Applies the modeled effect of one exclusive activation to a conflict
/// state.
pub fn apply_activate(
    s: &ConflictState,
    target: &OperationMode,
    stops: &TeardownOutcome,
    start_ok: bool,
) -> (post: ConflictState)
    ensures
        post == spec_apply(*s, *target, *stops, start_ok),
{
    let torn = ConflictState {
        chromium: if stops.chromium {
            UnitState { enabled: false, active: false }
        } else {
            s.chromium
        },
        installation_instructions: if stops.installation_instructions {
            UnitState { enabled: false, active: false }
        } else {
            s.installation_instructions
        },
        unconfigured_warning: if stops.unconfigured_warning {
            UnitState { enabled: false, active: false }
        } else {
            s.unconfigured_warning
        },
    };
    let up = UnitState { enabled: true, active: true };
    if start_ok {
        match target {
            OperationMode::Chromium => ConflictState { chromium: up, ..torn },
            OperationMode::InstallationInstructions => ConflictState {
                installation_instructions: up,
                ..torn
            },
            OperationMode::UnconfiguredWarning => ConflictState {
                unconfigured_warning: up,
                ..torn
            },
            OperationMode::BlackScreen => torn,
        }
    } else {
        torn
    }
}

/// Holds when every teardown call of the activation reported success.
pub open spec fn all_torn_down(stops: TeardownOutcome) -> bool {
    stops.chromium && stops.installation_instructions && stops.unconfigured_warning
}

/// Holds when at most one unit of the conflict set is both enabled and
/// active.
pub open spec fn at_most_one_up(s: ConflictState) -> bool {
    &&& !(unit_is_up(s.chromium) && unit_is_up(s.installation_instructions))
    &&& !(unit_is_up(s.chromium) && unit_is_up(s.unconfigured_warning))
    &&& !(unit_is_up(s.installation_instructions) && unit_is_up(s.unconfigured_warning))
}

/// After an exclusive activation whose teardown succeeded for every
/// competing unit, at most one unit of the conflict set is enabled and
/// active, whatever the state was before and whether or not the start of
/// the target unit succeeded.
pub proof fn lemma_activate_exclusive_is_exclusive(
    s: ConflictState,
    target: OperationMode,
    stops: TeardownOutcome,
    start_ok: bool,
)
    requires
        all_torn_down(stops),
    ensures
        at_most_one_up(spec_apply(s, target, stops, start_ok)),
{
}

/// Setting a mode and then reading the mode back returns the mode that
/// was set, provided the service controller reported success for the
/// teardown of every competing unit and for the start of the target unit.
pub proof fn lemma_set_then_observe(
    s: ConflictState,
    target: OperationMode,
    stops: TeardownOutcome,
)
    requires
        all_torn_down(stops),
    ensures
        spec_observe(spec_apply(s, target, stops, true)) == target,
{
}

} // verus!
