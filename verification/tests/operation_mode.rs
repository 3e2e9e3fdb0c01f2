use digsigctl::rpc::operation_mode::{
    apply_activate, observe, probed_state, ConflictState, OperationMode, TeardownOutcome,
    UnitState,
};

fn up() -> UnitState {
    UnitState { enabled: true, active: true }
}

fn down() -> UnitState {
    UnitState { enabled: false, active: false }
}

fn all_down() -> ConflictState {
    ConflictState {
        chromium: down(),
        installation_instructions: down(),
        unconfigured_warning: down(),
    }
}

fn all_stopped() -> TeardownOutcome {
    TeardownOutcome {
        chromium: true,
        installation_instructions: true,
        unconfigured_warning: true,
    }
}

fn count_up(s: &ConflictState) -> usize {
    [s.chromium, s.installation_instructions, s.unconfigured_warning]
        .iter()
        .filter(|u| u.enabled && u.active)
        .count()
}

#[test]
fn set_then_get_returns_the_set_mode() {
    let modes = [
        OperationMode::Chromium,
        OperationMode::InstallationInstructions,
        OperationMode::UnconfiguredWarning,
        OperationMode::BlackScreen,
    ];
    let pre = ConflictState {
        chromium: up(),
        installation_instructions: down(),
        unconfigured_warning: UnitState { enabled: true, active: false },
    };
    for mode in modes {
        let post = apply_activate(&pre, &mode, &all_stopped(), true);
        assert_eq!(observe(&post), mode);
    }
}

#[test]
fn activation_leaves_at_most_one_unit_up() {
    let messy = ConflictState {
        chromium: up(),
        installation_instructions: up(),
        unconfigured_warning: up(),
    };
    for start_ok in [true, false] {
        let post = apply_activate(
            &messy,
            &OperationMode::InstallationInstructions,
            &all_stopped(),
            start_ok,
        );
        assert!(count_up(&post) <= 1);
    }
}

#[test]
fn fresh_device_reports_black_screen() {
    let mode = observe(&all_down());
    assert_eq!(mode, OperationMode::BlackScreen);
    assert_eq!(mode.name(), "blackScreen");
}

#[test]
fn preference_order_prefers_productive_content() {
    let ambiguous = ConflictState {
        chromium: UnitState { enabled: true, active: false },
        installation_instructions: up(),
        unconfigured_warning: up(),
    };
    assert_eq!(observe(&ambiguous), OperationMode::Chromium);
}

#[test]
fn mode_names_match_the_wire_format() {
    assert_eq!(OperationMode::Chromium.name(), "chromium");
    assert_eq!(OperationMode::InstallationInstructions.name(), "installationInstructions");
    assert_eq!(OperationMode::UnconfiguredWarning.name(), "unconfiguredWarning");
    assert_eq!(OperationMode::BlackScreen.name(), "blackScreen");
}

#[test]
fn failed_teardown_keeps_the_unit_as_it_was() {
    let pre = ConflictState {
        chromium: up(),
        installation_instructions: down(),
        unconfigured_warning: down(),
    };
    let stops = TeardownOutcome {
        chromium: false,
        installation_instructions: true,
        unconfigured_warning: true,
    };
    let post = apply_activate(&pre, &OperationMode::BlackScreen, &stops, true);
    assert_eq!(post.chromium, up());
    assert_eq!(post.installation_instructions, down());
}

#[test]
fn modes_map_to_their_service_units() {
    assert_eq!(OperationMode::Chromium.unit(), Some("chromium.service"));
    assert_eq!(
        OperationMode::InstallationInstructions.unit(),
        Some("installation-instructions.service")
    );
    assert_eq!(
        OperationMode::UnconfiguredWarning.unit(),
        Some("unconfigured-warning.service")
    );
    assert_eq!(OperationMode::BlackScreen.unit(), None);
}

#[test]
fn probed_state_carries_the_first_match_policy() {
    assert_eq!(observe(&probed_state(false, false, false)), OperationMode::BlackScreen);
    assert_eq!(observe(&probed_state(true, true, true)), OperationMode::Chromium);
    assert_eq!(
        observe(&probed_state(false, true, true)),
        OperationMode::InstallationInstructions
    );
    assert_eq!(
        observe(&probed_state(false, false, true)),
        OperationMode::UnconfiguredWarning
    );
}
