use digsigctl::pacman::package_version_from_output;
use digsigctl::rpc::reboot::{reboot_due, schedule_reboot};
use digsigctl::rpc::result::{Payload, RpcResult};
use digsigctl::rpc::web_browser::preferences_path;
use digsigctl::rpc::{config_file_response, restart_response, set_mode_response, Command};
use digsigctl::sysinfo::application::{
    get_preferred_application, metadata_of, status_from_probes, Application, Metadata, Mode,
};
use digsigctl::config::error::Error as ConfigError;
use digsigctl::try_from_io::TryFromIo;

#[test]
fn reboot_command_reports_success_synchronously() {
    let result = Command::Reboot(Some(5)).run(&Ok("host".to_owned()));
    assert_eq!(result, RpcResult::Success(Payload::Empty));
}

#[test]
fn delayed_reboot_is_due_only_after_the_delay() {
    let schedule = schedule_reboot(1000, Some(5));
    assert_eq!(schedule.due_at, 1005);
    assert!(!reboot_due(&schedule, 1000));
    assert!(!reboot_due(&schedule, 1004));
    assert!(reboot_due(&schedule, 1005));
    assert!(reboot_due(&schedule, 2000));

    let now = schedule_reboot(1000, None);
    assert!(reboot_due(&now, 1000));
}

#[test]
fn config_file_query_always_succeeds() {
    let result = Command::ConfigFile.run(&Ok("host".to_owned()));
    assert!(result.is_success());

    let with_path = config_file_response(Some("/some/path".to_owned()));
    assert_eq!(
        with_path,
        RpcResult::Success(Payload::OptionalText(Some("/some/path".to_owned())))
    );
    let without = config_file_response(None);
    assert_eq!(without, RpcResult::Success(Payload::OptionalText(None)));
}

#[test]
fn mode_query_always_succeeds() {
    let result = Command::OperationMode(None).run(&Ok("host".to_owned()));
    assert!(result.is_success());
}

#[test]
fn restart_responses_carry_the_documented_texts() {
    assert_eq!(
        restart_response(true),
        RpcResult::Success(Payload::Text("Web browser restarted.".to_owned()))
    );
    match restart_response(false) {
        RpcResult::Error(errors) => {
            assert_eq!(errors.errors().len(), 1);
            assert_eq!(errors.errors()[0].message(), Some("Could not restart web browser."));
        },
        RpcResult::Success(_) => panic!("a failed restart must be an error"),
    }
}

#[test]
fn set_mode_responses_carry_the_documented_texts() {
    assert_eq!(
        set_mode_response(true),
        RpcResult::Success(Payload::Text("Operation mode set".to_owned()))
    );
    match set_mode_response(false) {
        RpcResult::Error(errors) => {
            assert_eq!(errors.errors()[0].message(), Some("Could not set operation mode."));
        },
        RpcResult::Success(_) => panic!("a failed mode set must be an error"),
    }
}

#[test]
fn preferences_path_joins_home_and_browser_path() {
    let path = preferences_path("/home/kiosk".to_owned());
    assert_eq!(path.as_str(), "/home/kiosk/.config/chromium/Default/Preferences");
}

#[test]
fn package_version_is_the_second_field() {
    assert_eq!(
        package_version_from_output("digsigctl 1.2.3-1\n").as_deref(),
        Some("1.2.3-1")
    );
    assert_eq!(package_version_from_output("digsigctl"), None);
    assert_eq!(package_version_from_output(""), None);
}

#[test]
fn application_metadata_matches_the_tables() {
    let html = metadata_of(&Application::Html);
    assert_eq!(html, Metadata::new(
        "html",
        Mode::Productive,
        Some("html5ds.service"),
        Some("application-html"),
    ));
    assert!(html.is_productive());

    let off = metadata_of(&Application::Off);
    assert_eq!(off.unit, None);
    assert!(!off.is_productive());
}

#[test]
fn preferred_application_prefers_html_over_air() {
    let both = vec!["application.service".to_owned(), "html5ds.service".to_owned()];
    assert!(matches!(get_preferred_application(&both), Some(Application::Html)));
    let air_only = vec!["application.service".to_owned()];
    assert!(matches!(get_preferred_application(&air_only), Some(Application::Air)));
    let neither = vec!["unconfigured-warning.service".to_owned()];
    assert!(get_preferred_application(&neither).is_none());
}

#[test]
fn command_output_decodes_strictly() {
    assert_eq!(
        String::try_from_io(vec![b'p', b'k', b'g', b' ', b'1', b'.', b'0']).as_deref(),
        Ok("pkg 1.0")
    );
    assert!(String::try_from_io(vec![0xff, 0xfe]).is_err());
    assert!(String::try_from_io(vec![b'a', 0x80]).is_err());
}

#[test]
fn status_probes_prefer_productive_applications() {
    assert!(matches!(status_from_probes(true, true, true, true), Application::Html));
    assert!(matches!(status_from_probes(false, true, true, true), Application::Air));
    assert!(matches!(
        status_from_probes(false, false, true, true),
        Application::NotConfiguredWarning
    ));
    assert!(matches!(
        status_from_probes(false, false, false, true),
        Application::InstallationInstructions
    ));
    assert!(matches!(status_from_probes(false, false, false, false), Application::Off));
}

#[test]
fn structural_errors_name_the_offending_part() {
    let error = ConfigError::NotAJsonObject("profile".to_owned());
    assert_eq!(error.describe().as_str(), "not a JSON object: profile");
    assert_eq!(
        ConfigError::NotAJsonObject("preferences".to_owned()).describe().as_str(),
        "not a JSON object: preferences"
    );
}
