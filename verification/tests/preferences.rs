use digsigctl::config::chromium_preferences::{
    default_profile, default_session, default_sessions, ChromiumPreferences,
};
use digsigctl::config::error::Error;
use digsigctl::config::json::Json;
use digsigctl::config::Config;

fn object(entries: Vec<(&str, Json)>) -> Json {
    Json::Object(entries.into_iter().map(|(k, v)| (k.to_owned(), v)).collect())
}

fn get<'a>(doc: &'a Json, key: &str) -> Option<&'a Json> {
    match doc {
        Json::Object(entries) => entries.iter().find(|(k, _)| k == key).map(|(_, v)| v),
        _ => None,
    }
}

#[test]
fn session_update_writes_url_and_restore_directive() {
    let mut preferences = ChromiumPreferences::new(object(vec![]));
    preferences.update_or_init_session("https://example.org").unwrap();
    let document = preferences.document();
    let session = get(document, "session").expect("session section must exist");
    assert_eq!(
        get(session, "startup_urls"),
        Some(&Json::Array(vec![Json::Text("https://example.org".to_owned())]))
    );
    assert_eq!(get(session, "restore_on_startup"), Some(&Json::Number("4".to_owned())));
}

#[test]
fn session_update_is_idempotent() {
    let mut once = ChromiumPreferences::new(object(vec![(
        "session",
        object(vec![("foo", Json::Text("bar".to_owned()))]),
    )]));
    once.update_or_init_session("u").unwrap();
    let mut twice = ChromiumPreferences::new(object(vec![(
        "session",
        object(vec![("foo", Json::Text("bar".to_owned()))]),
    )]));
    twice.update_or_init_session("u").unwrap();
    twice.update_or_init_session("u").unwrap();
    assert_eq!(once.document(), twice.document());
}

#[test]
fn session_update_preserves_unrelated_keys() {
    let mut preferences = ChromiumPreferences::new(object(vec![
        ("session", object(vec![("foo", Json::Text("bar".to_owned()))])),
        ("bookmarks", Json::Array(vec![])),
    ]));
    preferences.update_or_init_session("https://example.org").unwrap();
    let document = preferences.document();
    let session = get(document, "session").unwrap();
    assert_eq!(get(session, "foo"), Some(&Json::Text("bar".to_owned())));
    assert_eq!(get(document, "bookmarks"), Some(&Json::Array(vec![])));
}

#[test]
fn merge_on_array_root_reports_structural_error_and_leaves_document() {
    let mut preferences = ChromiumPreferences::new(Json::Array(vec![Json::Null]));
    let result = preferences.update_or_init_session("u");
    assert_eq!(result, Err(Error::NotAJsonObject("preferences".to_owned())));
    assert_eq!(preferences.document(), &Json::Array(vec![Json::Null]));
}

#[test]
fn merge_on_non_object_section_reports_structural_error() {
    let mut preferences = ChromiumPreferences::new(object(vec![(
        "profile",
        Json::Text("not an object".to_owned()),
    )]));
    let result = preferences.update_or_init_profile();
    assert_eq!(result, Err(Error::NotAJsonObject("profile".to_owned())));
}

#[test]
fn profile_and_sessions_updates_write_their_keys() {
    let mut preferences = ChromiumPreferences::new(object(vec![]));
    preferences.update_or_init_profile().unwrap();
    preferences.update_or_init_sessions().unwrap();
    let document = preferences.document();
    let profile = get(document, "profile").unwrap();
    assert_eq!(get(profile, "exit_type"), Some(&Json::Text("Normal".to_owned())));
    let sessions = get(document, "sessions").unwrap();
    assert_eq!(get(sessions, "session_data_status"), Some(&Json::Number("3".to_owned())));
}

#[test]
fn default_updates_hold_the_documented_keys() {
    let session = default_session("https://example.org");
    assert_eq!(session.len(), 2);
    assert_eq!(session[0].0.as_str(), "startup_urls");
    assert_eq!(session[1].0.as_str(), "restore_on_startup");
    let profile = default_profile();
    assert_eq!(profile.len(), 1);
    assert_eq!(profile[0].0.as_str(), "exit_type");
    let sessions = default_sessions();
    assert_eq!(sessions.len(), 1);
    assert_eq!(sessions[0].0.as_str(), "session_data_status");
}

#[test]
fn applying_a_configuration_merges_all_three_sections() {
    let config = Config::new("https://example.org".to_owned());
    assert_eq!(config.url(), "https://example.org");
    let mut preferences = ChromiumPreferences::new(object(vec![(
        "session",
        object(vec![("foo", Json::Text("bar".to_owned()))]),
    )]));
    config.update_preferences(&mut preferences).unwrap();
    let document = preferences.document();
    let session = get(document, "session").unwrap();
    assert_eq!(
        get(session, "startup_urls"),
        Some(&Json::Array(vec![Json::Text("https://example.org".to_owned())]))
    );
    assert_eq!(get(session, "restore_on_startup"), Some(&Json::Number("4".to_owned())));
    assert_eq!(get(session, "foo"), Some(&Json::Text("bar".to_owned())));
    assert!(get(document, "profile").is_some());
    assert!(get(document, "sessions").is_some());
}

#[test]
fn applying_a_configuration_stops_at_the_first_fault() {
    let config = Config::new("u".to_owned());
    let mut preferences = ChromiumPreferences::new(object(vec![(
        "sessions",
        Json::Bool(true),
    )]));
    let result = config.update_preferences(&mut preferences);
    assert_eq!(result, Err(Error::NotAJsonObject("sessions".to_owned())));
    // The first two sections were merged before the fault was found.
    assert!(get(preferences.document(), "session").is_some());
    assert!(get(preferences.document(), "profile").is_some());
}

#[test]
fn current_startup_url_reads_the_first_session_url() {
    let mut preferences = ChromiumPreferences::new(object(vec![]));
    assert_eq!(preferences.current_startup_url(), None);
    preferences.update_or_init_session("https://example.org").unwrap();
    assert_eq!(preferences.current_startup_url(), Some("https://example.org"));
}
