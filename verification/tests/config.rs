use coursetrack::config::Config;
use coursetrack::error::Error;

fn v(s: &str) -> Option<String> {
    Some(s.to_string())
}

#[test]
fn a_complete_environment_loads() {
    let config = Config::load_from_env(
        v("assignments.json"),
        v("submissions.csv"),
        v("downloads"),
        v("SECRET-REDACTED"),
        v("SECRET-REDACTED"),
    )
    .unwrap();
    assert_eq!(config.assignments, "assignments.json");
    assert_eq!(config.submissions, "submissions.csv");
    assert_eq!(config.downloads, "downloads");
    assert_eq!(config.password, "SECRET-REDACTED");
    assert_eq!(config.jwt_key, "SECRET-REDACTED");
}

#[test]
fn a_missing_setting_is_config_missing() {
    let r = Config::load_from_env(
        v("assignments.json"),
        None,
        v("downloads"),
        v("SECRET-REDACTED"),
        v("SECRET-REDACTED"),
    );
    assert_eq!(r.unwrap_err(), Error::ConfigMissing);
}

#[test]
fn every_setting_is_required() {
    assert!(Config::load_from_env(None, v("s"), v("d"), v("p"), v("k")).is_err());
    assert!(Config::load_from_env(v("a"), None, v("d"), v("p"), v("k")).is_err());
    assert!(Config::load_from_env(v("a"), v("s"), None, v("p"), v("k")).is_err());
    assert!(Config::load_from_env(v("a"), v("s"), v("d"), None, v("k")).is_err());
    assert!(Config::load_from_env(v("a"), v("s"), v("d"), v("p"), None).is_err());
}

#[test]
fn only_startup_failures_are_fatal() {
    assert!(Error::ConfigMissing.is_fatal());
    assert!(Error::DeserializationFailed.is_fatal());
    assert!(!Error::MirrorUnavailable.is_fatal());
    assert!(!Error::HistoryLookupFailed.is_fatal());
}

#[test]
fn error_kinds_have_messages() {
    assert_eq!(Error::MirrorUnavailable.message(), "mirror unavailable");
    assert_eq!(Error::HistoryLookupFailed.message(), "history lookup failed");
    assert_eq!(Error::ConfigMissing.message(), "config missing");
    assert_eq!(Error::DeserializationFailed.message(), "deserialization failed");
}
