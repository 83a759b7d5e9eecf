//! Exercises of the settings defaults and the ping decisions.

use autostart_manager::settings::api_key_header;
use autostart_manager::settings::api_key_key;
use autostart_manager::settings::api_url_key;
use autostart_manager::settings::connection_outcome;
use autostart_manager::settings::ping_outcome;
use autostart_manager::settings::ping_request;
use autostart_manager::settings::ping_url;
use autostart_manager::settings::push_decimal;
use autostart_manager::settings::settings_from_store;
use autostart_manager::settings::store_filename;
use autostart_manager::settings::Settings;
use autostart_manager::settings::CONNECTION_TIMEOUT_SECS;
use autostart_manager::settings::PING_INTERVAL_SECS;

fn decimal(n: u16) -> String {
    let mut s = String::new();
    push_decimal(&mut s, n);
    s
}

#[test]
fn default_settings() {
    let s = Settings::default();
    assert_eq!(s.api_url, "http://localhost:9759");
    assert_eq!(s.api_key, "");
}

#[test]
fn settings_from_store_fallbacks() {
    let s = settings_from_store(None, None);
    assert_eq!(s.api_url, "http://localhost:9759");
    assert_eq!(s.api_key, "");
    let s = settings_from_store(
        Some(String::from("https://example.net")),
        Some(String::from("SECRET-REDACTED")),
    );
    assert_eq!(s.api_url, "https://example.net");
    assert_eq!(s.api_key, "SECRET-REDACTED");
    let s = settings_from_store(None, Some(String::from("k")));
    assert_eq!(s.api_url, "http://localhost:9759");
    assert_eq!(s.api_key, "k");
}

#[test]
fn ping_url_appends_route() {
    assert_eq!(ping_url("http://localhost:9759"), "http://localhost:9759/api/v1/ping");
    assert_eq!(ping_url(""), "/api/v1/ping");
}

#[test]
fn ping_needs_api_key() {
    let s = Settings::default();
    let err = ping_request(&s).unwrap_err();
    assert_eq!(err, "API key not configured");
}

#[test]
fn ping_request_carries_url_and_key() {
    let s = settings_from_store(
        Some(String::from("https://example.net")),
        Some(String::from("k1")),
    );
    let p = ping_request(&s).unwrap();
    assert_eq!(p.url, "https://example.net/api/v1/ping");
    assert_eq!(p.api_key, "k1");
}

#[test]
fn ping_outcome_messages() {
    assert_eq!(ping_outcome(200).unwrap(), "Ping successful");
    assert_eq!(ping_outcome(299).unwrap(), "Ping successful");
    assert_eq!(ping_outcome(199).unwrap_err(), "Ping failed: 199");
    assert_eq!(ping_outcome(300).unwrap_err(), "Ping failed: 300");
    assert_eq!(ping_outcome(404).unwrap_err(), "Ping failed: 404");
}

#[test]
fn connection_outcome_messages() {
    assert_eq!(connection_outcome(204).unwrap(), "Connection successful!");
    assert_eq!(connection_outcome(500).unwrap_err(), "Failed: 500");
    assert_eq!(connection_outcome(0).unwrap_err(), "Failed: 0");
}

#[test]
fn decimal_rendering_exact() {
    assert_eq!(decimal(0), "0");
    assert_eq!(decimal(7), "7");
    assert_eq!(decimal(10), "10");
    assert_eq!(decimal(42), "42");
    assert_eq!(decimal(900), "900");
    assert_eq!(decimal(65535), "65535");
}

#[test]
fn store_constants() {
    assert_eq!(store_filename(), "settings.json");
    assert_eq!(api_url_key(), "api_url");
    assert_eq!(api_key_key(), "api_key");
    assert_eq!(api_key_header(), "X-API-Key");
    assert_eq!(PING_INTERVAL_SECS, 900);
    assert_eq!(CONNECTION_TIMEOUT_SECS, 5);
}
