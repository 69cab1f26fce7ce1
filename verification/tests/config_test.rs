use rust_pubsub_client::config::ReconnectionEnv;
use rust_pubsub_client::text::{parse_u32, parse_u64, trim_end_slashes};
use rust_pubsub_client::ClientConfig;
use std::time::Duration;

fn env(enabled: Option<&str>, attempts: Option<&str>, delay: Option<&str>, max: Option<&str>) -> ReconnectionEnv {
    ReconnectionEnv {
        enabled: enabled.map(|s| s.to_string()),
        attempts: attempts.map(|s| s.to_string()),
        delay_ms: delay.map(|s| s.to_string()),
        delay_max_ms: max.map(|s| s.to_string()),
    }
}

#[test]
fn defaults_without_environment() {
    let c = ClientConfig::new("http://h//", "c", vec![], &env(None, None, None, None));
    assert_eq!(c.url, "http://h");
    assert!(!c.enable_idempotence);
    assert_eq!(c.idempotence_max_size, 1000);
    assert!(c.reconnection);
    assert_eq!(c.reconnection_attempts, 0);
    assert_eq!(c.reconnection_delay, Duration::from_millis(2000));
    assert_eq!(c.reconnection_delay_max, Duration::from_millis(10000));
    assert_eq!(c.handler_workers, 10);
}

#[test]
fn environment_overrides() {
    let c = ClientConfig::new("u", "c", vec![], &env(Some("TRUE"), Some("300"), Some("+15"), Some("20")));
    assert!(c.reconnection);
    assert_eq!(c.reconnection_attempts, 300);
    assert_eq!(c.max_reconnect_attempts(), 255);
    assert_eq!(c.reconnect_delay_ms(), 15);
    assert_eq!(c.reconnect_delay_max_ms(), 20);
}

#[test]
fn environment_values_that_do_not_parse() {
    let c = ClientConfig::new("u", "c", vec![], &env(Some("yes"), Some("-1"), Some("x"), Some("")));
    assert!(!c.reconnection);
    assert_eq!(c.reconnection_attempts, 0);
    assert_eq!(c.reconnect_delay_ms(), 2000);
    assert_eq!(c.reconnect_delay_max_ms(), 10000);
}

#[test]
fn with_handler_workers_keeps_the_rest() {
    let c = ClientConfig::new("u/", "c", vec!["t".to_string()], &env(Some("false"), None, None, None))
        .with_handler_workers(3);
    assert_eq!(c.handler_workers, 3);
    assert_eq!(c.url, "u");
    assert!(!c.reconnection);
    assert_eq!(c.topics, vec!["t".to_string()]);
}

#[test]
fn unsigned_parsing_matches_std() {
    for s in ["0", "+7", "42", "4294967295", "4294967296", "", "+", "-1", " 1", "1a", "00012"] {
        assert_eq!(parse_u32(s), s.parse::<u32>().ok(), "{}", s);
    }
    for s in ["18446744073709551615", "18446744073709551616", "99999999999999999999999", "+0"] {
        assert_eq!(parse_u64(s), s.parse::<u64>().ok(), "{}", s);
    }
}

#[test]
fn trailing_slashes_trimmed() {
    assert_eq!(trim_end_slashes("a/b///"), "a/b");
    assert_eq!(trim_end_slashes("///"), "");
    assert_eq!(trim_end_slashes(""), "");
    assert_eq!(trim_end_slashes("é/"), "é");
}

#[test]
fn delays_are_exact_durations() {
    let c = ClientConfig::new("u", "c", vec![], &env(None, None, Some("1500"), None));
    assert_eq!(c.reconnection_delay, Duration::from_millis(1500));
    assert_eq!(c.reconnection_delay_max, Duration::from_millis(10000));
}
