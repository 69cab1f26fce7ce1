use rust_pubsub_client::client::{Delivery, ReceivedPayload};
use rust_pubsub_client::config::ReconnectionEnv;
use rust_pubsub_client::document::Field;
use rust_pubsub_client::{ClientConfig, PubSubClient};

fn unset_env() -> ReconnectionEnv {
    ReconnectionEnv { enabled: None, attempts: None, delay_ms: None, delay_max_ms: None }
}

fn json(text: &str) -> serde_json::Value {
    serde_json::from_str(text).unwrap()
}

fn client(idempotence: bool) -> PubSubClient {
    let config = ClientConfig::new("http://host:5000/", "c1", vec!["a".to_string()], &unset_env())
        .with_idempotence(idempotence, 10);
    PubSubClient::new(config)
}

fn payload(text: &str) -> ReceivedPayload {
    ReceivedPayload::Text(vec![json(text)])
}

#[test]
fn start_and_stop_toggle_running() {
    let mut c = client(false);
    assert!(!c.is_running());
    let settings = c.start();
    assert!(c.is_running());
    assert_eq!(settings.url, "http://host:5000");
    assert!(settings.reconnect);
    assert_eq!(settings.reconnect_delay_min_ms, 2000);
    assert_eq!(settings.reconnect_delay_max_ms, 10000);
    assert_eq!(settings.max_reconnect_attempts, 0);
    c.stop();
    assert!(!c.is_running());
}

#[test]
fn exact_handler_preferred_over_wildcard() {
    let mut c = client(false);
    c.register_handler("*");
    c.register_handler("a");
    match c.handle_payload(&payload(r#"{"topic": "a", "message": 5}"#)) {
        Delivery::Dispatch(d) => {
            assert_eq!(d.handler_topic, "a");
            assert_eq!(d.handler_name, "Handler_a");
        }
        _ => panic!("expected a dispatch"),
    }
}

#[test]
fn consumed_notice_names_handler() {
    let mut c = client(false);
    c.register_handler("a");
    match c.handle_payload(&payload(r#"{"topic": "a", "message": [1, 2], "message_id": "x9"}"#)) {
        Delivery::Dispatch(d) => {
            let keys: Vec<&str> = d.consumed.entries.iter().map(|(k, _)| k.as_str()).collect();
            assert_eq!(keys, vec!["consumer", "topic", "message_id", "message"]);
            assert!(matches!(&d.consumed.entries[0].1, Field::Text(t) if t == "Handler_a"));
            assert!(matches!(&d.consumed.entries[1].1, Field::Text(t) if t == "a"));
            assert!(matches!(&d.consumed.entries[2].1, Field::Text(t) if t == "x9"));
            assert!(matches!(&d.consumed.entries[3].1, Field::Json(v) if *v == json("[1, 2]")));
        }
        _ => panic!("expected a dispatch"),
    }
}

#[test]
fn duplicate_skipped_only_with_idempotence() {
    let mut on = client(true);
    on.register_handler("a");
    let p = payload(r#"{"topic": "a", "message": 1, "message_id": "m"}"#);
    assert!(matches!(on.handle_payload(&p), Delivery::Dispatch(_)));
    match on.handle_payload(&p) {
        Delivery::Duplicate { topic, message_id } => {
            assert_eq!(topic, "a");
            assert_eq!(message_id, "m");
        }
        _ => panic!("expected a duplicate"),
    }

    let mut off = client(false);
    off.register_handler("a");
    assert!(matches!(off.handle_payload(&p), Delivery::Dispatch(_)));
    assert!(matches!(off.handle_payload(&p), Delivery::Dispatch(_)));
}

#[test]
fn unhandled_message_is_still_remembered() {
    let mut c = client(true);
    let p = payload(r#"{"topic": "zzz", "message": 1, "message_id": "m"}"#);
    assert!(matches!(c.handle_payload(&p), Delivery::Unhandled { .. }));
    c.register_handler("zzz");
    assert!(matches!(c.handle_payload(&p), Delivery::Duplicate { .. }));
}

#[test]
fn incomplete_or_undecodable_messages_ignored() {
    let mut c = client(true);
    c.register_handler("*");
    assert!(matches!(c.handle_payload(&payload(r#"{"message": 1}"#)), Delivery::Ignored));
    assert!(matches!(c.handle_payload(&payload(r#"{"topic": 3, "message": 1}"#)), Delivery::Ignored));
    assert!(matches!(c.handle_payload(&payload(r#"{"topic": "a"}"#)), Delivery::Ignored));
    assert!(matches!(c.handle_payload(&ReceivedPayload::Text(vec![])), Delivery::Ignored));
    assert!(matches!(
        c.handle_payload(&ReceivedPayload::String("not json".to_string())),
        Delivery::Ignored
    ));
    assert!(matches!(c.handle_payload(&ReceivedPayload::Binary(vec![0xff, 0x00])), Delivery::Ignored));
}

#[test]
fn string_and_binary_payloads_are_parsed() {
    let mut c = client(false);
    c.register_handler("a");
    let text = r#"{"topic": "a", "message": true}"#;
    assert!(matches!(
        c.handle_payload(&ReceivedPayload::String(text.to_string())),
        Delivery::Dispatch(_)
    ));
    assert!(matches!(
        c.handle_payload(&ReceivedPayload::Binary(text.as_bytes().to_vec())),
        Delivery::Dispatch(_)
    ));
}

#[test]
fn message_without_id_never_duplicate() {
    let mut c = client(true);
    c.register_handler("a");
    let p = payload(r#"{"topic": "a", "message": 1}"#);
    assert!(matches!(c.handle_payload(&p), Delivery::Dispatch(_)));
    assert!(matches!(c.handle_payload(&p), Delivery::Dispatch(_)));
}

#[test]
fn subscription_lists_consumer_and_topics() {
    let c = client(false);
    let doc = c.subscription();
    assert_eq!(doc.entries.len(), 2);
    assert_eq!(doc.entries[0].0, "consumer");
    assert!(matches!(&doc.entries[0].1, Field::Text(t) if t == "c1"));
    assert_eq!(doc.entries[1].0, "topics");
    assert!(matches!(&doc.entries[1].1, Field::TextList(v) if *v == vec!["a".to_string()]));
}

#[test]
fn publish_request_targets_publish_endpoint() {
    let c = client(false);
    let req = c.publish("t", json("{}"), "p", Some("id7".to_string()));
    assert_eq!(req.url, "http://host:5000/publish");
    let keys: Vec<&str> = req.body.entries.iter().map(|(k, _)| k.as_str()).collect();
    assert_eq!(keys, vec!["topic", "message_id", "message", "producer"]);
    assert!(matches!(&req.body.entries[1].1, Field::Text(t) if t == "id7"));
}

#[test]
fn publish_without_id_uses_uuid_v4() {
    let c = client(false);
    let req = c.publish("t", json("null"), "p", None);
    let id: Vec<char> = req.message.message_id.chars().collect();
    assert_eq!(id.len(), 36);
    assert_eq!(id[8], '-');
    assert_eq!(id[14], '4');
    assert!(matches!(id[19], '8' | '9' | 'a' | 'b'));
}
