use rust_pubsub_client::client::{Delivery, HandlerArgument, ReceivedPayload};
use rust_pubsub_client::config::ReconnectionEnv;
use rust_pubsub_client::document::Field;
use rust_pubsub_client::{ClientConfig, PubSubClient, PubSubMessage};

fn unset_env() -> ReconnectionEnv {
    ReconnectionEnv { enabled: None, attempts: None, delay_ms: None, delay_max_ms: None }
}

fn json(text: &str) -> serde_json::Value {
    serde_json::from_str(text).unwrap()
}

fn text_payload(text: &str) -> ReceivedPayload {
    ReceivedPayload::Text(vec![json(text)])
}

#[test]
fn test_client_creation() {
    let config = ClientConfig::new(
        "http://localhost:5000",
        "test_consumer",
        vec!["test_topic".to_string()],
        &unset_env(),
    );
    let client = PubSubClient::new(config);
    assert!(!client.is_running());
}

#[test]
fn test_handler_registration() {
    let config = ClientConfig::new(
        "http://localhost:5000",
        "test_consumer",
        vec!["test_topic".to_string()],
        &unset_env(),
    );
    let mut client = PubSubClient::new(config);

    client.register_handler("test_topic");

    let delivery = client.handle_payload(&text_payload(
        r#"{"topic": "test_topic", "message": {"n": 1}, "message_id": "m1", "producer": "p"}"#,
    ));
    match delivery {
        Delivery::Dispatch(d) => {
            assert_eq!(d.handler_topic, "test_topic");
            assert_eq!(d.handler_name, "Handler_test_topic");
            match d.argument {
                HandlerArgument::Message(v) => assert_eq!(v, json(r#"{"n": 1}"#)),
                HandlerArgument::Enriched(_) => panic!("expected the payload"),
            }
        }
        _ => panic!("expected a dispatch"),
    }
}

#[test]
fn integration_test_test_idempotence_filter() {
    let config = ClientConfig::new("http://localhost:5000", "test_consumer", vec![], &unset_env())
        .with_idempotence(true, 100);
    let client = PubSubClient::new(config);

    assert!(!client.is_running());
}

#[test]
fn test_config_builder() {
    let config = ClientConfig::new(
        "http://localhost:5000",
        "test_consumer",
        vec!["topic1".to_string(), "topic2".to_string()],
        &unset_env(),
    )
    .with_idempotence(true, 500)
    .with_handler_workers(20);

    assert_eq!(config.consumer, "test_consumer");
    assert_eq!(config.topics.len(), 2);
    assert!(config.enable_idempotence);
    assert_eq!(config.idempotence_max_size, 500);
    assert_eq!(config.handler_workers, 20);
}

#[test]
fn test_message_creation() {
    let msg = PubSubMessage::new(
        "test_topic",
        json(r#"{"key": "value"}"#),
        "test_producer",
        Some("msg_123".to_string()),
    );

    assert_eq!(msg.topic, "test_topic");
    assert_eq!(msg.message_id, "msg_123");
    assert_eq!(msg.producer, "test_producer");
}

#[test]
fn test_wildcard_handler() {
    let config = ClientConfig::new("http://localhost:5000", "test_consumer", vec![], &unset_env());
    let mut client = PubSubClient::new(config);

    client.register_handler("*");

    let delivery = client.handle_payload(&text_payload(
        r#"{"topic": "dynamic_topic_0", "message": {"index": 0}, "producer": "wildcard_producer"}"#,
    ));
    match delivery {
        Delivery::Dispatch(d) => {
            assert_eq!(d.handler_topic, "*");
            assert_eq!(d.handler_name, "Handler_*");
            match d.argument {
                HandlerArgument::Enriched(doc) => {
                    let keys: Vec<&str> = doc.entries.iter().map(|(k, _)| k.as_str()).collect();
                    assert_eq!(keys, vec!["topic", "message", "producer", "message_id"]);
                    assert!(matches!(&doc.entries[0].1, Field::Text(t) if t == "dynamic_topic_0"));
                    assert!(matches!(&doc.entries[2].1, Field::Text(t) if t == "wildcard_producer"));
                    assert!(matches!(&doc.entries[3].1, Field::Null));
                }
                HandlerArgument::Message(_) => panic!("expected the enriched message"),
            }
        }
        _ => panic!("expected a dispatch"),
    }
}
