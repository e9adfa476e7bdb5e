use ingestion::config::ConfigError;
use ingestion::config::SessionConfig;
use ingestion::delivery::health_signal;
use ingestion::delivery::settle_send;
use ingestion::delivery::DeliveryOutcome;
use ingestion::delivery::ProbeOutcome;
use ingestion::driver::DriverConfig;
use ingestion::ordering::BrokerLog;
use ingestion::ordering::SendPipeline;
use ingestion::record::OutboundRecord;
use ingestion::record::RecordError;
use ingestion::DELIVERY_TIMEOUT_MS;
use ingestion::HEALTH_TIMEOUT_MS;
use ingestion::SOCKET_TIMEOUT_MS;

#[test]
fn missing_endpoint_fails_construction() {
    let r = SessionConfig::from_env_values(None, Some("u".to_string()), Some("p".to_string()));
    assert!(matches!(r, Err(ConfigError::MissingEndpoint)));
}

#[test]
fn endpoint_alone_constructs_unauthenticated_session() {
    let cfg = SessionConfig::from_env_values(Some("localhost:9092".to_string()), None, None)
        .expect("endpoint present");
    assert_eq!(cfg.endpoint(), "localhost:9092");
    assert!(!cfg.sasl_enabled());
}

#[test]
fn full_credentials_enable_auth() {
    let cfg = SessionConfig::from_env_values(
        Some("broker:9092".to_string()),
        Some("svc".to_string()),
        Some("secret".to_string()),
    )
    .expect("endpoint present");
    assert!(cfg.sasl_enabled());
}

#[test]
fn username_without_password_disables_auth() {
    let cfg = SessionConfig::from_env_values(
        Some("broker:9092".to_string()),
        Some("svc".to_string()),
        None,
    )
    .expect("endpoint present");
    assert!(!cfg.sasl_enabled());
    let driver = DriverConfig::from_session(&cfg);
    assert_eq!(driver.setting("security.protocol"), None);
    assert_eq!(driver.setting("sasl.mechanisms"), None);
    assert_eq!(driver.setting("sasl.username"), None);
    assert_eq!(driver.setting("sasl.password"), None);
}

#[test]
fn password_without_username_disables_auth() {
    let cfg = SessionConfig::from_env_values(
        Some("broker:9092".to_string()),
        None,
        Some("secret".to_string()),
    )
    .expect("endpoint present");
    assert!(!cfg.sasl_enabled());
    let driver = DriverConfig::from_session(&cfg);
    assert_eq!(driver.setting("sasl.username"), None);
}

#[test]
fn driver_installs_configured_parameters() {
    let cfg = SessionConfig::from_env_values(
        Some("localhost:9092".to_string()),
        Some("svc".to_string()),
        Some("secret".to_string()),
    )
    .expect("endpoint present");
    let driver = DriverConfig::from_session(&cfg);
    assert_eq!(driver.setting("bootstrap.servers"), Some("localhost:9092"));
    assert_eq!(driver.setting("message.timeout.ms"), Some("5000"));
    assert_eq!(driver.setting("socket.timeout.ms"), Some("3000"));
    assert_eq!(driver.setting("security.protocol"), Some("SASL_PLAINTEXT"));
    assert_eq!(driver.setting("sasl.mechanisms"), Some("SCRAM-SHA-256"));
    assert_eq!(driver.setting("sasl.username"), Some("svc"));
    assert_eq!(driver.setting("sasl.password"), Some("secret"));
    assert_eq!(driver.setting("compression.type"), None);
}

#[test]
fn driver_map_survives_handover() {
    let cfg = SessionConfig::from_env_values(Some("localhost:9092".to_string()), None, None)
        .expect("endpoint present");
    let driver = DriverConfig::from_session(&cfg);
    let client_config = driver.into_client_config();
    assert_eq!(client_config.get("bootstrap.servers"), Some("localhost:9092"));
    assert_eq!(client_config.get("message.timeout.ms"), Some("5000"));
}

#[test]
fn record_rejects_empty_topic() {
    let r = OutboundRecord::new(String::new(), "user-1".to_string(), "x".to_string());
    assert!(matches!(r, Err(RecordError::EmptyTopic)));
    assert_eq!(
        RecordError::EmptyTopic.message(),
        "destination topic must be non-empty"
    );
}

#[test]
fn record_accepts_empty_key_and_payload() {
    let r = OutboundRecord::new("events".to_string(), String::new(), String::new())
        .expect("topic non-empty");
    assert_eq!(r.topic(), "events");
    assert_eq!(r.key(), "");
    assert_eq!(r.payload(), "");
}

#[test]
fn record_keeps_its_fields() {
    let r = OutboundRecord::new(
        "events".to_string(),
        "user-1".to_string(),
        "{\"type\":\"click\"}".to_string(),
    )
    .expect("topic non-empty");
    assert_eq!(r.topic(), "events");
    assert_eq!(r.key(), "user-1");
    assert_eq!(r.payload(), "{\"type\":\"click\"}");
}

#[test]
fn acknowledged_send_settles_as_success() {
    let r = settle_send(DeliveryOutcome::Acked { partition: 0, offset: 42 });
    assert_eq!(r, Ok(()));
}

#[test]
fn failed_send_settles_with_its_description() {
    let r = settle_send(DeliveryOutcome::Failed {
        description: "Kafka send error: MessageTimedOut".to_string(),
    });
    assert_eq!(r, Err("Kafka send error: MessageTimedOut".to_string()));
}

#[test]
fn health_is_true_exactly_on_metadata() {
    assert!(health_signal(&ProbeOutcome::MetadataReceived));
    assert!(!health_signal(&ProbeOutcome::ProbeFailed {
        description: "metadata request timed out".to_string(),
    }));
}

#[test]
fn same_key_sends_arrive_in_invocation_order() {
    let mut broker = BrokerLog::new();
    let mut pipeline = SendPipeline::new();
    let first = OutboundRecord::new(
        "events".to_string(),
        "user-1".to_string(),
        "a".to_string(),
    )
    .expect("topic non-empty");
    let second = OutboundRecord::new(
        "events".to_string(),
        "user-1".to_string(),
        "b".to_string(),
    )
    .expect("topic non-empty");
    pipeline.send_record(&mut broker, first);
    pipeline.send_record(&mut broker, second);
    assert_eq!(broker.len(), 2);
    assert_eq!(broker.entry(0).key(), "user-1");
    assert_eq!(broker.entry(0).payload(), "a");
    assert_eq!(broker.entry(1).key(), "user-1");
    assert_eq!(broker.entry(1).payload(), "b");
}

#[test]
fn batch_arrives_in_invocation_order() {
    let mut broker = BrokerLog::new();
    let mut pipeline = SendPipeline::new();
    let mut batch = Vec::new();
    for payload in ["one", "two", "three"] {
        batch.push(
            OutboundRecord::new(
                "events".to_string(),
                "user-1".to_string(),
                payload.to_string(),
            )
            .expect("topic non-empty"),
        );
    }
    pipeline.send_batch(&mut broker, batch);
    assert_eq!(broker.len(), 3);
    assert_eq!(broker.entry(0).payload(), "one");
    assert_eq!(broker.entry(1).payload(), "two");
    assert_eq!(broker.entry(2).payload(), "three");
}

#[test]
fn timeouts_match_the_delivery_contract() {
    assert_eq!(DELIVERY_TIMEOUT_MS, 5000);
    assert_eq!(SOCKET_TIMEOUT_MS, 3000);
    assert_eq!(HEALTH_TIMEOUT_MS, 2000);
}
