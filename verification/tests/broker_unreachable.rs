//! The delivery scenarios against an unreachable broker: nothing listens
//! on the configured endpoint, so a send must fail at the delivery
//! timeout with a descriptive error, and a health probe must report
//! false within its own bound.

use ingestion::config::SessionConfig;
use ingestion::delivery::{health_signal, settle_send, DeliveryOutcome, ProbeOutcome};
use ingestion::driver::DriverConfig;
use ingestion::record::OutboundRecord;
use ingestion::{DELIVERY_TIMEOUT_MS, HEALTH_TIMEOUT_MS};
use rdkafka::producer::{FutureProducer, FutureRecord, Producer};
use rdkafka::util::Timeout;
use std::time::{Duration, Instant};

fn unreachable_producer() -> FutureProducer {
    let cfg = SessionConfig::from_env_values(Some("localhost:9092".to_string()), None, None)
        .expect("endpoint present");
    DriverConfig::from_session(&cfg)
        .into_client_config()
        .create()
        .expect("producer creation")
}

#[test]
fn send_against_unreachable_broker_fails_after_delivery_timeout() {
    let producer = unreachable_producer();
    let record = OutboundRecord::new(
        "events".to_string(),
        "user-1".to_string(),
        "{\"type\":\"click\"}".to_string(),
    )
    .expect("topic non-empty");

    let runtime = tokio::runtime::Builder::new_current_thread()
        .enable_all()
        .build()
        .expect("runtime");

    let started = Instant::now();
    let outcome = runtime.block_on(async {
        match producer
            .send(
                FutureRecord::to(record.topic())
                    .payload(record.payload())
                    .key(record.key()),
                Timeout::After(Duration::from_millis(DELIVERY_TIMEOUT_MS)),
            )
            .await
        {
            Ok(delivery) => DeliveryOutcome::Acked {
                partition: delivery.partition,
                offset: delivery.offset,
            },
            Err((e, _)) => DeliveryOutcome::Failed {
                description: format!("Kafka send error: {:?}", e),
            },
        }
    });
    let elapsed = started.elapsed();

    let err = settle_send(outcome).expect_err("broker unreachable");
    assert!(err.starts_with("Kafka send error:"), "unexpected error: {err}");
    assert!(elapsed >= Duration::from_millis(4000), "failed too early: {elapsed:?}");
    assert!(elapsed <= Duration::from_millis(15000), "failed too late: {elapsed:?}");
}

#[test]
fn health_against_unreachable_broker_is_false_within_bound() {
    let producer = unreachable_producer();

    let started = Instant::now();
    let outcome = match producer
        .client()
        .fetch_metadata(None, Duration::from_millis(HEALTH_TIMEOUT_MS))
    {
        Ok(_) => ProbeOutcome::MetadataReceived,
        Err(e) => ProbeOutcome::ProbeFailed {
            description: format!("{:?}", e),
        },
    };
    let elapsed = started.elapsed();

    assert!(!health_signal(&outcome));
    assert!(elapsed <= Duration::from_millis(15000), "probe overran: {elapsed:?}");
}
