//! Settling delivery attempts and health probes.
//!
//! The process hands each broker answer back as a plain value; the
//! functions here fix what the caller sees for every possible answer.
//! A send surfaces unit on acknowledgment and a single descriptive
//! failure otherwise; a health probe collapses to a boolean.

use vstd::prelude::*;

verus! {

/// What one delivery attempt came to, as reported by the transport:
/// either the broker acknowledged the record at a partition and offset,
/// or the attempt failed (timeout, unreachable broker, rejected record,
/// authentication failure) with a description.
pub enum DeliveryOutcome {
    Acked { partition: i32, offset: i64 },
    Failed { description: String },
}

/// The caller-visible result of one send: unit exactly when the broker
/// acknowledged, otherwise the failure description unchanged. Total: every
/// outcome settles to a value, success or failure, never anything else.
pub fn settle_send(outcome: DeliveryOutcome) -> (r: Result<(), String>)
    ensures
        r is Ok <==> outcome is Acked,
        outcome matches DeliveryOutcome::Failed { description } ==> r is Err && r->Err_0 == description,
{
    match outcome {
        DeliveryOutcome::Acked { .. } => Ok(()),
        DeliveryOutcome::Failed { description } => Err(description),
    }
}

/// What one health probe came to: the broker answered the metadata
/// request within the probe timeout, or the request failed or timed out
/// with a description that is only logged, never returned.
pub enum ProbeOutcome {
    MetadataReceived,
    ProbeFailed { description: String },
}

/// The health signal: a point-in-time boolean, true exactly when the
/// metadata round-trip succeeded. Timeouts and transport failures both
/// collapse to false; the cause is not distinguished in the return.
pub fn health_signal(outcome: &ProbeOutcome) -> (healthy: bool)
    ensures
        healthy <==> outcome is MetadataReceived,
{
    match outcome {
        ProbeOutcome::MetadataReceived => true,
        ProbeOutcome::ProbeFailed { .. } => false,
    }
}

} // verus!
