//! Message delivery core of an event-ingestion gateway.
//!
//! The library owns the decisions of the delivery subsystem: how a broker
//! session is configured from the environment's values, which outbound
//! records are acceptable, how a delivery or health probe outcome is
//! reported to callers, and the per-key ordering discipline of the send
//! pipeline. The surrounding process performs the network I/O and hands
//! the results back as plain values.

use vstd::prelude::*;

pub mod config;
pub mod delivery;
pub mod driver;
pub mod ordering;
pub mod record;

verus! {

/// Milliseconds a send waits for the broker's delivery acknowledgment.
pub const DELIVERY_TIMEOUT_MS: u64 = 5000;

/// Milliseconds the transport layer waits on a socket operation.
pub const SOCKET_TIMEOUT_MS: u64 = 3000;

/// Milliseconds a health probe waits for a metadata round-trip.
pub const HEALTH_TIMEOUT_MS: u64 = 2000;

} // verus!
