//! Outbound records: one message bound for the broker.
//!
//! A record is ephemeral: it exists for the send call that creates it and
//! is discarded once the broker acknowledges it or the call times out.
//! The destination topic must be non-empty; key and payload may be empty.

use vstd::prelude::*;

verus! {

/// Why a record was rejected before any delivery was attempted.
#[derive(Clone, Copy, Debug, PartialEq, Eq, Structural)]
pub enum RecordError {
    /// The destination topic name was empty.
    EmptyTopic,
}

impl RecordError {
    /// A description of the rejection, fit for the caller-visible error.
    pub fn message(&self) -> (s: String)
        ensures
            s@ == "destination topic must be non-empty"@,
    {
        "destination topic must be non-empty".to_owned()
    }
}

/// One message to deliver: a destination topic, an ordering/partition
/// key, and an opaque payload.
pub struct OutboundRecord {
    topic: String,
    key: String,
    payload: String,
}

/// Spec-level image of an outbound record.
pub struct RecordView {
    pub topic: Seq<char>,
    pub key: Seq<char>,
    pub payload: Seq<char>,
}

impl View for OutboundRecord {
    type V = RecordView;

    closed spec fn view(&self) -> RecordView {
        RecordView { topic: self.topic@, key: self.key@, payload: self.payload@ }
    }
}

impl OutboundRecord {
    /// Every record ever constructed targets a non-empty topic.
    #[verifier::type_invariant]
    spec fn topic_non_empty(self) -> bool {
        self@.topic.len() > 0
    }

    /// Builds a record, rejecting an empty destination topic; key and
    /// payload are unconstrained.
    pub fn new(topic: String, key: String, payload: String) -> (r: Result<OutboundRecord, RecordError>)
        ensures
            r is Ok <==> topic@.len() > 0,
            r is Ok ==> r->Ok_0@ == (RecordView { topic: topic@, key: key@, payload: payload@ }),
            r is Err ==> r->Err_0 == RecordError::EmptyTopic,
    {
        if topic.as_str().is_empty() {
            Err(RecordError::EmptyTopic)
        } else {
            Ok(OutboundRecord { topic, key, payload })
        }
    }

    /// The destination topic; non-empty by construction.
    pub fn topic(&self) -> (t: &str)
        ensures
            t@ == self@.topic,
            t@.len() > 0,
    {
        proof {
            use_type_invariant(self);
        }
        self.topic.as_str()
    }

    /// The ordering/partition key.
    pub fn key(&self) -> (k: &str)
        ensures
            k@ == self@.key,
    {
        self.key.as_str()
    }

    /// The opaque payload.
    pub fn payload(&self) -> (p: &str)
        ensures
            p@ == self@.payload,
    {
        self.payload.as_str()
    }
}

} // verus!
