//! Per-key ordering of the send pipeline.
//!
//! Records sent with the same key from the same client handle must be
//! observed by the broker in the order `send` was invoked. The guarantee
//! rests on the client keeping at most one unacknowledged request in
//! flight per connection. This module models that discipline — a mock
//! broker that records arrival order, and a pipeline that admits a new
//! record only once the previous one is acknowledged — and proves the
//! ordering law over it.

use vstd::prelude::*;
use crate::record::OutboundRecord;
use crate::record::RecordView;

verus! {

/// The views of a sequence of records, in the same order.
pub open spec fn record_views(rs: Seq<OutboundRecord>) -> Seq<RecordView> {
    rs.map_values(|r: OutboundRecord| r@)
}

/// A mock broker: it records every arrival, in arrival order.
pub struct BrokerLog {
    entries: Vec<OutboundRecord>,
}

impl View for BrokerLog {
    type V = Seq<RecordView>;

    closed spec fn view(&self) -> Seq<RecordView> {
        record_views(self.entries@)
    }
}

impl BrokerLog {
    /// A broker that has observed nothing yet.
    pub fn new() -> (log: BrokerLog)
        ensures
            log@ == Seq::<RecordView>::empty(),
    {
        let log = BrokerLog { entries: Vec::new() };
        proof {
            assert(log@ =~= Seq::<RecordView>::empty());
        }
        log
    }

    /// How many arrivals the broker has observed.
    pub fn len(&self) -> (n: usize)
        ensures
            n == self@.len(),
    {
        self.entries.len()
    }

    /// The arrival observed at a position.
    pub fn entry(&self, i: usize) -> (r: &OutboundRecord)
        requires
            i < self@.len(),
        ensures
            r@ == self@[i as int],
    {
        &self.entries[i]
    }
}

/// The send pipeline of one client handle: at most one record is in
/// flight — a new one is admitted only once the previous acknowledgment
/// arrived.
pub struct SendPipeline {
    in_flight: Option<OutboundRecord>,
}

impl View for SendPipeline {
    type V = Option<RecordView>;

    closed spec fn view(&self) -> Option<RecordView> {
        match self.in_flight {
            Some(r) => Some(r@),
            None => None,
        }
    }
}

impl SendPipeline {
    /// A pipeline with nothing in flight.
    pub fn new() -> (p: SendPipeline)
        ensures
            p@ is None,
    {
        SendPipeline { in_flight: None }
    }

    /// Hands one record to the in-flight slot; only admitted while
    /// nothing else is awaiting acknowledgment.
    pub fn submit(&mut self, r: OutboundRecord)
        requires
            old(self)@ is None,
        ensures
            final(self)@ == Some(r@),
    {
        self.in_flight = Some(r);
    }

    /// The broker acknowledges the in-flight record: it is appended to
    /// the arrival log and the pipeline empties.
    pub fn acknowledge(&mut self, broker: &mut BrokerLog)
        requires
            old(self)@ is Some,
        ensures
            final(self)@ is None,
            final(broker)@ == old(broker)@.push(old(self)@->Some_0),
    {
        let slot = self.in_flight.take();
        match slot {
            Some(r) => {
                broker.entries.push(r);
                proof {
                    assert(broker@ =~= old(broker)@.push(old(self)@->Some_0));
                }
            },
            None => {},
        }
    }

    /// One whole send as the broker observes it under this discipline:
    /// submit, then await the acknowledgment. The broker's log grows by
    /// exactly this record, at the end.
    pub fn send_record(&mut self, broker: &mut BrokerLog, r: OutboundRecord)
        requires
            old(self)@ is None,
        ensures
            final(self)@ is None,
            final(broker)@ == old(broker)@.push(r@),
    {
        self.submit(r);
        self.acknowledge(broker);
    }

    /// Sends a batch in invocation order; the broker observes exactly
    /// the batch, appended in that order, nothing reordered or dropped.
    pub fn send_batch(&mut self, broker: &mut BrokerLog, records: Vec<OutboundRecord>)
        requires
            old(self)@ is None,
        ensures
            final(self)@ is None,
            final(broker)@ == old(broker)@ + record_views(records@),
    {
        let ghost views = record_views(records@);
        let ghost broker0 = broker@;
        let mut pending = records;
        proof {
            assert(record_views(pending@) =~= views.skip(0));
            assert(broker@ =~= broker0 + views.take(0));
        }
        while pending.len() > 0
            invariant
                self@ is None,
                pending@.len() <= views.len(),
                record_views(pending@) =~= views.skip(views.len() - pending@.len()),
                broker@ =~= broker0 + views.take(views.len() - pending@.len()),
            decreases pending@.len(),
        {
            let ghost pending_before = pending@;
            let ghost k = views.len() - pending@.len();
            let r = pending.remove(0);
            proof {
                assert(record_views(pending_before)[0] == views.skip(k)[0]);
                assert(r@ == views[k]);
                assert forall|i: int| 0 <= i < pending@.len() implies record_views(pending@)[i]
                    == views.skip(k + 1)[i] by {
                    assert(pending@[i] == pending_before[i + 1]);
                    assert(record_views(pending_before)[i + 1] == views.skip(k)[i + 1]);
                    assert(views.skip(k)[i + 1] == views[k + 1 + i]);
                }
                assert(record_views(pending@) =~= views.skip(k + 1));
            }
            self.send_record(broker, r);
            proof {
                assert(views.take(k + 1) =~= views.take(k).push(views[k]));
                assert(broker@ =~= broker0 + views.take(k + 1));
            }
        }
        proof {
            assert(views.take(views.len() as int) =~= views);
            assert(broker@ =~= broker0 + views);
        }
    }
}

/// The subsequence of arrivals carrying a given key, in arrival order.
pub open spec fn arrivals_with_key(log: Seq<RecordView>, key: Seq<char>) -> Seq<RecordView>
    decreases log.len(),
{
    if log.len() == 0 {
        Seq::empty()
    } else if log.last().key == key {
        arrivals_with_key(log.drop_last(), key).push(log.last())
    } else {
        arrivals_with_key(log.drop_last(), key)
    }
}

/// Law (single arrival): one more arrival extends the per-key projection
/// at the end exactly when its key matches, and leaves it untouched
/// otherwise.
pub proof fn lemma_arrival_extends_projection(log: Seq<RecordView>, r: RecordView, key: Seq<char>)
    ensures
        r.key == key ==> arrivals_with_key(log.push(r), key) == arrivals_with_key(
            log,
            key,
        ).push(r),
        r.key != key ==> arrivals_with_key(log.push(r), key) == arrivals_with_key(log, key),
{
    assert(log.push(r).drop_last() =~= log);
    assert(log.push(r).last() == r);
}

/// Law: two sends with the same key, invoked in order from the same
/// client handle with at most one request in flight, are observed by the
/// broker in that order — the per-key projection gains exactly the two
/// records, the first followed by the second, and the projection of the
/// earlier arrivals is untouched.
pub proof fn lemma_same_key_sends_in_order(
    log: Seq<RecordView>,
    first: RecordView,
    second: RecordView,
    key: Seq<char>,
)
    requires
        first.key == key,
        second.key == key,
    ensures
        arrivals_with_key(log.push(first).push(second), key) == arrivals_with_key(
            log,
            key,
        ).push(first).push(second),
{
    lemma_arrival_extends_projection(log, first, key);
    lemma_arrival_extends_projection(log.push(first), second, key);
}

} // verus!
