use vstd::prelude::*;

use crate::aggregate::Aggregate;
use crate::store::{copy_envelope, payloads, EventEnvelope};

verus! {

/// A read-model updater, driven by the batches of committed events.
///
/// `delivered` is the record of every batch handed to it: the aggregate id
/// and the events of the batch, in commit order.
pub trait Query<A: Aggregate>: Sized {
    /// The batches delivered so far, oldest first.
    spec fn delivered(&self) -> Seq<(Seq<char>, Seq<A::Event>)>;

    /// Takes one committed batch of `aggregate_id`. Nothing is returned: a
    /// failure inside the consumer is its own to handle.
    fn dispatch(&mut self, aggregate_id: &str, events: &[EventEnvelope<A>])
        ensures
            final(self).delivered() == old(self).delivered().push((aggregate_id@, payloads(events@))),
    ;
}

/// One batch as a projection received it.
pub struct DeliveredBatch<A: Aggregate> {
    pub aggregate_id: String,
    pub events: Vec<EventEnvelope<A>>,
}

/// A projection that keeps a copy of every batch it is given.
pub struct EventLog<A: Aggregate> {
    batches: Vec<DeliveredBatch<A>>,
}

/// The record of a list of received batches.
pub open spec fn batch_record<A: Aggregate>(batches: Seq<DeliveredBatch<A>>) -> Seq<(Seq<char>, Seq<A::Event>)> {
    batches.map_values(|b: DeliveredBatch<A>| (b.aggregate_id@, payloads(b.events@)))
}

impl<A: Aggregate> EventLog<A> {
    /// A log that has received nothing.
    pub fn new() -> (r: EventLog<A>)
        ensures
            r.delivered() == Seq::<(Seq<char>, Seq<A::Event>)>::empty(),
    {
        let r = EventLog { batches: Vec::new() };
        assert(batch_record(r.batches@) == Seq::<(Seq<char>, Seq<A::Event>)>::empty());
        r
    }

    /// The batches received, oldest first.
    pub fn batches(&self) -> (r: &Vec<DeliveredBatch<A>>)
        ensures
            batch_record(r@) == self.delivered(),
    {
        &self.batches
    }
}

impl<A: Aggregate> Query<A> for EventLog<A> {
    closed spec fn delivered(&self) -> Seq<(Seq<char>, Seq<A::Event>)> {
        batch_record(self.batches@)
    }

    fn dispatch(&mut self, aggregate_id: &str, events: &[EventEnvelope<A>]) {
        let mut copies: Vec<EventEnvelope<A>> = Vec::new();
        let mut i: usize = 0;
        while i < events.len()
            invariant
                i <= events@.len(),
                payloads(copies@) == payloads(events@).subrange(0, i as int),
            decreases events@.len() - i,
        {
            copies.push(copy_envelope(&events[i]));
            proof {
                assert(payloads(events@).subrange(0, i + 1) == payloads(events@).subrange(0, i as int).push(events@[i as int].payload));
                assert(payloads(copies@) =~= payloads(events@).subrange(0, i + 1));
            }
            i = i + 1;
        }
        assert(payloads(events@).subrange(0, events@.len() as int) == payloads(events@));
        let ghost before = self.batches@;
        self.batches.push(DeliveredBatch { aggregate_id: aggregate_id.to_owned(), events: copies });
        assert(batch_record(self.batches@) =~= batch_record(before).push((aggregate_id@, payloads(events@))));
    }
}

} // verus!
