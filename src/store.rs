use vstd::prelude::*;

use std::collections::HashMap;

use crate::aggregate::{fold_events, replay, Aggregate, AggregateError, DomainEvent};

verus! {

/// The durable unit: one event of one aggregate, with its place in that
/// aggregate's history and the metadata of the commit that recorded it.
pub struct EventEnvelope<A: Aggregate> {
    pub aggregate_id: String,
    /// The position of the event in the aggregate's history, counting from 1.
    pub sequence: usize,
    pub payload: A::Event,
    pub metadata: HashMap<String, String>,
}

/// An aggregate as loaded for one commit: its state, and the number of
/// events it was rebuilt from.
pub struct AggregateContext<A: Aggregate> {
    pub aggregate_id: String,
    pub aggregate: A,
    pub current_sequence: usize,
}

impl<A: Aggregate> AggregateContext<A> {
    /// The loaded aggregate.
    pub fn aggregate(&self) -> (r: &A)
        ensures
            *r == self.aggregate,
    {
        &self.aggregate
    }
}

/// The events carried by a batch of envelopes, in order.
pub open spec fn payloads<A: Aggregate>(envs: Seq<EventEnvelope<A>>) -> Seq<A::Event> {
    envs.map_values(|e: EventEnvelope<A>| e.payload)
}

/// `envs` wrap `events` for aggregate `id`, numbered on from `start`.
pub open spec fn envelopes_of<A: Aggregate>(
    envs: Seq<EventEnvelope<A>>,
    id: Seq<char>,
    start: int,
    events: Seq<A::Event>,
) -> bool {
    &&& envs.len() == events.len()
    &&& forall|i: int|
        0 <= i < envs.len() ==> {
            &&& (#[trigger] envs[i]).aggregate_id@ == id
            &&& envs[i].sequence == start + i + 1
            &&& envs[i].payload == events[i]
        }
}

/// `envs` carry the metadata `mds`, one map per envelope.
pub open spec fn carries_metadata<A: Aggregate>(
    envs: Seq<EventEnvelope<A>>,
    mds: Seq<Map<String, String>>,
) -> bool {
    &&& envs.len() == mds.len()
    &&& forall|i: int| 0 <= i < envs.len() ==> (#[trigger] envs[i]).metadata@ == mds[i]
}

/// `n` copies of the metadata `md`.
pub open spec fn repeated(md: Map<String, String>, n: int) -> Seq<Map<String, String>> {
    Seq::new(n as nat, |i: int| md)
}

/// A durable, append-only log of events per aggregate id, with optimistic
/// concurrency on commit.
pub trait EventStore<A: Aggregate>: Sized {
    /// The events committed for `id`, in commit order.
    spec fn events_of(&self, id: Seq<char>) -> Seq<A::Event>;

    /// The metadata of each event committed for `id`, in commit order.
    spec fn metadata_of(&self, id: Seq<char>) -> Seq<Map<String, String>>;

    /// Whether the store takes a commit of `count` events for `id` whose
    /// context was loaded at version `loaded`.
    spec fn accepts(&self, id: Seq<char>, loaded: int, count: int) -> bool;

    /// The full history of `id`.
    fn load(&self, id: &str) -> (r: Vec<EventEnvelope<A>>)
        ensures
            envelopes_of(r@, id@, 0, self.events_of(id@)),
            carries_metadata(r@, self.metadata_of(id@)),
    ;

    /// The aggregate of `id` rebuilt from its history, with the history's length.
    fn load_aggregate(&self, id: &str) -> (r: AggregateContext<A>)
        ensures
            r.aggregate_id@ == id@,
            r.current_sequence == self.events_of(id@).len(),
            r.aggregate.model() == fold_events::<A>(A::initial(), self.events_of(id@)),
    ;

    /// Appends `events` to the history of the context's aggregate, unless
    /// another commit advanced that history since the context was loaded.
    /// On failure nothing is committed.
    fn commit(
        &mut self,
        events: Vec<A::Event>,
        context: AggregateContext<A>,
        metadata: HashMap<String, String>,
    ) -> (r: Result<Vec<EventEnvelope<A>>, AggregateError>)
        ensures
            match r {
                Ok(envs) => {
                    &&& context.current_sequence == old(self).events_of(context.aggregate_id@).len()
                    &&& envelopes_of(envs@, context.aggregate_id@, context.current_sequence as int, events@)
                    &&& carries_metadata(envs@, repeated(metadata@, events@.len() as int))
                    &&& final(self).events_of(context.aggregate_id@) == old(self).events_of(
                        context.aggregate_id@,
                    ) + events@
                    &&& final(self).metadata_of(context.aggregate_id@) == old(self).metadata_of(
                        context.aggregate_id@,
                    ) + repeated(metadata@, events@.len() as int)
                    &&& forall|k: Seq<char>|
                        k != context.aggregate_id@ ==> #[trigger] final(self).events_of(k) == old(
                            self,
                        ).events_of(k) && final(self).metadata_of(k) == old(self).metadata_of(k)
                },
                Err(e) => {
                    &&& !(e is UserError)
                    &&& forall|k: Seq<char>|
                        #[trigger] final(self).events_of(k) == old(self).events_of(k)
                            && final(self).metadata_of(k) == old(self).metadata_of(k)
                },
            },
            context.current_sequence != old(self).events_of(context.aggregate_id@).len() ==> r == Err::<Vec<EventEnvelope<A>>, AggregateError>(AggregateError::AggregateConflict),
            old(self).accepts(context.aggregate_id@, context.current_sequence as int, events@.len() as int) ==> r is Ok,
    ;
}

/// The metadata carried by a batch of envelopes, in order.
pub open spec fn metadata_seq<A: Aggregate>(envs: Seq<EventEnvelope<A>>) -> Seq<Map<String, String>> {
    envs.map_values(|e: EventEnvelope<A>| e.metadata@)
}

/// The history of one aggregate id.
struct EventStream<A: Aggregate> {
    aggregate_id: String,
    envelopes: Vec<EventEnvelope<A>>,
}

/// An event store that keeps every history in memory.
pub struct MemStore<A: Aggregate> {
    streams: Vec<EventStream<A>>,
}

pub(crate) fn copy_envelope<A: Aggregate>(e: &EventEnvelope<A>) -> (r: EventEnvelope<A>)
    ensures
        r.aggregate_id@ == e.aggregate_id@,
        r.sequence == e.sequence,
        r.payload == e.payload,
        r.metadata@ == e.metadata@,
{
    EventEnvelope {
        aggregate_id: e.aggregate_id.clone(),
        sequence: e.sequence,
        payload: e.payload.clone_event(),
        metadata: e.metadata.clone(),
    }
}

impl<A: Aggregate> MemStore<A> {
    #[verifier::type_invariant]
    closed spec fn wf(&self) -> bool {
        &&& forall|i: int, j: int|
            0 <= i < j < self.streams.len() ==> (#[trigger] self.streams[i]).aggregate_id@
                != (#[trigger] self.streams[j]).aggregate_id@
        &&& forall|i: int|
            0 <= i < self.streams.len() ==> envelopes_of(
                (#[trigger] self.streams[i]).envelopes@,
                self.streams[i].aggregate_id@,
                0,
                payloads(self.streams[i].envelopes@),
            )
    }

    closed spec fn index_of(&self, id: Seq<char>) -> int {
        if exists|i: int| 0 <= i < self.streams.len() && self.streams[i].aggregate_id@ == id {
            choose|i: int| 0 <= i < self.streams.len() && self.streams[i].aggregate_id@ == id
        } else {
            -1
        }
    }

    proof fn lemma_index_of(&self, i: int)
        requires
            self.wf(),
            0 <= i < self.streams.len(),
        ensures
            self.index_of(self.streams[i].aggregate_id@) == i,
    {
    }

    /// An empty store.
    pub fn new() -> (r: MemStore<A>)
        ensures
            forall|k: Seq<char>| #[trigger] r.events_of(k) == Seq::<A::Event>::empty(),
    {
        MemStore { streams: Vec::new() }
    }

    /// The number of events committed for `id`.
    pub fn event_count(&self, id: &str) -> (r: usize)
        ensures
            r == self.events_of(id@).len(),
    {
        proof {
            use_type_invariant(self);
        }
        match self.position(id) {
            Some(i) => self.streams[i].envelopes.len(),
            None => 0,
        }
    }

    fn position(&self, id: &str) -> (r: Option<usize>)
        requires
            self.wf(),
        ensures
            match r {
                Some(i) => i < self.streams.len() && self.index_of(id@) == i,
                None => self.index_of(id@) == -1,
            },
    {
        let key = id.to_owned();
        let mut i: usize = 0;
        while i < self.streams.len()
            invariant
                self.wf(),
                key@ == id@,
                i <= self.streams.len(),
                forall|j: int| 0 <= j < i ==> (#[trigger] self.streams[j]).aggregate_id@ != id@,
            decreases self.streams.len() - i,
        {
            if self.streams[i].aggregate_id.eq(&key) {
                proof {
                    self.lemma_index_of(i as int);
                }
                return Some(i);
            }
            i = i + 1;
        }
        None
    }
}

impl<A: Aggregate> Default for MemStore<A> {
    fn default() -> (r: MemStore<A>)
        ensures
            forall|k: Seq<char>| #[trigger] r.events_of(k) == Seq::<A::Event>::empty(),
    {
        MemStore::new()
    }
}

impl<A: Aggregate> EventStore<A> for MemStore<A> {
    closed spec fn events_of(&self, id: Seq<char>) -> Seq<A::Event> {
        let i = self.index_of(id);
        if i >= 0 {
            payloads(self.streams[i].envelopes@)
        } else {
            Seq::empty()
        }
    }

    closed spec fn metadata_of(&self, id: Seq<char>) -> Seq<Map<String, String>> {
        let i = self.index_of(id);
        if i >= 0 {
            metadata_seq(self.streams[i].envelopes@)
        } else {
            Seq::empty()
        }
    }

    /// A commit is taken if the history has not moved since the context was
    /// loaded and the numbering stays within `usize`.
    open spec fn accepts(&self, id: Seq<char>, loaded: int, count: int) -> bool {
        loaded == self.events_of(id).len() && loaded + count <= usize::MAX
    }

    fn load(&self, id: &str) -> (r: Vec<EventEnvelope<A>>) {
        proof {
            use_type_invariant(self);
        }
        let mut r: Vec<EventEnvelope<A>> = Vec::new();
        match self.position(id) {
            Some(i) => {
                let envs = &self.streams[i].envelopes;
                let mut k: usize = 0;
                while k < envs.len()
                    invariant
                        self.wf(),
                        i < self.streams.len(),
                        self.index_of(id@) == i,
                        *envs == self.streams[i as int].envelopes,
                        k <= envs.len(),
                        envelopes_of(r@, id@, 0, payloads(envs@).subrange(0, k as int)),
                        carries_metadata(r@, metadata_seq(envs@).subrange(0, k as int)),
                    decreases envs.len() - k,
                {
                    r.push(copy_envelope(&envs[k]));
                    k = k + 1;
                }
                assert(payloads(envs@).subrange(0, envs@.len() as int) == payloads(envs@));
                assert(metadata_seq(envs@).subrange(0, envs@.len() as int) == metadata_seq(envs@));
            },
            None => {},
        }
        r
    }

    fn load_aggregate(&self, id: &str) -> (r: AggregateContext<A>) {
        let envs = self.load(id);
        let mut history: Vec<A::Event> = Vec::new();
        let mut k: usize = 0;
        while k < envs.len()
            invariant
                k <= envs.len(),
                envelopes_of(envs@, id@, 0, self.events_of(id@)),
                history@ == self.events_of(id@).subrange(0, k as int),
            decreases envs.len() - k,
        {
            history.push(envs[k].payload.clone_event());
            k = k + 1;
        }
        assert(history@ == self.events_of(id@));
        let aggregate = replay::<A>(&history);
        AggregateContext {
            aggregate_id: id.to_owned(),
            aggregate,
            current_sequence: envs.len(),
        }
    }

    fn commit(
        &mut self,
        events: Vec<A::Event>,
        context: AggregateContext<A>,
        metadata: HashMap<String, String>,
    ) -> (r: Result<Vec<EventEnvelope<A>>, AggregateError>) {
        self.append(events, context, metadata)
    }
}

impl<A: Aggregate> MemStore<A> {
    /// Appends `events` to the history of the context's aggregate if that
    /// history still has the length it was loaded with, and the numbering
    /// does not overflow; otherwise commits nothing.
    pub fn append(
        &mut self,
        events: Vec<A::Event>,
        context: AggregateContext<A>,
        metadata: HashMap<String, String>,
    ) -> (r: Result<Vec<EventEnvelope<A>>, AggregateError>)
        ensures
            match r {
                Ok(envs) => {
                    &&& context.current_sequence == old(self).events_of(context.aggregate_id@).len()
                    &&& envelopes_of(envs@, context.aggregate_id@, context.current_sequence as int, events@)
                    &&& carries_metadata(envs@, repeated(metadata@, events@.len() as int))
                    &&& final(self).events_of(context.aggregate_id@) == old(self).events_of(
                        context.aggregate_id@,
                    ) + events@
                    &&& final(self).metadata_of(context.aggregate_id@) == old(self).metadata_of(
                        context.aggregate_id@,
                    ) + repeated(metadata@, events@.len() as int)
                    &&& forall|k: Seq<char>|
                        k != context.aggregate_id@ ==> #[trigger] final(self).events_of(k) == old(
                            self,
                        ).events_of(k) && final(self).metadata_of(k) == old(self).metadata_of(k)
                },
                Err(e) => {
                    &&& !(e is UserError)
                    &&& forall|k: Seq<char>|
                        #[trigger] final(self).events_of(k) == old(self).events_of(k)
                            && final(self).metadata_of(k) == old(self).metadata_of(k)
                },
            },
            context.current_sequence != old(self).events_of(context.aggregate_id@).len() ==> r == Err::<Vec<EventEnvelope<A>>, AggregateError>(AggregateError::AggregateConflict),
            old(self).accepts(context.aggregate_id@, context.current_sequence as int, events@.len() as int) ==> r is Ok,
    {
        proof {
            use_type_invariant(&*self);
        }
        let id = context.aggregate_id;
        let pos = self.position(id.as_str());
        let current: usize = match pos {
            Some(i) => self.streams[i].envelopes.len(),
            None => 0,
        };
        if context.current_sequence != current {
            return Err(AggregateError::AggregateConflict);
        }
        if events.len() > usize::MAX - current {
            return Err(AggregateError::TechnicalError("sequence number overflow".to_owned()));
        }
        let mut taken = MemStore { streams: Vec::new() };
        core::mem::swap(self, &mut taken);
        proof {
            use_type_invariant(&taken);
        }
        let ghost old_store = taken;
        let MemStore { mut streams } = taken;
        let mut stream = match pos {
            Some(i) => streams.remove(i),
            None => EventStream { aggregate_id: id.clone(), envelopes: Vec::new() },
        };
        let ghost old_events = payloads(stream.envelopes@);
        let ghost old_mds = metadata_seq(stream.envelopes@);
        let mut committed: Vec<EventEnvelope<A>> = Vec::new();
        let mut k: usize = 0;
        while k < events.len()
            invariant
                k <= events.len(),
                current + events.len() <= usize::MAX,
                stream.aggregate_id@ == id@,
                old_events.len() == current,
                envelopes_of(committed@, id@, current as int, events@.subrange(0, k as int)),
                envelopes_of(stream.envelopes@, id@, 0, old_events + events@.subrange(0, k as int)),
                old_mds.len() == current,
                carries_metadata(committed@, repeated(metadata@, k as int)),
                carries_metadata(stream.envelopes@, old_mds + repeated(metadata@, k as int)),
            decreases events.len() - k,
        {
            stream.envelopes.push(
                EventEnvelope {
                    aggregate_id: id.clone(),
                    sequence: current + k + 1,
                    payload: events[k].clone_event(),
                    metadata: metadata.clone(),
                },
            );
            committed.push(
                EventEnvelope {
                    aggregate_id: id.clone(),
                    sequence: current + k + 1,
                    payload: events[k].clone_event(),
                    metadata: metadata.clone(),
                },
            );
            proof {
                assert(events@.subrange(0, k + 1) == events@.subrange(0, k as int).push(events@[k as int]));
            }
            k = k + 1;
        }
        assert(events@.subrange(0, events@.len() as int) == events@);
        let ghost new_envs = stream.envelopes@;
        assert(payloads(new_envs) =~= old_events + events@);
        assert(metadata_seq(new_envs) =~= old_mds + repeated(metadata@, events@.len() as int));
        match pos {
            Some(i) => streams.insert(i, stream),
            None => streams.push(stream),
        }
        let ghost new_streams = streams@;
        proof {
            match pos {
                Some(i) => {
                    assert(new_streams == old_store.streams@.update(i as int, new_streams[i as int]));
                },
                None => {
                    assert(new_streams == old_store.streams@.push(new_streams[old_store.streams@.len() as int]));
                },
            }
        }
        *self = MemStore { streams };
        proof {
            assert forall|k: Seq<char>| k != id@ implies #[trigger] self.events_of(k) == old_store.events_of(k)
                && self.metadata_of(k) == old_store.metadata_of(k) by {
                if old_store.index_of(k) >= 0 {
                    old_store.lemma_index_of(old_store.index_of(k));
                    self.lemma_index_of(old_store.index_of(k));
                } else if self.index_of(k) >= 0 {
                    self.lemma_index_of(self.index_of(k));
                }
            }
            match pos {
                Some(i) => {
                    self.lemma_index_of(i as int);
                },
                None => {
                    self.lemma_index_of(old_store.streams@.len() as int);
                },
            }
        }
        Ok(committed)
    }
}

} // verus!
