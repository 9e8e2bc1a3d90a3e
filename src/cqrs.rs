use vstd::prelude::*;

use std::collections::HashMap;
use std::marker::PhantomData;

use crate::aggregate::{fold_events, Aggregate, AggregateError};
use crate::query::Query;
use crate::store::{payloads, repeated, EventEnvelope, EventStore};

verus! {

/// The decision that `command` meets on the history that `store` holds for `id`.
pub open spec fn decision<A: Aggregate, ES: EventStore<A>>(
    store: ES,
    id: Seq<char>,
    command: A::Command,
) -> Result<Seq<A::Event>, Seq<char>> {
    A::decided(fold_events::<A>(A::initial(), store.events_of(id)), command)
}

/// Applies commands to aggregates: loads the history, lets the aggregate
/// decide, commits the resulting events and hands them to every projection.
pub struct CqrsFramework<A: Aggregate, ES: EventStore<A>, Q: Query<A>> {
    store: ES,
    query_processors: Vec<Q>,
    aggregate: PhantomData<A>,
}

impl<A: Aggregate, ES: EventStore<A>, Q: Query<A>> CqrsFramework<A, ES, Q> {
    /// The store that the framework commits to.
    pub closed spec fn store_state(&self) -> ES {
        self.store
    }

    /// The projections, in the order they are served.
    pub closed spec fn query_states(&self) -> Seq<Q> {
        self.query_processors@
    }

    /// A framework over `store` that feeds `query_processors`.
    pub fn new(store: ES, query_processors: Vec<Q>) -> (r: CqrsFramework<A, ES, Q>)
        ensures
            r.store_state() == store,
            r.query_states() == query_processors@,
    {
        CqrsFramework { store, query_processors, aggregate: PhantomData }
    }

    /// The store that the framework commits to.
    pub fn store(&self) -> (r: &ES)
        ensures
            *r == self.store_state(),
    {
        &self.store
    }

    /// The projections, in the order they are served.
    pub fn query_processors(&self) -> (r: &Vec<Q>)
        ensures
            r@ == self.query_states(),
    {
        &self.query_processors
    }

    /// Applies `command` to the aggregate `aggregate_id`, with no metadata:
    /// the same as `execute_with_metadata` with an empty map.
    pub fn execute(&mut self, aggregate_id: &str, command: A::Command) -> (r: Result<(), AggregateError>)
        ensures
            executed_as(*old(self), *final(self), aggregate_id@, command, Map::empty(), r),
    {
        self.execute_with_metadata(aggregate_id, command, HashMap::new())
    }

    /// Applies `command` to the aggregate `aggregate_id`; `metadata` is
    /// attached to every event committed.
    ///
    /// A business error from the aggregate is returned as it is, before the
    /// store or any projection is touched. Otherwise the events are handed
    /// to the store, and what it returns goes to `finish_commit`.
    pub fn execute_with_metadata(
        &mut self,
        aggregate_id: &str,
        command: A::Command,
        metadata: HashMap<String, String>,
    ) -> (r: Result<(), AggregateError>)
        ensures
            executed_as(*old(self), *final(self), aggregate_id@, command, metadata@, r),
    {
        let context = self.store.load_aggregate(aggregate_id);
        let events = match context.aggregate().handle(command) {
            Ok(events) => events,
            Err(e) => return Err(e),
        };
        let ghost produced = events@;
        let ghost start = *self;
        let committed = self.store.commit(events, context, metadata);
        proof {
            if committed is Ok {
                assert(payloads(committed->Ok_0@) =~= produced);
            }
        }
        let r = self.finish_commit(aggregate_id, committed);
        proof {
            let before = start.store_state();
            let after = self.store_state();
            assert(before.accepts(aggregate_id@, before.events_of(aggregate_id@).len() as int, produced.len() as int) ==> r is Ok);
            if r is Ok {
                assert(after.events_of(aggregate_id@) == before.events_of(aggregate_id@) + produced);
                assert(forall|i: int| 0 <= i < start.query_states().len() ==> (#[trigger] self.query_states()[i]).delivered()
                    == start.query_states()[i].delivered().push((aggregate_id@, produced)));
            } else {
                assert(self.query_states() == start.query_states());
            }
        }
        r
    }

    /// Completes an execution for `aggregate_id` with what the store's
    /// commit returned: a committed batch goes to every projection once, in
    /// the order the projections are held, and the call succeeds; a failed
    /// commit's error is returned as it came, and no projection is reached.
    pub fn finish_commit(
        &mut self,
        aggregate_id: &str,
        committed: Result<Vec<EventEnvelope<A>>, AggregateError>,
    ) -> (r: Result<(), AggregateError>)
        ensures
            final(self).store_state() == old(self).store_state(),
            match committed {
                Ok(c) => {
                    &&& r is Ok
                    &&& final(self).query_states().len() == old(self).query_states().len()
                    &&& forall|i: int|
                        0 <= i < old(self).query_states().len()
                            ==> (#[trigger] final(self).query_states()[i]).delivered()
                            == old(self).query_states()[i].delivered().push((aggregate_id@, payloads(c@)))
                },
                Err(e) => {
                    &&& r == Err::<(), AggregateError>(e)
                    &&& final(self).query_states() == old(self).query_states()
                },
            },
    {
        let committed = match committed {
            Ok(committed) => committed,
            Err(e) => return Err(e),
        };
        let mut pending: Vec<Q> = Vec::new();
        core::mem::swap(&mut pending, &mut self.query_processors);
        let ghost before = pending@;
        let mut served: Vec<Q> = Vec::new();
        while pending.len() > 0
            invariant
                served@.len() + pending@.len() == before.len(),
                pending@ == before.subrange(served@.len() as int, before.len() as int),
                forall|i: int|
                    0 <= i < served@.len() ==> (#[trigger] served@[i]).delivered() == before[i].delivered().push(
                        (aggregate_id@, payloads(committed@)),
                    ),
            decreases pending@.len(),
        {
            let mut q = pending.remove(0);
            q.dispatch(aggregate_id, committed.as_slice());
            served.push(q);
        }
        self.query_processors = served;
        Ok(())
    }
}

/// What one execution of `command` on `id` with metadata `md` does, from the
/// framework `before` to the framework `after`, given its result `r`:
/// - a refused command gives its business error and changes nothing;
/// - otherwise, where the store takes the commit, the call succeeds;
/// - a success appends the decided events, each with `md`, to the history
///   of `id` alone, and hands them to every projection once;
/// - a failure is a technical error, and changes no history and no projection.
pub open spec fn executed_as<A: Aggregate, ES: EventStore<A>, Q: Query<A>>(
    before: CqrsFramework<A, ES, Q>,
    after: CqrsFramework<A, ES, Q>,
    id: Seq<char>,
    command: A::Command,
    md: Map<String, String>,
    r: Result<(), AggregateError>,
) -> bool {
    let store = before.store_state();
    match decision::<A, ES>(store, id, command) {
        Err(message) => {
            &&& r matches Err(AggregateError::UserError(m)) && m@ == message
            &&& after.store_state() == store
            &&& after.query_states() == before.query_states()
        },
        Ok(events) => {
            &&& store.accepts(id, store.events_of(id).len() as int, events.len() as int) ==> r is Ok
            &&& match r {
                Ok(()) => {
                    &&& after.store_state().events_of(id) == store.events_of(id) + events
                    &&& after.store_state().metadata_of(id) == store.metadata_of(id) + repeated(
                        md,
                        events.len() as int,
                    )
                    &&& forall|k: Seq<char>|
                        k != id ==> #[trigger] after.store_state().events_of(k) == store.events_of(k)
                            && after.store_state().metadata_of(k) == store.metadata_of(k)
                    &&& after.query_states().len() == before.query_states().len()
                    &&& forall|i: int|
                        0 <= i < before.query_states().len() ==> (#[trigger] after.query_states()[i]).delivered()
                            == before.query_states()[i].delivered().push((id, events))
                },
                Err(e) => {
                    &&& !(e is UserError)
                    &&& forall|k: Seq<char>|
                        #[trigger] after.store_state().events_of(k) == store.events_of(k)
                            && after.store_state().metadata_of(k) == store.metadata_of(k)
                    &&& after.query_states() == before.query_states()
                },
            }
        },
    }
}

} // verus!
