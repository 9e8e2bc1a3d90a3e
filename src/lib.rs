//! A small event-sourcing core: aggregates rebuilt from their event history,
//! commands turned into events, an in-memory event store with optimistic
//! concurrency, a command pipeline that commits and fans events out to
//! projections, a registry of live instances per aggregate id, and a
//! given/when/then harness for aggregate logic.
pub mod aggregate;
pub mod cqrs;
pub mod doc;
pub mod query;
pub mod registry;
pub mod store;
pub mod test;

pub use aggregate::{replay, Aggregate, AggregateError, DomainEvent};
pub use cqrs::CqrsFramework;
pub use query::Query;
pub use registry::{ActorHandle, ActorRegistry, RegistryError};
pub use store::{AggregateContext, EventEnvelope, EventStore, MemStore};
