use vstd::prelude::*;

use std::marker::PhantomData;
use vstd::std_specs::cmp::PartialEqSpec;

use crate::aggregate::{fold_events, handled_as, replay, Aggregate, AggregateError};

verus! {

/// The given/when/then harness for aggregate logic: a baseline history, one
/// command, and the result checked against what was expected.
pub struct TestFramework<A: Aggregate> {
    aggregate: PhantomData<A>,
}

impl<A: Aggregate> TestFramework<A> {
    /// A test whose history is empty.
    pub fn given_no_previous_events(&self) -> (r: AggregateTestExecutor<A>)
        ensures
            r.history() == Seq::<A::Event>::empty(),
    {
        AggregateTestExecutor { events: Vec::new() }
    }

    /// A test whose history is `events`.
    pub fn given(&self, events: Vec<A::Event>) -> (r: AggregateTestExecutor<A>)
        ensures
            r.history() == events@,
    {
        AggregateTestExecutor { events }
    }
}

impl<A: Aggregate> Default for TestFramework<A> {
    fn default() -> (r: TestFramework<A>) {
        TestFramework { aggregate: PhantomData }
    }
}

/// Holds the baseline history of a test and takes its command.
pub struct AggregateTestExecutor<A: Aggregate> {
    events: Vec<A::Event>,
}

impl<A: Aggregate> AggregateTestExecutor<A> {
    /// The baseline history.
    pub closed spec fn history(&self) -> Seq<A::Event> {
        self.events@
    }

    /// Folds the history into a fresh aggregate and hands it `command`; no
    /// store is involved.
    pub fn when(self, command: A::Command) -> (r: AggregateResultValidator<A>)
        ensures
            handled_as(r.outcome(), A::decided(fold_events::<A>(A::initial(), self.history()), command)),
    {
        let aggregate = replay::<A>(&self.events);
        let result = aggregate.handle(command);
        AggregateResultValidator { result }
    }
}

/// Why a test's outcome was not the expected one.
#[derive(Debug)]
pub enum ValidationFailure<E> {
    /// Events were expected; the command was refused with this error.
    UnexpectedError(AggregateError),
    /// The command produced other events than expected.
    EventsMismatch { produced: Vec<E>, expected: Vec<E> },
    /// An error was expected; the command produced these events.
    UnexpectedEvents(Vec<E>),
    /// A business error was expected; this technical error came instead.
    TechnicalError(AggregateError),
    /// The business error carried another message than expected.
    MessageMismatch { actual: String, expected: String },
}

/// `a` and `b` hold equal events, in the same order.
pub open spec fn same_events<E: PartialEq>(a: Seq<E>, b: Seq<E>) -> bool {
    &&& a.len() == b.len()
    &&& forall|i: int| 0 <= i < a.len() ==> (#[trigger] a[i]).eq_spec(&b[i])
}

/// The outcome of a test's command, to be checked.
pub struct AggregateResultValidator<A: Aggregate> {
    result: Result<Vec<A::Event>, AggregateError>,
}

impl<A: Aggregate> AggregateResultValidator<A> {
    /// What the command returned.
    pub closed spec fn outcome(&self) -> Result<Vec<A::Event>, AggregateError> {
        self.result
    }

    /// Succeeds if the command produced exactly `expected_events`, in order.
    pub fn then_expect_events(self, expected_events: Vec<A::Event>) -> (r: Result<
        (),
        ValidationFailure<A::Event>,
    >)
        requires
            <A::Event as PartialEqSpec>::obeys_eq_spec(),
        ensures
            match self.outcome() {
                Ok(produced) => if same_events(produced@, expected_events@) {
                    r is Ok
                } else {
                    r == Err::<(), ValidationFailure<A::Event>>(
                        ValidationFailure::EventsMismatch { produced, expected: expected_events },
                    )
                },
                Err(e) => r == Err::<(), ValidationFailure<A::Event>>(
                    ValidationFailure::UnexpectedError(e),
                ),
            },
    {
        match self.result {
            Ok(produced) => {
                if produced.len() != expected_events.len() {
                    return Err(ValidationFailure::EventsMismatch { produced, expected: expected_events });
                }
                let mut i: usize = 0;
                while i < produced.len()
                    invariant
                        <A::Event as PartialEqSpec>::obeys_eq_spec(),
                        self.outcome() == Ok::<Vec<A::Event>, AggregateError>(produced),
                        produced@.len() == expected_events@.len(),
                        i <= produced@.len(),
                        forall|j: int| 0 <= j < i ==> (#[trigger] produced@[j]).eq_spec(&expected_events@[j]),
                    decreases produced@.len() - i,
                {
                    if !produced[i].eq(&expected_events[i]) {
                        assert(!produced@[i as int].eq_spec(&expected_events@[i as int]));
                        return Err(ValidationFailure::EventsMismatch { produced, expected: expected_events });
                    }
                    i = i + 1;
                }
                Ok(())
            },
            Err(e) => Err(ValidationFailure::UnexpectedError(e)),
        }
    }

    /// Succeeds if the command was refused with a business error whose
    /// message is `error_message`.
    pub fn then_expect_error(self, error_message: &str) -> (r: Result<(), ValidationFailure<A::Event>>)
        ensures
            match self.outcome() {
                Ok(produced) => r == Err::<(), ValidationFailure<A::Event>>(
                    ValidationFailure::UnexpectedEvents(produced),
                ),
                Err(AggregateError::UserError(m)) => if m@ == error_message@ {
                    r is Ok
                } else {
                    r matches Err(ValidationFailure::MessageMismatch { actual, expected }) && actual
                        == m && expected@ == error_message@
                },
                Err(e) => r == Err::<(), ValidationFailure<A::Event>>(
                    ValidationFailure::TechnicalError(e),
                ),
            },
    {
        match self.result {
            Ok(produced) => Err(ValidationFailure::UnexpectedEvents(produced)),
            Err(AggregateError::UserError(m)) => {
                let expected = error_message.to_owned();
                if m.eq(&expected) {
                    Ok(())
                } else {
                    Err(ValidationFailure::MessageMismatch { actual: m, expected })
                }
            },
            Err(e) => Err(ValidationFailure::TechnicalError(e)),
        }
    }
}

} // verus!
