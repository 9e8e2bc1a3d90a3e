use vstd::prelude::*;

verus! {

/// Why a command was not carried out.
#[derive(Debug, Clone, PartialEq)]
pub enum AggregateError {
    /// The command is invalid for the current state; the message is meant for the caller.
    UserError(String),
    /// Another commit advanced the aggregate past the version that was loaded.
    AggregateConflict,
    /// A failure of the store or of other infrastructure.
    TechnicalError(String),
}

impl AggregateError {
    /// A business error with the given message.
    pub fn new(message: &str) -> (r: AggregateError)
        ensures
            r matches AggregateError::UserError(m) && m@ == message@,
    {
        AggregateError::UserError(message.to_owned())
    }

    /// Whether this is a business error rather than a technical one.
    pub fn is_user_error(&self) -> (r: bool)
        ensures
            r == (self is UserError),
    {
        match self {
            AggregateError::UserError(_) => true,
            _ => false,
        }
    }
}

/// An immutable fact produced by a successful command.
pub trait DomainEvent: Sized + PartialEq {
    /// The name of this event's kind.
    spec fn type_tag(&self) -> Seq<char>;

    /// The version of this event's payload schema.
    spec fn version_tag(&self) -> Seq<char>;

    /// The name of the kind of event.
    fn event_type(&self) -> (r: &'static str)
        ensures
            r@ == self.type_tag(),
    ;

    /// The version of the payload's schema.
    fn event_version(&self) -> (r: &'static str)
        ensures
            r@ == self.version_tag(),
    ;

    /// A copy of this event.
    fn clone_event(&self) -> (r: Self)
        ensures
            r == *self,
    ;
}

/// The state of one business entity, defined by the events folded into it.
///
/// `Model` is the mathematical value of a state; `initial`, `applied` and
/// `decided` describe the aggregate over it, and the executable methods are
/// held to them.
pub trait Aggregate: Sized {
    /// An intent to change the state.
    type Command;

    /// A fact recorded by a successful command.
    type Event: DomainEvent;

    /// The mathematical value of a state.
    type Model;

    /// The value of this state.
    spec fn model(&self) -> Self::Model;

    /// The value of the state before any event.
    spec fn initial() -> Self::Model;

    /// The value after `event` is folded into `state`.
    spec fn applied(state: Self::Model, event: Self::Event) -> Self::Model;

    /// What `command` yields on `state`: the events it records, or the
    /// message of the business error that refuses it.
    spec fn decided(state: Self::Model, command: Self::Command) -> Result<Seq<Self::Event>, Seq<char>>;

    /// The name of this kind of aggregate.
    spec fn kind_tag() -> Seq<char>;

    /// A tag that names this kind of aggregate; the same on every call.
    fn aggregate_type() -> (r: &'static str)
        ensures
            r@ == Self::kind_tag(),
    ;

    /// The empty initial state.
    fn default() -> (r: Self)
        ensures
            r.model() == Self::initial(),
    ;

    /// Folds one committed event into the state.
    fn apply(&mut self, event: Self::Event)
        ensures
            final(self).model() == Self::applied(old(self).model(), event),
    ;

    /// Validates `command` against the state, without changing it.
    fn handle(&self, command: Self::Command) -> (r: Result<Vec<Self::Event>, AggregateError>)
        ensures
            handled_as(r, Self::decided(self.model(), command)),
    ;
}

/// `r` is the executable form of the decision `d`: the same events, or a
/// business error with the same message.
pub open spec fn handled_as<E>(r: Result<Vec<E>, AggregateError>, d: Result<Seq<E>, Seq<char>>) -> bool {
    match r {
        Ok(v) => d == Ok::<Seq<E>, Seq<char>>(v@),
        Err(AggregateError::UserError(m)) => d == Err::<Seq<E>, Seq<char>>(m@),
        Err(_) => false,
    }
}

/// The state reached by folding `events`, in order, into `state`.
pub open spec fn fold_events<A: Aggregate>(state: A::Model, events: Seq<A::Event>) -> A::Model
    decreases events.len(),
{
    if events.len() == 0 {
        state
    } else {
        A::applied(fold_events::<A>(state, events.drop_last()), events.last())
    }
}

/// Rebuilds an aggregate from the empty state and its history.
pub fn replay<A: Aggregate>(history: &Vec<A::Event>) -> (r: A)
    ensures
        r.model() == fold_events::<A>(A::initial(), history@),
{
    let mut state = A::default();
    let mut i: usize = 0;
    while i < history.len()
        invariant
            i <= history@.len(),
            state.model() == fold_events::<A>(A::initial(), history@.subrange(0, i as int)),
        decreases history@.len() - i,
    {
        let event = history[i].clone_event();
        proof {
            assert(history@.subrange(0, i + 1).drop_last() == history@.subrange(0, i as int));
        }
        state.apply(event);
        i = i + 1;
    }
    proof {
        assert(history@.subrange(0, history@.len() as int) == history@);
    }
    state
}

/// Rebuilding is deterministic: the state that a history folds into depends
/// on the history alone, so two replays of one history reach one state.
pub proof fn lemma_replay_deterministic<A: Aggregate>(h1: Seq<A::Event>, h2: Seq<A::Event>)
    requires
        h1 == h2,
    ensures
        fold_events::<A>(A::initial(), h1) == fold_events::<A>(A::initial(), h2),
{
}

} // verus!
