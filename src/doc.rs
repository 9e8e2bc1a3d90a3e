use vstd::prelude::*;

use crate::aggregate::{Aggregate, AggregateError, DomainEvent};

verus! {

/// The one event of the smallest aggregate.
#[derive(Debug, Clone)]
pub enum MyEvents {
    SomethingWasDone,
}

impl PartialEq for MyEvents {
    fn eq(&self, other: &MyEvents) -> (r: bool) {
        true
    }
}

impl vstd::std_specs::cmp::PartialEqSpecImpl for MyEvents {
    open spec fn obeys_eq_spec() -> bool {
        true
    }

    open spec fn eq_spec(&self, other: &MyEvents) -> bool {
        true
    }
}

impl DomainEvent for MyEvents {
    open spec fn type_tag(&self) -> Seq<char> {
        "SomethingWasDone"@
    }

    open spec fn version_tag(&self) -> Seq<char> {
        "1.0"@
    }

    fn event_type(&self) -> &'static str {
        "SomethingWasDone"
    }

    fn event_version(&self) -> &'static str {
        "1.0"
    }

    fn clone_event(&self) -> (r: MyEvents) {
        MyEvents::SomethingWasDone
    }
}

/// The commands of the smallest aggregate: one that succeeds, one that is refused.
#[derive(Debug, Clone, PartialEq)]
pub enum MyCommands {
    DoSomething,
    BadCommand,
}

/// The smallest aggregate: it holds no state.
#[derive(Debug)]
pub struct MyAggregate;

impl Aggregate for MyAggregate {
    type Command = MyCommands;
    type Event = MyEvents;
    type Model = ();

    open spec fn model(&self) -> () {
        ()
    }

    open spec fn initial() -> () {
        ()
    }

    open spec fn applied(state: (), event: MyEvents) -> () {
        ()
    }

    open spec fn decided(state: (), command: MyCommands) -> Result<Seq<MyEvents>, Seq<char>> {
        match command {
            MyCommands::DoSomething => Ok(seq![MyEvents::SomethingWasDone]),
            MyCommands::BadCommand => Err("the expected error message"@),
        }
    }

    open spec fn kind_tag() -> Seq<char> {
        "MyAggregate"@
    }

    fn aggregate_type() -> (r: &'static str) {
        "MyAggregate"
    }

    fn default() -> (r: MyAggregate) {
        MyAggregate
    }

    fn apply(&mut self, event: MyEvents) {
    }

    fn handle(&self, command: MyCommands) -> (r: Result<Vec<MyEvents>, AggregateError>) {
        match command {
            MyCommands::DoSomething => {
                let r = vec![MyEvents::SomethingWasDone];
                assert(r@ == seq![MyEvents::SomethingWasDone]);
                Ok(r)
            },
            MyCommands::BadCommand => Err(AggregateError::new("the expected error message")),
        }
    }
}

/// A customer, known by a name and an email address.
pub struct Customer {
    pub customer_id: String,
    pub name: String,
    pub email: String,
}

/// The value of a customer's state.
pub struct CustomerModel {
    pub customer_id: Seq<char>,
    pub name: Seq<char>,
    pub email: Seq<char>,
}

/// The message of the business error for a second name.
pub open spec fn name_taken_message() -> Seq<char> {
    "a name has already been added for this customer"@
}

impl Aggregate for Customer {
    type Command = CustomerCommand;
    type Event = CustomerEvent;
    type Model = CustomerModel;

    open spec fn model(&self) -> CustomerModel {
        CustomerModel { customer_id: self.customer_id@, name: self.name@, email: self.email@ }
    }

    open spec fn initial() -> CustomerModel {
        CustomerModel { customer_id: Seq::empty(), name: Seq::empty(), email: Seq::empty() }
    }

    open spec fn applied(state: CustomerModel, event: CustomerEvent) -> CustomerModel {
        match event {
            CustomerEvent::NameAdded { changed_name } => CustomerModel {
                name: changed_name@,
                ..state
            },
            CustomerEvent::EmailUpdated { new_email } => CustomerModel {
                email: new_email@,
                ..state
            },
        }
    }

    open spec fn decided(state: CustomerModel, command: CustomerCommand) -> Result<
        Seq<CustomerEvent>,
        Seq<char>,
    > {
        match command {
            CustomerCommand::AddCustomerName { changed_name } => {
                if state.name.len() != 0 {
                    Err(name_taken_message())
                } else {
                    Ok(seq![CustomerEvent::NameAdded { changed_name }])
                }
            },
            CustomerCommand::UpdateEmail { .. } => Ok(Seq::empty()),
        }
    }

    open spec fn kind_tag() -> Seq<char> {
        "customer"@
    }

    fn aggregate_type() -> (r: &'static str) {
        "customer"
    }

    fn default() -> (r: Customer) {
        Customer { customer_id: String::new(), name: String::new(), email: String::new() }
    }

    fn apply(&mut self, event: CustomerEvent) {
        match event {
            CustomerEvent::NameAdded { changed_name } => {
                self.name = changed_name;
            },
            CustomerEvent::EmailUpdated { new_email } => {
                self.email = new_email;
            },
        }
    }

    fn handle(&self, command: CustomerCommand) -> (r: Result<Vec<CustomerEvent>, AggregateError>) {
        match command {
            CustomerCommand::AddCustomerName { changed_name } => {
                if !self.name.as_str().is_empty() {
                    return Err(
                        AggregateError::new("a name has already been added for this customer"),
                    );
                }
                let r = vec![CustomerEvent::NameAdded { changed_name }];
                assert(r@ == seq![CustomerEvent::NameAdded { changed_name }]);
                Ok(r)
            },
            CustomerCommand::UpdateEmail { .. } => {
                let r: Vec<CustomerEvent> = Vec::new();
                assert(r@ == Seq::<CustomerEvent>::empty());
                Ok(r)
            },
        }
    }
}

/// The events of a customer.
#[derive(Debug, Clone)]
pub enum CustomerEvent {
    NameAdded { changed_name: String },
    EmailUpdated { new_email: String },
}

impl PartialEq for CustomerEvent {
    fn eq(&self, other: &CustomerEvent) -> (r: bool) {
        match (self, other) {
            (
                CustomerEvent::NameAdded { changed_name: a },
                CustomerEvent::NameAdded { changed_name: b },
            ) => a.eq(b),
            (
                CustomerEvent::EmailUpdated { new_email: a },
                CustomerEvent::EmailUpdated { new_email: b },
            ) => a.eq(b),
            _ => false,
        }
    }
}

impl vstd::std_specs::cmp::PartialEqSpecImpl for CustomerEvent {
    open spec fn obeys_eq_spec() -> bool {
        true
    }

    open spec fn eq_spec(&self, other: &CustomerEvent) -> bool {
        match (self, other) {
            (
                CustomerEvent::NameAdded { changed_name: a },
                CustomerEvent::NameAdded { changed_name: b },
            ) => a@ == b@,
            (
                CustomerEvent::EmailUpdated { new_email: a },
                CustomerEvent::EmailUpdated { new_email: b },
            ) => a@ == b@,
            _ => false,
        }
    }
}

impl DomainEvent for CustomerEvent {
    open spec fn type_tag(&self) -> Seq<char> {
        match self {
            CustomerEvent::NameAdded { .. } => "NameAdded"@,
            CustomerEvent::EmailUpdated { .. } => "EmailUpdated"@,
        }
    }

    open spec fn version_tag(&self) -> Seq<char> {
        "1.0"@
    }

    fn event_type(&self) -> &'static str {
        match self {
            CustomerEvent::NameAdded { .. } => "NameAdded",
            CustomerEvent::EmailUpdated { .. } => "EmailUpdated",
        }
    }

    fn event_version(&self) -> &'static str {
        "1.0"
    }

    fn clone_event(&self) -> (r: CustomerEvent) {
        match self {
            CustomerEvent::NameAdded { changed_name } => CustomerEvent::NameAdded {
                changed_name: changed_name.clone(),
            },
            CustomerEvent::EmailUpdated { new_email } => CustomerEvent::EmailUpdated {
                new_email: new_email.clone(),
            },
        }
    }
}

/// The commands of a customer.
#[derive(Clone, Debug, PartialEq)]
pub enum CustomerCommand {
    AddCustomerName { changed_name: String },
    UpdateEmail { new_email: String },
}

/// An aggregate that records which named tests were performed.
#[derive(Debug)]
pub struct TestAggregate {
    pub id: String,
    pub description: String,
    pub tests: Vec<String>,
}

/// The value of a `TestAggregate`: its id, its description and the names
/// of the tests performed, in order.
pub struct TestAggregateModel {
    pub id: Seq<char>,
    pub description: Seq<char>,
    pub tests: Seq<Seq<char>>,
}

/// The message of the business error for a repeated test.
pub open spec fn test_repeated_message() -> Seq<char> {
    "test already performed"@
}

/// The names, as character sequences.
pub open spec fn names(v: Seq<String>) -> Seq<Seq<char>> {
    v.map_values(|s: String| s@)
}

impl Aggregate for TestAggregate {
    type Command = TestCommand;
    type Event = TestEvent;
    type Model = TestAggregateModel;

    open spec fn model(&self) -> TestAggregateModel {
        TestAggregateModel {
            id: self.id@,
            description: self.description@,
            tests: names(self.tests@),
        }
    }

    open spec fn initial() -> TestAggregateModel {
        TestAggregateModel { id: Seq::empty(), description: Seq::empty(), tests: Seq::empty() }
    }

    open spec fn applied(state: TestAggregateModel, event: TestEvent) -> TestAggregateModel {
        match event {
            TestEvent::Created(e) => TestAggregateModel { id: e.id@, ..state },
            TestEvent::Tested(e) => TestAggregateModel {
                tests: state.tests.push(e.test_name@),
                ..state
            },
            TestEvent::SomethingElse(e) => TestAggregateModel {
                description: e.description@,
                ..state
            },
        }
    }

    open spec fn decided(state: TestAggregateModel, command: TestCommand) -> Result<
        Seq<TestEvent>,
        Seq<char>,
    > {
        match command {
            TestCommand::CreateTest(c) => Ok(seq![TestEvent::Created(Created { id: c.id })]),
            TestCommand::ConfirmTest(c) => {
                if state.tests.contains(c.test_name@) {
                    Err(test_repeated_message())
                } else {
                    Ok(seq![TestEvent::Tested(Tested { test_name: c.test_name })])
                }
            },
            TestCommand::DoSomethingElse(c) => Ok(
                seq![TestEvent::SomethingElse(SomethingElse { description: c.description })],
            ),
        }
    }

    open spec fn kind_tag() -> Seq<char> {
        "TestAggregate"@
    }

    fn aggregate_type() -> (r: &'static str) {
        "TestAggregate"
    }

    fn default() -> (r: TestAggregate) {
        let r = TestAggregate { id: String::new(), description: String::new(), tests: Vec::new() };
        assert(names(r.tests@) == Seq::<Seq<char>>::empty());
        r
    }

    fn apply(&mut self, event: TestEvent) {
        match event {
            TestEvent::Created(e) => {
                self.id = e.id;
            },
            TestEvent::Tested(e) => {
                let ghost before = self.tests@;
                self.tests.push(e.test_name);
                assert(names(self.tests@) == names(before).push(self.tests@.last()@));
            },
            TestEvent::SomethingElse(e) => {
                self.description = e.description;
            },
        }
    }

    fn handle(&self, command: TestCommand) -> (r: Result<Vec<TestEvent>, AggregateError>) {
        match command {
            TestCommand::CreateTest(c) => {
                let r = vec![TestEvent::Created(Created { id: c.id })];
                assert(r@ == seq![TestEvent::Created(Created { id: c.id })]);
                Ok(r)
            },
            TestCommand::ConfirmTest(c) => {
                let mut i: usize = 0;
                while i < self.tests.len()
                    invariant
                        command == TestCommand::ConfirmTest(c),
                        i <= self.tests@.len(),
                        forall|j: int| 0 <= j < i ==> (#[trigger] self.tests@[j])@ != c.test_name@,
                    decreases self.tests@.len() - i,
                {
                    if self.tests[i].eq(&c.test_name) {
                        assert(names(self.tests@)[i as int] == c.test_name@);
                        assert(names(self.tests@).contains(c.test_name@));
                        return Err(AggregateError::new("test already performed"));
                    }
                    i = i + 1;
                }
                assert(!names(self.tests@).contains(c.test_name@)) by {
                    if names(self.tests@).contains(c.test_name@) {
                        let j = choose|j: int| 0 <= j < names(self.tests@).len() && names(self.tests@)[j] == c.test_name@;
                        assert(self.tests@[j]@ != c.test_name@);
                    }
                }
                let r = vec![TestEvent::Tested(Tested { test_name: c.test_name })];
                assert(r@ == seq![TestEvent::Tested(Tested { test_name: c.test_name })]);
                Ok(r)
            },
            TestCommand::DoSomethingElse(c) => {
                let r = vec![TestEvent::SomethingElse(SomethingElse { description: c.description })];
                assert(r@ == seq![TestEvent::SomethingElse(SomethingElse { description: c.description })]);
                Ok(r)
            },
        }
    }
}

/// The events of a `TestAggregate`.
#[derive(Debug, Clone)]
pub enum TestEvent {
    Created(Created),
    Tested(Tested),
    SomethingElse(SomethingElse),
}

/// The aggregate was created under an id.
#[derive(Debug, Clone)]
pub struct Created {
    pub id: String,
}

/// A test was performed.
#[derive(Debug, Clone)]
pub struct Tested {
    pub test_name: String,
}

/// The description changed.
#[derive(Debug, Clone)]
pub struct SomethingElse {
    pub description: String,
}

impl PartialEq for TestEvent {
    fn eq(&self, other: &TestEvent) -> (r: bool) {
        match (self, other) {
            (TestEvent::Created(a), TestEvent::Created(b)) => a.id.eq(&b.id),
            (TestEvent::Tested(a), TestEvent::Tested(b)) => a.test_name.eq(&b.test_name),
            (TestEvent::SomethingElse(a), TestEvent::SomethingElse(b)) => a.description.eq(
                &b.description,
            ),
            _ => false,
        }
    }
}

impl vstd::std_specs::cmp::PartialEqSpecImpl for TestEvent {
    open spec fn obeys_eq_spec() -> bool {
        true
    }

    open spec fn eq_spec(&self, other: &TestEvent) -> bool {
        match (self, other) {
            (TestEvent::Created(a), TestEvent::Created(b)) => a.id@ == b.id@,
            (TestEvent::Tested(a), TestEvent::Tested(b)) => a.test_name@ == b.test_name@,
            (TestEvent::SomethingElse(a), TestEvent::SomethingElse(b)) => a.description@
                == b.description@,
            _ => false,
        }
    }
}

impl DomainEvent for TestEvent {
    open spec fn type_tag(&self) -> Seq<char> {
        match self {
            TestEvent::Created(_) => "Created"@,
            TestEvent::Tested(_) => "Tested"@,
            TestEvent::SomethingElse(_) => "SomethingElse"@,
        }
    }

    open spec fn version_tag(&self) -> Seq<char> {
        "1.0"@
    }

    fn event_type(&self) -> &'static str {
        match self {
            TestEvent::Created(_) => "Created",
            TestEvent::Tested(_) => "Tested",
            TestEvent::SomethingElse(_) => "SomethingElse",
        }
    }

    fn event_version(&self) -> &'static str {
        "1.0"
    }

    fn clone_event(&self) -> (r: TestEvent) {
        match self {
            TestEvent::Created(e) => TestEvent::Created(Created { id: e.id.clone() }),
            TestEvent::Tested(e) => TestEvent::Tested(Tested { test_name: e.test_name.clone() }),
            TestEvent::SomethingElse(e) => TestEvent::SomethingElse(
                SomethingElse { description: e.description.clone() },
            ),
        }
    }
}

/// The commands of a `TestAggregate`.
pub enum TestCommand {
    CreateTest(CreateTest),
    ConfirmTest(ConfirmTest),
    DoSomethingElse(DoSomethingElse),
}

/// Create the aggregate under an id.
pub struct CreateTest {
    pub id: String,
}

/// Record that a test was performed; refused if it already was.
pub struct ConfirmTest {
    pub test_name: String,
}

/// Change the description.
pub struct DoSomethingElse {
    pub description: String,
}

} // verus!
