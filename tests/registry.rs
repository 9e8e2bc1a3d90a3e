use std::cell::Cell;
use std::rc::Rc;

use cqrs_actors::{ActorHandle, ActorRegistry, RegistryError};

#[derive(Clone)]
struct TestActor {
    id: String,
    i: Rc<Cell<u8>>,
    running: Rc<Cell<bool>>,
}

impl TestActor {
    fn start(id: &str) -> TestActor {
        TestActor {
            id: id.to_owned(),
            i: Rc::new(Cell::new(0)),
            running: Rc::new(Cell::new(true)),
        }
    }

    fn hi(&self) -> Option<String> {
        if self.running.get() {
            Some(format!("Hi from {}", self.id.as_str()))
        } else {
            None
        }
    }

    fn count(&self) -> Option<u8> {
        if self.running.get() {
            self.i.set(self.i.get() + 1);
            Some(self.i.get())
        } else {
            None
        }
    }

    fn stop(&self) {
        self.running.set(false);
    }
}

impl ActorHandle for TestActor {
    fn is_alive(&self) -> bool {
        self.running.get()
    }
}

#[test]
fn test_get_if_not_exits() {
    let mut reg = ActorRegistry::default();
    let id = String::from("act_123");
    let res = reg.get_with_factory(id.as_str(), "TestActor", |id| TestActor::start(id));
    assert!(res.is_ok(), "get failed: {:?}", res.err());
    let addr = res.unwrap();
    let got = addr.hi().unwrap();
    let want = format!("Hi from {}", id);
    assert_eq!(want, got, "'{}' != '{}'", want, got);
}

#[test]
fn test_get_if_exists() {
    let mut reg = ActorRegistry::default();
    let id = String::from("act_123");

    let res = reg.get_with_factory(id.as_str(), "TestActor", |id| TestActor::start(id));
    assert!(res.is_ok(), "first get failed: {:?}", res.err());
    let addr = res.unwrap();
    let got = addr.count().unwrap();
    let want = 1;
    assert_eq!(want, got, "'{}' != '{}'", want, got);

    let res = reg.get_with_factory(id.as_str(), "TestActor", |_| -> TestActor {
        panic!("this should not be called")
    });
    assert!(res.is_ok(), "second get failed: {:?}", res.err());
    let addr = res.unwrap();
    let got = addr.count().unwrap();
    let want = 2;
    assert_eq!(want, got, "'{}' != '{}'", want, got);
}

#[test]
fn test_get_if_exists_but_stopped() {
    let mut reg = ActorRegistry::default();
    let id = String::from("act_123");

    let res = reg.get_with_factory(id.as_str(), "TestActor", |id| TestActor::start(id));
    assert!(res.is_ok(), "first get failed: {:?}", res.err());
    let addr = res.unwrap();
    let got = addr.count().unwrap();
    let want = 1;
    assert_eq!(want, got, "'{}' != '{}'", want, got);

    addr.stop();

    assert!(addr.count().is_none(), "send did not fail, but should have");

    let res = reg.get_with_factory(id.as_str(), "TestActor", |id| TestActor::start(id));
    assert!(res.is_ok(), "second get failed: {:?}", res.err());
    let addr = res.unwrap();
    let got = addr.count().unwrap();
    let want = 1;
    assert_eq!(want, got, "'{}' != '{}'", want, got);
}

#[test]
fn live_handle_is_made_once() {
    let mut reg = ActorRegistry::new();
    let made = Cell::new(0u32);
    let first = reg
        .get_with_factory("x", "customer", |id| {
            made.set(made.get() + 1);
            TestActor::start(id)
        })
        .unwrap();
    let second = reg
        .get_with_factory("x", "customer", |id| {
            made.set(made.get() + 1);
            TestActor::start(id)
        })
        .unwrap();
    assert_eq!(made.get(), 1);
    assert!(Rc::ptr_eq(&first.i, &second.i));
}

#[test]
fn dead_handle_is_replaced() {
    let mut reg = ActorRegistry::new();
    let made = Cell::new(0u32);
    let first = reg
        .get_with_factory("x", "customer", |id| {
            made.set(made.get() + 1);
            TestActor::start(id)
        })
        .unwrap();
    first.stop();
    let second = reg
        .get_with_factory("x", "customer", |id| {
            made.set(made.get() + 1);
            TestActor::start(id)
        })
        .unwrap();
    assert_eq!(made.get(), 2);
    assert!(!Rc::ptr_eq(&first.i, &second.i));
    assert!(second.is_alive());
    let third = reg
        .get_with_factory("x", "customer", |_| -> TestActor { panic!("not again") })
        .unwrap();
    assert!(Rc::ptr_eq(&second.i, &third.i));
}

#[test]
fn entry_of_another_kind_is_refused() {
    let mut reg = ActorRegistry::new();
    reg.get_with_factory("x", "customer", |id| TestActor::start(id))
        .unwrap();
    let res = reg.get_with_factory("x", "order", |_| -> TestActor { panic!("not called") });
    match res {
        Err(e) => assert_eq!(e, RegistryError::InvalidRegistryEntry("x".to_string())),
        Ok(_) => panic!("a mistyped entry was returned"),
    }
    let other = reg.get_with_factory("y", "order", |id| TestActor::start(id));
    assert!(other.is_ok());
}

#[test]
fn resolve_follows_the_given_liveness() {
    let mut reg = ActorRegistry::new();
    let first = reg.resolve("x", "k", true, |id| TestActor::start(id)).unwrap();
    let again = reg
        .resolve("x", "k", true, |_| -> TestActor { panic!("not called") })
        .unwrap();
    assert!(Rc::ptr_eq(&first.i, &again.i));
    let fresh = reg.resolve("x", "k", false, |id| TestActor::start(id)).unwrap();
    assert!(!Rc::ptr_eq(&first.i, &fresh.i));
}
