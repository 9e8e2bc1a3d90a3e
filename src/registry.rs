use vstd::prelude::*;

verus! {

/// Possible registry errors.
#[derive(Debug, Clone, PartialEq)]
pub enum RegistryError {
    GenericError(String),
    /// The lock that guards the registry could not be taken.
    LockError,
    /// The entry for this id was made for another kind of aggregate.
    InvalidRegistryEntry(String),
}

/// A handle to a running instance, as the registry keeps it.
pub trait ActorHandle: Clone {
    /// Whether the instance behind the handle is still running.
    fn is_alive(&self) -> bool;
}

struct RegistryEntry<H> {
    id: String,
    aggregate_type: String,
    handle: H,
}

/// Keeps at most one handle per aggregate id, with the kind of aggregate it
/// was made for. A handle is made on first use and made again once the
/// instance behind it has stopped.
pub struct ActorRegistry<H> {
    entries: Vec<RegistryEntry<H>>,
}

/// What the registry holds for an id: the kind of aggregate and the handle.
pub type RegistryRecord<H> = (Seq<char>, H);

impl<H: ActorHandle> ActorRegistry<H> {
    /// Ids are unique.
    pub closed spec fn wf(&self) -> bool {
        forall|i: int, j: int|
            0 <= i < j < self.entries.len() ==> (#[trigger] self.entries[i]).id@
                != (#[trigger] self.entries[j]).id@
    }

    /// The record kept for `id`, if any.
    pub closed spec fn entry(&self, id: Seq<char>) -> Option<RegistryRecord<H>> {
        if exists|i: int| 0 <= i < self.entries.len() && self.entries[i].id@ == id {
            let i = choose|i: int| 0 <= i < self.entries.len() && self.entries[i].id@ == id;
            Some((self.entries[i].aggregate_type@, self.entries[i].handle))
        } else {
            None
        }
    }

    proof fn lemma_entry(&self, i: int)
        requires
            self.wf(),
            0 <= i < self.entries.len(),
        ensures
            self.entry(self.entries[i].id@) == Some(
                (self.entries[i].aggregate_type@, self.entries[i].handle),
            ),
    {
    }

    /// An empty registry.
    pub fn new() -> (r: ActorRegistry<H>)
        ensures
            r.wf(),
            forall|k: Seq<char>| #[trigger] r.entry(k) == None::<RegistryRecord<H>>,
    {
        ActorRegistry { entries: Vec::new() }
    }

    fn position(&self, id: &str) -> (r: Option<usize>)
        requires
            self.wf(),
        ensures
            match r {
                Some(i) => i < self.entries.len() && self.entries[i as int].id@ == id@,
                None => self.entry(id@) is None,
            },
    {
        let key = id.to_owned();
        let mut i: usize = 0;
        while i < self.entries.len()
            invariant
                key@ == id@,
                i <= self.entries.len(),
                forall|j: int| 0 <= j < i ==> (#[trigger] self.entries[j]).id@ != id@,
            decreases self.entries.len() - i,
        {
            if self.entries[i].id.eq(&key) {
                return Some(i);
            }
            i = i + 1;
        }
        None
    }

    /// The handle for `id`, made by `factory` where the registry holds none
    /// or holds one whose instance has stopped.
    pub fn get_with_factory<F: FnOnce(&str) -> H>(
        &mut self,
        id: &str,
        aggregate_type: &str,
        factory: F,
    ) -> (r: Result<H, RegistryError>)
        requires
            old(self).wf(),
            factory.requires((id,)),
        ensures
            final(self).wf(),
            resolved(*old(self), *final(self), id, aggregate_type@, true, factory, r)
                || resolved(*old(self), *final(self), id, aggregate_type@, false, factory, r),
    {
        let alive = match self.position(id) {
            Some(i) => self.entries[i].handle.is_alive(),
            None => false,
        };
        self.resolve(id, aggregate_type, alive, factory)
    }

    /// The lookup of `id`, given whether the handle that the registry holds
    /// for it is alive (`alive` is not read where it holds none).
    pub fn resolve<F: FnOnce(&str) -> H>(
        &mut self,
        id: &str,
        aggregate_type: &str,
        alive: bool,
        factory: F,
    ) -> (r: Result<H, RegistryError>)
        requires
            old(self).wf(),
            factory.requires((id,)),
        ensures
            final(self).wf(),
            resolved(*old(self), *final(self), id, aggregate_type@, alive, factory, r),
    {
        let tag = aggregate_type.to_owned();
        match self.position(id) {
            Some(i) => {
                proof {
                    self.lemma_entry(i as int);
                }
                if !self.entries[i].aggregate_type.eq(&tag) {
                    return Err(RegistryError::InvalidRegistryEntry(id.to_owned()));
                }
                if alive {
                    return Ok(self.entries[i].handle.clone());
                }
                let handle = factory(id);
                let r = handle.clone();
                let ghost before = *self;
                self.entries.set(i, RegistryEntry { id: id.to_owned(), aggregate_type: tag, handle });
                proof {
                    assert forall|k: Seq<char>| k != id@ implies #[trigger] self.entry(k) == before.entry(k) by {
                        if before.entry(k) is Some {
                            let j = choose|j: int| 0 <= j < before.entries.len() && before.entries[j].id@ == k;
                            before.lemma_entry(j);
                            self.lemma_entry(j);
                        } else if self.entry(k) is Some {
                            let j = choose|j: int| 0 <= j < self.entries.len() && self.entries[j].id@ == k;
                            self.lemma_entry(j);
                        }
                    }
                    self.lemma_entry(i as int);
                }
                Ok(r)
            },
            None => {
                let handle = factory(id);
                let r = handle.clone();
                let ghost before = *self;
                self.entries.push(RegistryEntry { id: id.to_owned(), aggregate_type: tag, handle });
                proof {
                    assert forall|k: Seq<char>| k != id@ implies #[trigger] self.entry(k) == before.entry(k) by {
                        if before.entry(k) is Some {
                            let j = choose|j: int| 0 <= j < before.entries.len() && before.entries[j].id@ == k;
                            before.lemma_entry(j);
                            self.lemma_entry(j);
                        } else if self.entry(k) is Some {
                            let j = choose|j: int| 0 <= j < self.entries.len() && self.entries[j].id@ == k;
                            self.lemma_entry(j);
                        }
                    }
                    self.lemma_entry(before.entries.len() as int);
                }
                Ok(r)
            },
        }
    }
}

impl<H: ActorHandle> Default for ActorRegistry<H> {
    fn default() -> (r: ActorRegistry<H>)
        ensures
            r.wf(),
            forall|k: Seq<char>| #[trigger] r.entry(k) == None::<RegistryRecord<H>>,
    {
        ActorRegistry::new()
    }
}

/// One lookup of `id` for aggregates of kind `tag`, from `before` to `after`,
/// when the handle held for `id` is `alive` or not:
/// - an entry of another kind is refused and nothing changes;
/// - a live entry of that kind yields a clone of its handle and nothing changes;
/// - otherwise `factory` makes a handle, which replaces any entry for `id`,
///   and a clone of it is returned.
pub open spec fn resolved<H: ActorHandle, F: FnOnce(&str) -> H>(
    before: ActorRegistry<H>,
    after: ActorRegistry<H>,
    id: &str,
    tag: Seq<char>,
    alive: bool,
    factory: F,
    r: Result<H, RegistryError>,
) -> bool {
    let e = before.entry(id@);
    if e is Some && e.unwrap().0 != tag {
        &&& r matches Err(RegistryError::InvalidRegistryEntry(s)) && s@ == id@
        &&& after == before
    } else if e is Some && alive {
        &&& r matches Ok(h) && cloned::<H>(e.unwrap().1, h)
        &&& after == before
    } else {
        exists|made: H|
            {
                &&& #[trigger] factory.ensures((id,), made)
                &&& r matches Ok(h) && cloned::<H>(made, h)
                &&& after.entry(id@) == Some((tag, made))
                &&& forall|k: Seq<char>| k != id@ ==> #[trigger] after.entry(k) == before.entry(k)
            }
    }
}

/// A handle that is still alive is handed out again: after a lookup of `id`
/// for kind `tag`, a second lookup that finds the handle alive leaves the
/// registry as it was and makes nothing, and both results are clones of the
/// one handle that the registry holds.
pub proof fn lemma_live_handle_reused<H: ActorHandle, F: FnOnce(&str) -> H, G: FnOnce(&str) -> H>(
    r0: ActorRegistry<H>,
    r1: ActorRegistry<H>,
    r2: ActorRegistry<H>,
    id: &str,
    tag: Seq<char>,
    alive_first: bool,
    f: F,
    g: G,
    out1: Result<H, RegistryError>,
    out2: Result<H, RegistryError>,
)
    requires
        resolved(r0, r1, id, tag, alive_first, f, out1),
        out1 is Ok,
        resolved(r1, r2, id, tag, true, g, out2),
    ensures
        r2 == r1,
        r1.entry(id@) matches Some((t, held)) && t == tag && (out1 matches Ok(h1) && cloned::<H>(
            held,
            h1,
        )) && (out2 matches Ok(h2) && cloned::<H>(held, h2)),
{
}

/// A handle whose instance has stopped is replaced: a lookup that finds the
/// handle of `id` not alive has `factory` make a new one, stores it in place
/// of the old one, and returns a clone of it.
pub proof fn lemma_dead_handle_replaced<H: ActorHandle, G: FnOnce(&str) -> H>(
    r1: ActorRegistry<H>,
    r2: ActorRegistry<H>,
    id: &str,
    tag: Seq<char>,
    g: G,
    out2: Result<H, RegistryError>,
)
    requires
        r1.entry(id@) matches Some((t, _)) && t == tag,
        resolved(r1, r2, id, tag, false, g, out2),
    ensures
        exists|made: H|
            {
                &&& #[trigger] g.ensures((id,), made)
                &&& r2.entry(id@) == Some((tag, made))
                &&& out2 matches Ok(h) && cloned::<H>(made, h)
            },
{
}

} // verus!
