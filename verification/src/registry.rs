//! The executor registry: a finite map from tool names to executors in which
//! the last registration of a name wins.

use vstd::prelude::*;
use vstd::string::*;

verus! {

/// One registration: an executor under the name it was registered with.
struct Registration<E> {
    name: String,
    executor: E,
}

/// A map from tool names to executors. No name is kept twice.
pub struct Registry<E> {
    entries: Vec<Registration<E>>,
}

impl<E> View for Registry<E> {
    type V = Map<Seq<char>, E>;

    /// The registry as a map: every registered name, with its executor.
    closed spec fn view(&self) -> Map<Seq<char>, E> {
        Map::new(
            |name: Seq<char>| self.holds(name),
            |name: Seq<char>| self.entries[self.position(name)].executor,
        )
    }
}

impl<E> Registry<E> {
    /// No name is registered twice.
    #[verifier::type_invariant]
    spec fn names_are_distinct(self) -> bool {
        forall|i: int, j: int|
            0 <= i < j < self.entries.len() ==> self.entries[i].name@ != self.entries[j].name@
    }

    /// Whether `name` is registered.
    spec fn holds(self, name: Seq<char>) -> bool {
        exists|i: int| 0 <= i < self.entries.len() && #[trigger] self.entries[i].name@ == name
    }

    /// Where `name` is registered, if it is.
    spec fn position(self, name: Seq<char>) -> int {
        choose|i: int| 0 <= i < self.entries.len() && #[trigger] self.entries[i].name@ == name
    }

    /// With distinct names, a name is registered at one place only.
    proof fn lemma_position(self, at: int)
        requires
            self.names_are_distinct(),
            0 <= at < self.entries.len(),
        ensures
            self.holds(self.entries[at].name@),
            self.position(self.entries[at].name@) == at,
    {
        let name = self.entries[at].name@;
        let found = self.position(name);
        assert(0 <= found < self.entries.len() && self.entries[found].name@ == name);
        if found < at {
            assert(self.entries[found].name@ != self.entries[at].name@);
        } else if at < found {
            assert(self.entries[at].name@ != self.entries[found].name@);
        }
    }

    /// Makes an empty registry.
    pub fn new() -> (registry: Self)
        ensures
            registry@ == Map::<Seq<char>, E>::empty(),
    {
        let registry = Registry { entries: Vec::new() };
        assert(registry@ =~= Map::<Seq<char>, E>::empty());
        registry
    }

    /// The place of `name` among the registrations, if it is registered.
    fn find(&self, name: &String) -> (found: Option<usize>)
        ensures
            match found {
                Some(at) => at < self.entries.len() && self.entries[at as int].name@ == name@,
                None => !self.holds(name@),
            },
    {
        let mut at: usize = 0;
        while at < self.entries.len()
            invariant
                at <= self.entries.len(),
                forall|k: int| 0 <= k < at ==> self.entries[k].name@ != name@,
            decreases self.entries.len() - at,
        {
            if self.entries[at].name == *name {
                return Some(at);
            }
            at += 1;
        }
        None
    }

    /// Registers `executor` under `name`. An executor registered under that
    /// name before is replaced; `replaced` says whether there was one.
    pub fn insert(&mut self, name: String, executor: E) -> (replaced: bool)
        ensures
            final(self)@ == old(self)@.insert(name@, executor),
            replaced == old(self)@.contains_key(name@),
    {
        proof {
            use_type_invariant(&*self);
        }
        let ghost before = *self;
        let found = self.find(&name);
        let mut entries: Vec<Registration<E>> = Vec::new();
        std::mem::swap(&mut self.entries, &mut entries);
        match found {
            Some(at) => {
                entries.set(at, Registration { name, executor });
                self.entries = entries;
                proof {
                    let after = *self;
                    assert forall|i: int| 0 <= i < after.entries.len() implies #[trigger] after.entries[i].name@
                        == before.entries[i].name@ by {}
                    assert forall|n: Seq<char>| after.holds(n) == before.holds(n) by {
                        if before.holds(n) {
                            let i = before.position(n);
                            assert(after.entries[i].name@ == n);
                        }
                        if after.holds(n) {
                            let i = after.position(n);
                            assert(before.entries[i].name@ == n);
                        }
                    }
                    assert forall|n: Seq<char>| before.holds(n) implies after.position(n)
                        == before.position(n) by {
                        let i = before.position(n);
                        before.lemma_position(i);
                        after.lemma_position(i);
                    }
                    before.lemma_position(at as int);
                    after.lemma_position(at as int);
                    assert(after@ =~= before@.insert(name@, executor));
                }
                true
            },
            None => {
                entries.push(Registration { name, executor });
                self.entries = entries;
                proof {
                    let after = *self;
                    let last = before.entries.len() as int;
                    assert forall|i: int| 0 <= i < last implies #[trigger] after.entries[i]
                        == before.entries[i] by {}
                    assert(after.entries[last].name@ == name@);
                    assert forall|n: Seq<char>| after.holds(n) == (before.holds(n) || n == name@) by {
                        if before.holds(n) {
                            let i = before.position(n);
                            assert(after.entries[i].name@ == n);
                        }
                        if after.holds(n) && n != name@ {
                            let i = after.position(n);
                            assert(before.entries[i].name@ == n);
                        }
                    }
                    assert forall|n: Seq<char>| before.holds(n) implies after.position(n)
                        == before.position(n) by {
                        let i = before.position(n);
                        before.lemma_position(i);
                        after.lemma_position(i);
                    }
                    after.lemma_position(last);
                    assert(after@ =~= before@.insert(name@, executor));
                }
                false
            },
        }
    }

    /// The executor registered under `name`, if there is one.
    pub fn get(&self, name: &str) -> (executor: Option<&E>)
        ensures
            match executor {
                Some(found) => self@.contains_key(name@) && self@[name@] == *found,
                None => !self@.contains_key(name@),
            },
    {
        proof {
            use_type_invariant(self);
        }
        let key = name.to_owned();
        match self.find(&key) {
            Some(at) => {
                proof {
                    self.lemma_position(at as int);
                }
                Some(&self.entries[at].executor)
            },
            None => None,
        }
    }

    /// Whether an executor is registered under `name`.
    pub fn contains(&self, name: &str) -> (registered: bool)
        ensures
            registered == self@.contains_key(name@),
    {
        self.get(name).is_some()
    }

    /// The registered names, each once.
    pub fn names(&self) -> (names: Vec<String>)
        ensures
            forall|name: Seq<char>|
                self@.contains_key(name) <==> exists|i: int|
                    0 <= i < names.len() && #[trigger] names[i]@ == name,
            forall|i: int, j: int| 0 <= i < j < names.len() ==> names[i]@ != names[j]@,
    {
        proof {
            use_type_invariant(self);
        }
        let mut names: Vec<String> = Vec::new();
        let mut at: usize = 0;
        while at < self.entries.len()
            invariant
                at <= self.entries.len(),
                names.len() == at,
                forall|k: int| 0 <= k < at ==> #[trigger] names[k]@ == self.entries[k].name@,
            decreases self.entries.len() - at,
        {
            names.push(self.entries[at].name.clone());
            at += 1;
        }
        proof {
            assert forall|name: Seq<char>| self@.contains_key(name) <==> exists|i: int|
                0 <= i < names.len() && #[trigger] names[i]@ == name by {
                if self@.contains_key(name) {
                    let i = self.position(name);
                    assert(names[i]@ == name);
                }
                if exists|i: int| 0 <= i < names.len() && #[trigger] names[i]@ == name {
                    let i = choose|i: int| 0 <= i < names.len() && #[trigger] names[i]@ == name;
                    assert(self.entries[i].name@ == name);
                }
            }
        }
        names
    }
}

} // verus!
