//! A registry of values under string identifiers.
//!
//! A registry remembers the order in which identifiers were first registered,
//! so that a pass over it visits the entries in a fixed order. Registering a
//! value under an identifier that is already present replaces the value and
//! keeps the identifier's place.

use vstd::prelude::*;

verus! {

/// Values of type `V`, each under an identifier of its own.
#[derive(Debug)]
pub struct Registry<V> {
    ids: Vec<String>,
    values: Vec<V>,
}

impl<V> Registry<V> {
    /// The identifiers, in the order of their first registration.
    pub closed spec fn ids(&self) -> Seq<Seq<char>> {
        self.ids@.map_values(|id: String| id@)
    }

    /// The values, each at the place of its identifier in `ids`.
    pub closed spec fn values(&self) -> Seq<V> {
        self.values@
    }

    /// Every identifier has its value, and no identifier occurs twice.
    pub open spec fn wf(&self) -> bool {
        &&& self.ids().len() == self.values().len()
        &&& self.ids().no_duplicates()
    }

    /// `id` is registered.
    pub open spec fn contains(&self, id: Seq<char>) -> bool {
        self.ids().contains(id)
    }

    /// The place of `id` among the identifiers.
    pub open spec fn place(&self, id: Seq<char>) -> int
        recommends
            self.contains(id),
    {
        choose|i: int| 0 <= i < self.ids().len() && self.ids()[i] == id
    }

    /// The identifiers once `id` has been registered: it keeps its place if
    /// it has one, and goes to the end otherwise.
    pub open spec fn ids_with(&self, id: Seq<char>) -> Seq<Seq<char>> {
        if self.contains(id) {
            self.ids()
        } else {
            self.ids().push(id)
        }
    }

    /// The values once `value` has been registered under `id`: it takes the
    /// place of the value that `id` had, or goes to the end.
    pub open spec fn values_with(&self, id: Seq<char>, value: V) -> Seq<V> {
        if self.contains(id) {
            self.values().update(self.place(id), value)
        } else {
            self.values().push(value)
        }
    }

    /// The registry as a map from identifier to value.
    pub open spec fn view(&self) -> Map<Seq<char>, V> {
        Map::new(|id: Seq<char>| self.contains(id), |id: Seq<char>| self.values()[self.place(id)])
    }

    /// An empty registry.
    pub fn new() -> (r: Self)
        ensures
            r.wf(),
            r.ids() == Seq::<Seq<char>>::empty(),
            r.values() == Seq::<V>::empty(),
            r@ == Map::<Seq<char>, V>::empty(),
    {
        let r = Registry { ids: Vec::new(), values: Vec::new() };
        r
    }

    /// The number of registered identifiers.
    pub fn len(&self) -> (n: usize)
        requires
            self.wf(),
        ensures
            n == self.ids().len(),
    {
        self.ids.len()
    }

    /// The place of `id`, if it is registered.
    pub fn position(&self, id: &str) -> (r: Option<usize>)
        requires
            self.wf(),
        ensures
            match r {
                Some(i) => i < self.ids().len() && self.ids()[i as int] == id@ && self.place(id@)
                    == i,
                None => !self.contains(id@),
            },
    {
        let key = id.to_owned();
        let mut i: usize = 0;
        while i < self.ids.len()
            invariant
                self.wf(),
                i <= self.ids.len(),
                key@ == id@,
                forall|k: int| 0 <= k < i ==> self.ids()[k] != id@,
            decreases self.ids.len() - i,
        {
            if self.ids[i] == key {
                return Some(i);
            }
            i += 1;
        }
        None
    }

    /// The value registered under `id`, if there is one.
    pub fn get(&self, id: &str) -> (r: Option<&V>)
        requires
            self.wf(),
        ensures
            match r {
                Some(value) => self.contains(id@) && *value == self@[id@],
                None => !self.contains(id@),
            },
    {
        match self.position(id) {
            Some(i) => Some(&self.values[i]),
            None => None,
        }
    }

    /// The identifier at place `i`.
    pub fn id_at(&self, i: usize) -> (id: &String)
        requires
            self.wf(),
            i < self.ids().len(),
        ensures
            id@ == self.ids()[i as int],
    {
        &self.ids[i]
    }

    /// The value at place `i`.
    pub fn value_at(&self, i: usize) -> (value: &V)
        requires
            self.wf(),
            i < self.ids().len(),
        ensures
            *value == self.values()[i as int],
    {
        &self.values[i]
    }

    /// Registers `value` under `id`. A value already registered under `id` is
    /// replaced and the identifier keeps its place; a new identifier goes to
    /// the end.
    pub fn insert(&mut self, id: String, value: V)
        requires
            old(self).wf(),
        ensures
            final(self).wf(),
            final(self)@ == old(self)@.insert(id@, value),
            final(self).ids() == old(self).ids_with(id@),
            final(self).values() == old(self).values_with(id@, value),
    {
        let ghost wanted = old(self)@.insert(id@, value);
        match self.position(id.as_str()) {
            Some(i) => {
                self.values[i] = value;
                assert forall|k: Seq<char>| self.contains(k) implies #[trigger] self@[k]
                    == wanted[k] by {
                    // The place of `k` has not moved.
                    let p = self.place(k);
                }
            },
            None => {
                let ghost key = id@;
                let ghost end = old(self).ids().len() as int;
                self.ids.push(id);
                self.values.push(value);
                assert(self.ids() =~= old(self).ids().push(key));
                assert forall|k: Seq<char>| self.contains(k) implies #[trigger] self@[k]
                    == wanted[k] by {
                    // An identifier from before is where it was; the new one is last.
                    let p = self.place(k);
                }
                assert forall|k: Seq<char>| wanted.contains_key(k) implies self.contains(k) by {
                    let p = if k == key { end } else { old(self).place(k) };
                    assert(self.ids()[p] == k);
                }
            },
        }
    }
}

} // verus!
