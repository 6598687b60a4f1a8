//! The table store: the service table and the backend table.
//!
//! Both tables are exact-match maps of bounded size. Readers see whole
//! records only; every operation touches one entry of one table.

use std::collections::HashMap;
use vstd::prelude::*;
use vstd::set_lib::lemma_map_size;
use crate::types::{Lb4Backend, Lb4Service, V4Key};

verus! {

broadcast use vstd::std_specs::hash::group_hash_axioms;

/// The number of entries that each table holds at most.
pub const MAX_ENTRIES: usize = 65536;

/// What the two tables hold, as mathematical maps.
pub struct Tables {
    pub services: Map<V4Key, Lb4Service>,
    pub backends: Map<u32, Lb4Backend>,
}

impl Tables {
    /// The record filed under `key` in the service table, if there is one.
    pub open spec fn service(self, key: V4Key) -> Option<Lb4Service> {
        if self.services.contains_key(key) {
            Some(self.services[key])
        } else {
            None
        }
    }

    /// The record filed under `id` in the backend table, if there is one.
    pub open spec fn backend(self, id: u32) -> Option<Lb4Backend> {
        if self.backends.contains_key(id) {
            Some(self.backends[id])
        } else {
            None
        }
    }

    /// The tables after `record` is filed under `key` in the service table.
    pub open spec fn with_service(self, key: V4Key, record: Lb4Service) -> Tables {
        Tables { services: self.services.insert(key, record), backends: self.backends }
    }

    /// The tables after the entry under `key` leaves the service table.
    pub open spec fn without_service(self, key: V4Key) -> Tables {
        Tables { services: self.services.remove(key), backends: self.backends }
    }

    /// The tables after `record` is filed under `id` in the backend table.
    pub open spec fn with_backend(self, id: u32, record: Lb4Backend) -> Tables {
        Tables { services: self.services, backends: self.backends.insert(id, record) }
    }

    /// The tables after the entry under `id` leaves the backend table.
    pub open spec fn without_backend(self, id: u32) -> Tables {
        Tables { services: self.services, backends: self.backends.remove(id) }
    }
}

/// Why a write to a table was turned down.
#[derive(Clone, Copy, Debug, PartialEq, Eq, Structural)]
pub enum TableError {
    /// The table holds `MAX_ENTRIES` entries and the key is not among them.
    Full,
}

/// The service table and the backend table of one load balancer.
pub struct TableStore {
    services: HashMap<u64, Lb4Service>,
    backends: HashMap<u32, Lb4Backend>,
}

/// The service table that a map of packed keys stands for.
spec fn services_of(words: Map<u64, Lb4Service>) -> Map<V4Key, Lb4Service> {
    Map::new(|key: V4Key| words.contains_key(key.packed()), |key: V4Key| words[key.packed()])
}

/// A map of packed keys and the service table it stands for have the same
/// number of entries.
proof fn lemma_services_of_len(words: Map<u64, Lb4Service>)
    requires
        words.dom().finite(),
    ensures
        services_of(words).dom().finite(),
        services_of(words).len() == words.len(),
{
    let unpack = |word: u64| V4Key::unpacked(word);
    assert forall|a: u64, b: u64| #[trigger] unpack(a) == #[trigger] unpack(b) implies a == b by {
        V4Key::lemma_unpacked_inverts_packed(V4Key::unpacked(a), a);
        V4Key::lemma_unpacked_inverts_packed(V4Key::unpacked(b), b);
    }
    assert forall|key: V4Key|
        words.dom().map(unpack).contains(key) == services_of(words).dom().contains(key) by {
        V4Key::lemma_unpacked_inverts_packed(key, key.packed());
        if services_of(words).dom().contains(key) {
        }
        if words.dom().map(unpack).contains(key) {
            let word = choose|word: u64| words.dom().contains(word) && key == unpack(word);
            V4Key::lemma_unpacked_inverts_packed(key, word);
        }
    }
    assert(words.dom().map(unpack) =~= services_of(words).dom());
    lemma_map_size(words.dom(), services_of(words).dom(), unpack);
}

impl View for TableStore {
    type V = Tables;

    closed spec fn view(&self) -> Tables {
        Tables { services: services_of(self.services@), backends: self.backends@ }
    }
}

impl TableStore {
    /// Neither table ever holds more than `MAX_ENTRIES` entries. A method
    /// that changes a table takes its map out of the store for the change,
    /// so that the store meets this at every step.
    #[verifier::type_invariant]
    spec fn within_capacity(self) -> bool {
        &&& self.services@.len() <= MAX_ENTRIES
        &&& self.backends@.len() <= MAX_ENTRIES
    }

    /// A store with two empty tables.
    pub fn new() -> (store: TableStore)
        ensures
            store@ == (Tables { services: Map::empty(), backends: Map::empty() }),
    {
        let store = TableStore { services: HashMap::new(), backends: HashMap::new() };
        assert(store@.services =~= Map::<V4Key, Lb4Service>::empty());
        store
    }

    /// The number of entries in the service table.
    pub fn service_count(&self) -> (n: usize)
        ensures
            self@.services.dom().finite(),
            n == self@.services.len(),
            n <= MAX_ENTRIES,
    {
        proof {
            use_type_invariant(self);
            lemma_services_of_len(self.services@);
        }
        self.services.len()
    }

    /// The number of entries in the backend table.
    pub fn backend_count(&self) -> (n: usize)
        ensures
            self@.backends.dom().finite(),
            n == self@.backends.len(),
            n <= MAX_ENTRIES,
    {
        proof {
            use_type_invariant(self);
        }
        self.backends.len()
    }

    /// Looks `key` up in the service table.
    pub fn get_service(&self, key: V4Key) -> (found: Option<Lb4Service>)
        ensures
            found == self@.service(key),
    {
        let word: u64 = key.pack();
        match self.services.get(&word) {
            Some(record) => Some(*record),
            None => None,
        }
    }

    /// Looks `id` up in the backend table.
    pub fn get_backend(&self, id: u32) -> (found: Option<Lb4Backend>)
        ensures
            found == self@.backend(id),
    {
        match self.backends.get(&id) {
            Some(record) => Some(*record),
            None => None,
        }
    }

    /// Files `record` under `key` in the service table, in place of what was
    /// there. A new key is turned down where the table is full.
    pub fn put_service(&mut self, key: V4Key, record: Lb4Service) -> (done: Result<(), TableError>)
        ensures
            done is Err <==> !old(self)@.services.contains_key(key) && old(self)@.services.len()
                >= MAX_ENTRIES,
            done is Ok ==> final(self)@ == old(self)@.with_service(key, record),
            done is Err ==> final(self)@ == old(self)@,
    {
        proof {
            use_type_invariant(&*self);
            lemma_services_of_len(self.services@);
        }
        let word: u64 = key.pack();
        if self.services.len() >= MAX_ENTRIES && !self.services.contains_key(&word) {
            return Err(TableError::Full);
        }
        let mut services: HashMap<u64, Lb4Service> = HashMap::new();
        std::mem::swap(&mut self.services, &mut services);
        services.insert(word, record);
        std::mem::swap(&mut self.services, &mut services);
        proof {
            assert forall|other: V4Key| other.packed() == key.packed() implies other == key by {
                V4Key::lemma_unpacked_inverts_packed(other, 0);
                V4Key::lemma_unpacked_inverts_packed(key, 0);
            }
            assert(services_of(self.services@) =~= services_of(old(self).services@).insert(
                key,
                record,
            ));
        }
        Ok(())
    }

    /// Removes the entry under `key` from the service table and returns the
    /// record it held.
    pub fn delete_service(&mut self, key: V4Key) -> (removed: Option<Lb4Service>)
        ensures
            final(self)@ == old(self)@.without_service(key),
            removed == old(self)@.service(key),
    {
        proof {
            use_type_invariant(&*self);
        }
        let word: u64 = key.pack();
        let mut services: HashMap<u64, Lb4Service> = HashMap::new();
        std::mem::swap(&mut self.services, &mut services);
        let removed = services.remove(&word);
        std::mem::swap(&mut self.services, &mut services);
        proof {
            assert forall|other: V4Key| other.packed() == key.packed() implies other == key by {
                V4Key::lemma_unpacked_inverts_packed(other, 0);
                V4Key::lemma_unpacked_inverts_packed(key, 0);
            }
            assert(services_of(self.services@) =~= services_of(old(self).services@).remove(key));
        }
        removed
    }

    /// Files `record` under `id` in the backend table, in place of what was
    /// there. A new id is turned down where the table is full.
    pub fn put_backend(&mut self, id: u32, record: Lb4Backend) -> (done: Result<(), TableError>)
        ensures
            done is Err <==> !old(self)@.backends.contains_key(id) && old(self)@.backends.len()
                >= MAX_ENTRIES,
            done is Ok ==> final(self)@ == old(self)@.with_backend(id, record),
            done is Err ==> final(self)@ == old(self)@,
    {
        proof {
            use_type_invariant(&*self);
        }
        if self.backends.len() >= MAX_ENTRIES && !self.backends.contains_key(&id) {
            return Err(TableError::Full);
        }
        let mut backends: HashMap<u32, Lb4Backend> = HashMap::new();
        std::mem::swap(&mut self.backends, &mut backends);
        backends.insert(id, record);
        std::mem::swap(&mut self.backends, &mut backends);
        Ok(())
    }

    /// Removes the entry under `id` from the backend table and returns the
    /// record it held.
    pub fn delete_backend(&mut self, id: u32) -> (removed: Option<Lb4Backend>)
        ensures
            final(self)@ == old(self)@.without_backend(id),
            removed == old(self)@.backend(id),
    {
        proof {
            use_type_invariant(&*self);
        }
        let mut backends: HashMap<u32, Lb4Backend> = HashMap::new();
        std::mem::swap(&mut self.backends, &mut backends);
        let removed = backends.remove(&id);
        std::mem::swap(&mut self.backends, &mut backends);
        removed
    }
}

} // verus!
