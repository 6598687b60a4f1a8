//! When the tables are fit to decide on, and which writes keep them so.
//!
//! A reader may run between any two writes. So a writer keeps the tables
//! consistent after every single write: it files a backend before the slot
//! that names it and the slots before the base entry that counts them, and
//! it takes them away in the opposite order.

use vstd::prelude::*;
use crate::engine::{spec_backend_for, spec_decide, Fault, Verdict};
use crate::select::{lemma_slot_in_range, spec_seed, spec_select_slot};
use crate::table::Tables;
use crate::types::{Lb4Backend, Lb4Service, V4Key};

verus! {

impl Tables {
    /// True where slot `slot` of the service at `(addr, port)` has an entry,
    /// and the backend table holds the backend that the entry names.
    pub open spec fn slot_resolves(self, addr: u32, port: u16, slot: u16) -> bool {
        &&& self.services.contains_key(V4Key::slot(addr, port, slot))
        &&& self.backends.contains_key(self.services[V4Key::slot(addr, port, slot)].service_id.raw)
    }

    /// True where the service at `(addr, port)` has every slot that its base
    /// entry counts. A service without a base entry has nothing to miss.
    pub open spec fn serves(self, addr: u32, port: u16) -> bool {
        self.services.contains_key(V4Key::base(addr, port)) ==> forall|slot: u16|
            1 <= slot <= self.services[V4Key::base(addr, port)].count ==> #[trigger] self.slot_resolves(
                addr,
                port,
                slot,
            )
    }

    /// True where every service has the slots that its base entry counts.
    pub open spec fn consistent(self) -> bool {
        forall|addr: u32, port: u16| #[trigger] self.serves(addr, port)
    }

    /// True where the base entry of a service counts slot `slot`.
    pub open spec fn counts_slot(self, addr: u32, port: u16, slot: u16) -> bool {
        &&& self.services.contains_key(V4Key::base(addr, port))
        &&& 1 <= slot <= self.services[V4Key::base(addr, port)].count
    }
}

/// On a service that has its slots, an attempt is refused only where the
/// base entry counts none: no slot is found missing and no backend dangling.
pub proof fn law_served_is_not_refused(
    tables: Tables,
    addr: u32,
    port: u16,
    protocol: u32,
    draw: u32,
    bound: bool,
)
    requires
        tables.serves(addr, port),
    ensures
        spec_backend_for(tables, addr, port, protocol, draw) != Err::<Lb4Backend, Fault>(
            Fault::DanglingBackend,
        ),
        spec_decide(tables, addr, port, protocol, draw, bound) == Verdict::Reject <==> (
        tables.services.contains_key(V4Key::base(addr, port)) && tables.services[V4Key::base(
            addr,
            port,
        )].count == 0),
{
    if tables.services.contains_key(V4Key::base(addr, port)) {
        let count = tables.services[V4Key::base(addr, port)].count;
        if count >= 1 {
            lemma_slot_in_range(count, spec_seed(protocol, draw));
            let slot = spec_select_slot(count, spec_seed(protocol, draw))->0;
            assert(tables.slot_resolves(addr, port, slot));
        }
    }
}

/// Empty tables are consistent.
pub proof fn law_empty_is_consistent()
    ensures
        (Tables { services: Map::empty(), backends: Map::empty() }).consistent(),
{
    let empty = Tables { services: Map::empty(), backends: Map::empty() };
    assert forall|addr: u32, port: u16| #[trigger] empty.serves(addr, port) by {}
}

/// Filing a backend, new or in place of another, keeps the tables
/// consistent.
pub proof fn law_put_backend_keeps_consistent(tables: Tables, id: u32, record: Lb4Backend)
    requires
        tables.consistent(),
    ensures
        tables.with_backend(id, record).consistent(),
{
    let after = tables.with_backend(id, record);
    assert forall|addr: u32, port: u16| #[trigger] after.serves(addr, port) by {
        assert(tables.serves(addr, port));
        if after.services.contains_key(V4Key::base(addr, port)) {
            assert forall|slot: u16|
                1 <= slot <= after.services[V4Key::base(addr, port)].count implies #[trigger] after.slot_resolves(
                addr,
                port,
                slot,
            ) by {
                assert(tables.slot_resolves(addr, port, slot));
            }
        }
    }
}

/// Filing a slot entry keeps the tables consistent, provided that the
/// backend it names is in the backend table.
pub proof fn law_put_slot_keeps_consistent(tables: Tables, key: V4Key, record: Lb4Service)
    requires
        tables.consistent(),
        key.backend_slot >= 1,
        tables.backends.contains_key(record.service_id.raw),
    ensures
        tables.with_service(key, record).consistent(),
{
    let after = tables.with_service(key, record);
    assert forall|addr: u32, port: u16| #[trigger] after.serves(addr, port) by {
        assert(tables.serves(addr, port));
        if after.services.contains_key(V4Key::base(addr, port)) {
            assert forall|slot: u16|
                1 <= slot <= after.services[V4Key::base(addr, port)].count implies #[trigger] after.slot_resolves(
                addr,
                port,
                slot,
            ) by {
                assert(tables.slot_resolves(addr, port, slot));
            }
        }
    }
}

/// Filing a base entry keeps the tables consistent, provided that every
/// slot it counts is there already and names a backend of the backend
/// table.
pub proof fn law_put_base_keeps_consistent(tables: Tables, key: V4Key, record: Lb4Service)
    requires
        tables.consistent(),
        key.backend_slot == 0,
        forall|slot: u16|
            1 <= slot <= record.count ==> #[trigger] tables.slot_resolves(
                key.address,
                key.dport,
                slot,
            ),
    ensures
        tables.with_service(key, record).consistent(),
{
    let after = tables.with_service(key, record);
    assert forall|addr: u32, port: u16| #[trigger] after.serves(addr, port) by {
        assert(tables.serves(addr, port));
        if after.services.contains_key(V4Key::base(addr, port)) {
            assert forall|slot: u16|
                1 <= slot <= after.services[V4Key::base(addr, port)].count implies #[trigger] after.slot_resolves(
                addr,
                port,
                slot,
            ) by {
                if V4Key::base(addr, port) == key {
                    assert(tables.slot_resolves(key.address, key.dport, slot));
                } else {
                    assert(tables.slot_resolves(addr, port, slot));
                }
            }
        }
    }
}

/// Taking a base entry away keeps the tables consistent: the service is no
/// longer managed.
pub proof fn law_delete_base_keeps_consistent(tables: Tables, key: V4Key)
    requires
        tables.consistent(),
        key.backend_slot == 0,
    ensures
        tables.without_service(key).consistent(),
{
    let after = tables.without_service(key);
    assert forall|addr: u32, port: u16| #[trigger] after.serves(addr, port) by {
        assert(tables.serves(addr, port));
        if after.services.contains_key(V4Key::base(addr, port)) {
            assert forall|slot: u16|
                1 <= slot <= after.services[V4Key::base(addr, port)].count implies #[trigger] after.slot_resolves(
                addr,
                port,
                slot,
            ) by {
                assert(tables.slot_resolves(addr, port, slot));
            }
        }
    }
}

/// Taking a slot entry away keeps the tables consistent, provided that the
/// base entry of its service no longer counts it.
pub proof fn law_delete_slot_keeps_consistent(tables: Tables, key: V4Key)
    requires
        tables.consistent(),
        key.backend_slot >= 1,
        !tables.counts_slot(key.address, key.dport, key.backend_slot),
    ensures
        tables.without_service(key).consistent(),
{
    let after = tables.without_service(key);
    assert forall|addr: u32, port: u16| #[trigger] after.serves(addr, port) by {
        assert(tables.serves(addr, port));
        if after.services.contains_key(V4Key::base(addr, port)) {
            assert forall|slot: u16|
                1 <= slot <= after.services[V4Key::base(addr, port)].count implies #[trigger] after.slot_resolves(
                addr,
                port,
                slot,
            ) by {
                assert(tables.slot_resolves(addr, port, slot));
            }
        }
    }
}

/// Taking a backend away keeps the tables consistent, provided that no slot
/// that a base entry counts names it.
pub proof fn law_delete_backend_keeps_consistent(tables: Tables, id: u32)
    requires
        tables.consistent(),
        forall|addr: u32, port: u16, slot: u16| #[trigger]
            tables.counts_slot(addr, port, slot) ==> tables.services[V4Key::slot(
                addr,
                port,
                slot,
            )].service_id.raw != id,
    ensures
        tables.without_backend(id).consistent(),
{
    let after = tables.without_backend(id);
    assert forall|addr: u32, port: u16| #[trigger] after.serves(addr, port) by {
        assert(tables.serves(addr, port));
        if after.services.contains_key(V4Key::base(addr, port)) {
            assert forall|slot: u16|
                1 <= slot <= after.services[V4Key::base(addr, port)].count implies #[trigger] after.slot_resolves(
                addr,
                port,
                slot,
            ) by {
                assert(tables.slot_resolves(addr, port, slot));
                assert(tables.counts_slot(addr, port, slot));
            }
        }
    }
}

} // verus!
