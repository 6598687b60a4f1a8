//! The data model: service keys, service records and backend records.
//!
//! Addresses and ports are kept in network byte order, as they arrive in a
//! connection attempt; the tables never interpret them.

use vstd::prelude::*;

verus! {

/// Protocol number of TCP.
pub const IPPROTO_TCP: u32 = 6;

/// Protocol number of UDP.
pub const IPPROTO_UDP: u32 = 17;

/// Identifies one entry of the service table.
///
/// Slot `0` is the base entry of an `(address, port)` pair. Slots `1..=count`,
/// with `count` taken from the base entry, each name one backend.
#[derive(Clone, Copy, Debug, PartialEq, Eq, Structural)]
pub struct V4Key {
    pub address: u32,
    pub dport: u16,
    pub backend_slot: u16,
}

impl V4Key {
    /// The key as one number: address, port and slot side by side.
    pub open spec fn packed(self) -> u64 {
        (self.address as int * 0x1_0000_0000 + self.dport as int * 0x1_0000
            + self.backend_slot as int) as u64
    }

    /// The key that packs to `word`.
    pub open spec fn unpacked(word: u64) -> V4Key {
        let low: int = word as int % 0x1_0000_0000;
        V4Key {
            address: (word as int / 0x1_0000_0000) as u32,
            dport: (low / 0x1_0000) as u16,
            backend_slot: (low % 0x1_0000) as u16,
        }
    }

    /// Every word is the packing of exactly one key, the one that `unpacked`
    /// gives.
    pub proof fn lemma_unpacked_inverts_packed(key: V4Key, word: u64)
        ensures
            V4Key::unpacked(key.packed()) == key,
            V4Key::unpacked(word).packed() == word,
    {
    }

    /// The base key of the service at `(address, dport)`.
    pub open spec fn spec_base(address: u32, dport: u16) -> V4Key {
        V4Key { address, dport, backend_slot: 0 }
    }

    /// The key of slot `slot` of the service at `(address, dport)`.
    pub open spec fn spec_slot(address: u32, dport: u16, slot: u16) -> V4Key {
        V4Key { address, dport, backend_slot: slot }
    }

    /// The base key of the service at `(address, dport)`.
    #[verifier::when_used_as_spec(spec_base)]
    pub fn base(address: u32, dport: u16) -> (key: V4Key)
        ensures
            key == V4Key::spec_base(address, dport),
    {
        V4Key { address, dport, backend_slot: 0 }
    }

    /// The key of slot `slot` of the service at `(address, dport)`.
    #[verifier::when_used_as_spec(spec_slot)]
    pub fn slot(address: u32, dport: u16, slot: u16) -> (key: V4Key)
        ensures
            key == V4Key::spec_slot(address, dport, slot),
    {
        V4Key { address, dport, backend_slot: slot }
    }

    /// Packs the key into the word under which the tables file it.
    pub fn pack(&self) -> (word: u64)
        ensures
            word == self.packed(),
    {
        (self.address as u64) * 0x1_0000_0000 + (self.dport as u64) * 0x1_0000
            + (self.backend_slot as u64)
    }
}

/// The selector word of a service record.
///
/// One 32-bit word read under three names. Which name applies follows from
/// the entry that holds the record: a slot entry carries a backend id, a base
/// entry may carry an affinity timeout or the port of a layer-7 proxy.
#[derive(Clone, Copy, Debug, PartialEq, Eq, Structural)]
pub struct ServiceIdentifer {
    pub raw: u32,
}

impl ServiceIdentifer {
    /// The word read as the id of a backend.
    pub fn backend_id(&self) -> (id: u32)
        ensures
            id == self.raw,
    {
        self.raw
    }

    /// The word read as a session affinity timeout.
    pub fn affinity_timeout(&self) -> (timeout: u32)
        ensures
            timeout == self.raw,
    {
        self.raw
    }

    /// The word read as the port of a layer-7 proxy.
    pub fn l7_lb_proxy_port(&self) -> (port: u32)
        ensures
            port == self.raw,
    {
        self.raw
    }
}

/// The value stored under a `V4Key`.
///
/// `count` is read on base entries only, `service_id` as a backend id on slot
/// entries only. The other fields are carried through untouched.
#[derive(Clone, Copy, Debug, PartialEq, Eq, Structural)]
pub struct Lb4Service {
    pub service_id: ServiceIdentifer,
    pub count: u16,
    pub rev_nat_index: u16,
    pub flags: u8,
    pub flags2: u8,
}

impl Lb4Service {
    /// The record of a base entry that counts `count` slots.
    pub fn base(count: u16) -> (record: Lb4Service)
        ensures
            record == (Lb4Service {
                service_id: ServiceIdentifer { raw: 0 },
                count,
                rev_nat_index: 0,
                flags: 0,
                flags2: 0,
            }),
    {
        Lb4Service {
            service_id: ServiceIdentifer { raw: 0 },
            count,
            rev_nat_index: 0,
            flags: 0,
            flags2: 0,
        }
    }

    /// The record of a slot entry that names the backend `backend_id`.
    pub fn slot(backend_id: u32) -> (record: Lb4Service)
        ensures
            record == (Lb4Service {
                service_id: ServiceIdentifer { raw: backend_id },
                count: 0,
                rev_nat_index: 0,
                flags: 0,
                flags2: 0,
            }),
    {
        Lb4Service {
            service_id: ServiceIdentifer { raw: backend_id },
            count: 0,
            rev_nat_index: 0,
            flags: 0,
            flags2: 0,
        }
    }
}

/// A real destination behind a service.
#[derive(Clone, Copy, Debug, PartialEq, Eq, Structural)]
pub struct Lb4Backend {
    pub address: u32,
    pub port: u16,
    pub proto: u8,
    pub flags: u8,
}

impl Lb4Backend {
    /// The record of a backend at `address:port` that speaks `proto`.
    pub fn new(address: u32, port: u16, proto: u8) -> (record: Lb4Backend)
        ensures
            record == (Lb4Backend { address, port, proto, flags: 0 }),
    {
        Lb4Backend { address, port, proto, flags: 0 }
    }
}

} // verus!
