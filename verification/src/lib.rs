//! Connection-time load balancing for a virtual IPv4 service address.
//!
//! A connection attempt to a managed `(address, port)` pair is redirected to
//! one of the backends registered for it, before the handshake starts. The
//! crate holds the decision logic and the tables it reads; what carries the
//! decision out belongs to the caller.

pub mod consistency;
pub mod engine;
pub mod laws;
pub mod select;
pub mod table;
pub mod types;

pub use engine::{decide, try_decide, Answer, Engine, Fault, Probe, Query, Verdict};
pub use table::{TableError, TableStore, Tables, MAX_ENTRIES};
pub use types::{Lb4Backend, Lb4Service, ServiceIdentifer, V4Key, IPPROTO_TCP, IPPROTO_UDP};
