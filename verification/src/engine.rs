//! The redirection engine.
//!
//! For one connection attempt the engine decides whether the destination is
//! left alone, rewritten to a backend, or refused. It reads the two tables,
//! may ask for one random number and may ask once whether a socket is bound
//! in the caller's own network namespace. It keeps nothing between attempts.
//!
//! The decision is defined once, as a function of the tables and of the
//! answers from outside (`spec_try_decide`). `Engine` reaches it question by
//! question, for callers whose tables live elsewhere; `try_decide` and
//! `decide` reach it on a `TableStore`.

use vstd::prelude::*;
use crate::select::{needs_draw, select_slot, spec_seed, spec_select_slot};
use crate::table::{TableStore, Tables};
use crate::types::{Lb4Backend, Lb4Service, V4Key, IPPROTO_TCP, IPPROTO_UDP};

verus! {

/// What is done with a connection attempt.
#[derive(Clone, Copy, Debug, PartialEq, Eq, Structural)]
pub enum Verdict {
    /// The attempt goes on to the destination it named.
    PassThrough,
    /// The attempt goes on to `addr:port` instead.
    Redirect { addr: u32, port: u16 },
    /// The attempt fails.
    Reject,
}

/// Why an attempt is not redirected.
#[derive(Clone, Copy, Debug, PartialEq, Eq, Structural)]
pub enum Fault {
    /// The destination has no base entry in the service table.
    NotManaged,
    /// The base entry counts no slots, or the selected slot has no entry.
    InconsistentTable,
    /// The selected slot names a backend that the backend table lacks.
    DanglingBackend,
    /// The backend is bound in the caller's own network namespace.
    HairpinDetected,
}

/// The socket table that answers for a protocol.
#[derive(Clone, Copy, Debug, PartialEq, Eq, Structural)]
pub enum Probe {
    Tcp,
    Udp,
}

/// A question the engine puts to its caller.
#[derive(Clone, Copy, Debug, PartialEq, Eq, Structural)]
pub enum Query {
    /// What does the service table hold under this key?
    Service(V4Key),
    /// Give one pseudo-random number.
    Random,
    /// What does the backend table hold under this id?
    Backend(u32),
    /// Is a socket bound to `addr:port` in the current network namespace?
    Socket { probe: Probe, addr: u32, port: u16 },
}

/// The caller's reply to a `Query`.
#[derive(Clone, Copy, Debug, PartialEq, Eq, Structural)]
pub enum Answer {
    Service(Option<Lb4Service>),
    Random(u32),
    Backend(Option<Lb4Backend>),
    Socket(bool),
}

/// The progress of one decision.
#[derive(Clone, Copy, Debug, PartialEq, Eq)]
pub enum Engine {
    /// Waiting for the base entry of the destination.
    Base { addr: u32, port: u16, protocol: u32 },
    /// Waiting for the random number that selects among `count` slots.
    Draw { addr: u32, port: u16, protocol: u32, count: u16 },
    /// Waiting for the entry of the selected slot.
    Slot { key: V4Key, protocol: u32 },
    /// Waiting for the record of the backend that the slot names.
    Backend { id: u32, protocol: u32 },
    /// Waiting to hear whether the backend is bound locally.
    Hairpin { backend: Lb4Backend, probe: Probe },
    /// Decided.
    Done(Result<Lb4Backend, Fault>),
}

impl Fault {
    /// The verdict that a fault stands for: an unmanaged destination and a
    /// local backend pass through, a broken table refuses.
    pub open spec fn spec_verdict(self) -> Verdict {
        match self {
            Fault::NotManaged => Verdict::PassThrough,
            Fault::InconsistentTable => Verdict::Reject,
            Fault::DanglingBackend => Verdict::Reject,
            Fault::HairpinDetected => Verdict::PassThrough,
        }
    }

    /// Turns the fault into its verdict.
    pub fn verdict(&self) -> (v: Verdict)
        ensures
            v == self.spec_verdict(),
    {
        match self {
            Fault::NotManaged => Verdict::PassThrough,
            Fault::InconsistentTable => Verdict::Reject,
            Fault::DanglingBackend => Verdict::Reject,
            Fault::HairpinDetected => Verdict::PassThrough,
        }
    }
}

impl Probe {
    /// The socket table to ask for a protocol. Protocols other than TCP and
    /// UDP have none, and connections of theirs are never taken for local.
    pub open spec fn spec_for_protocol(protocol: u32) -> Option<Probe> {
        if protocol == IPPROTO_TCP {
            Some(Probe::Tcp)
        } else if protocol == IPPROTO_UDP {
            Some(Probe::Udp)
        } else {
            None
        }
    }

    /// Picks the socket table for a protocol.
    pub fn for_protocol(protocol: u32) -> (probe: Option<Probe>)
        ensures
            probe == Probe::spec_for_protocol(protocol),
    {
        if protocol == IPPROTO_TCP {
            Some(Probe::Tcp)
        } else if protocol == IPPROTO_UDP {
            Some(Probe::Udp)
        } else {
            None
        }
    }
}

/// The verdict of an outcome: a backend is redirected to, a fault has the
/// verdict it stands for.
pub open spec fn spec_verdict_of(outcome: Result<Lb4Backend, Fault>) -> Verdict {
    match outcome {
        Ok(backend) => Verdict::Redirect { addr: backend.address, port: backend.port },
        Err(fault) => fault.spec_verdict(),
    }
}

/// Turns an outcome into its verdict.
pub fn verdict_of(outcome: Result<Lb4Backend, Fault>) -> (v: Verdict)
    ensures
        v == spec_verdict_of(outcome),
{
    match outcome {
        Ok(backend) => Verdict::Redirect { addr: backend.address, port: backend.port },
        Err(fault) => fault.verdict(),
    }
}

/// The backend that the tables assign to a connection: the base entry of
/// `(addr, port)` gives the slot count, the seed selects a slot, the slot
/// entry names a backend, the backend table holds its record.
pub open spec fn spec_backend_for(
    tables: Tables,
    addr: u32,
    port: u16,
    protocol: u32,
    draw: u32,
) -> Result<Lb4Backend, Fault> {
    match tables.service(V4Key::base(addr, port)) {
        None => Err(Fault::NotManaged),
        Some(base) => match spec_select_slot(base.count, spec_seed(protocol, draw)) {
            None => Err(Fault::InconsistentTable),
            Some(slot) => match tables.service(V4Key::slot(addr, port, slot)) {
                None => Err(Fault::InconsistentTable),
                Some(entry) => match tables.backend(entry.service_id.raw) {
                    None => Err(Fault::DanglingBackend),
                    Some(backend) => Ok(backend),
                },
            },
        },
    }
}

/// True where the connection counts as local: its protocol has a socket
/// table, and that table reported a socket bound to the backend.
pub open spec fn spec_hairpin(protocol: u32, bound: bool) -> bool {
    Probe::spec_for_protocol(protocol) is Some && bound
}

/// The outcome of a connection attempt, given the tables, the random draw
/// and what the socket table reports of the backend.
pub open spec fn spec_try_decide(
    tables: Tables,
    addr: u32,
    port: u16,
    protocol: u32,
    draw: u32,
    bound: bool,
) -> Result<Lb4Backend, Fault> {
    match spec_backend_for(tables, addr, port, protocol, draw) {
        Err(fault) => Err(fault),
        Ok(backend) => if spec_hairpin(protocol, bound) {
            Err(Fault::HairpinDetected)
        } else {
            Ok(backend)
        },
    }
}

/// The verdict on a connection attempt.
pub open spec fn spec_decide(
    tables: Tables,
    addr: u32,
    port: u16,
    protocol: u32,
    draw: u32,
    bound: bool,
) -> Verdict {
    spec_verdict_of(spec_try_decide(tables, addr, port, protocol, draw, bound))
}

/// The state that follows a base entry with `count` slots once the seed is
/// known.
pub open spec fn spec_after_seed(addr: u32, port: u16, protocol: u32, count: u16, seed: u32) -> Engine {
    match spec_select_slot(count, seed) {
        None => Engine::Done(Err(Fault::InconsistentTable)),
        Some(slot) => Engine::Slot { key: V4Key::slot(addr, port, slot), protocol },
    }
}

/// Moves on from a base entry with `count` slots once the seed is known.
fn after_seed(addr: u32, port: u16, protocol: u32, count: u16, seed: u32) -> (next: Engine)
    ensures
        next == spec_after_seed(addr, port, protocol, count, seed),
{
    match select_slot(count, seed) {
        None => Engine::Done(Err(Fault::InconsistentTable)),
        Some(slot) => Engine::Slot { key: V4Key::slot(addr, port, slot), protocol },
    }
}

impl Engine {
    /// The state in which a decision on `(addr, port, protocol)` begins.
    pub open spec fn spec_start(addr: u32, port: u16, protocol: u32) -> Engine {
        Engine::Base { addr, port, protocol }
    }

    /// The question that a state waits on; none once it is decided.
    pub open spec fn spec_pending(self) -> Option<Query> {
        match self {
            Engine::Base { addr, port, protocol } => Some(Query::Service(V4Key::base(addr, port))),
            Engine::Draw { .. } => Some(Query::Random),
            Engine::Slot { key, protocol } => Some(Query::Service(key)),
            Engine::Backend { id, protocol } => Some(Query::Backend(id)),
            Engine::Hairpin { backend, probe } => Some(
                Query::Socket { probe, addr: backend.address, port: backend.port },
            ),
            Engine::Done(_) => None,
        }
    }

    /// True where `answer` is a reply to the question the state waits on.
    pub open spec fn spec_accepts(self, answer: Answer) -> bool {
        match (self, answer) {
            (Engine::Base { .. }, Answer::Service(_)) => true,
            (Engine::Draw { .. }, Answer::Random(_)) => true,
            (Engine::Slot { .. }, Answer::Service(_)) => true,
            (Engine::Backend { .. }, Answer::Backend(_)) => true,
            (Engine::Hairpin { .. }, Answer::Socket(_)) => true,
            _ => false,
        }
    }

    /// The state that follows on an answer. An answer to another question
    /// than the pending one changes nothing.
    pub open spec fn spec_step(self, answer: Answer) -> Engine {
        match (self, answer) {
            (Engine::Base { addr, port, protocol }, Answer::Service(found)) => match found {
                None => Engine::Done(Err(Fault::NotManaged)),
                Some(base) => if base.count == 0 {
                    Engine::Done(Err(Fault::InconsistentTable))
                } else if protocol == IPPROTO_TCP {
                    Engine::Draw { addr, port, protocol, count: base.count }
                } else {
                    spec_after_seed(addr, port, protocol, base.count, 0)
                },
            },
            (Engine::Draw { addr, port, protocol, count }, Answer::Random(draw)) => spec_after_seed(
                addr,
                port,
                protocol,
                count,
                draw,
            ),
            (Engine::Slot { key, protocol }, Answer::Service(found)) => match found {
                None => Engine::Done(Err(Fault::InconsistentTable)),
                Some(entry) => Engine::Backend { id: entry.service_id.raw, protocol },
            },
            (Engine::Backend { id, protocol }, Answer::Backend(found)) => match found {
                None => Engine::Done(Err(Fault::DanglingBackend)),
                Some(backend) => match Probe::spec_for_protocol(protocol) {
                    None => Engine::Done(Ok(backend)),
                    Some(probe) => Engine::Hairpin { backend, probe },
                },
            },
            (Engine::Hairpin { backend, probe }, Answer::Socket(bound)) => if bound {
                Engine::Done(Err(Fault::HairpinDetected))
            } else {
                Engine::Done(Ok(backend))
            },
            _ => self,
        }
    }

    /// The number of questions that a state may still ask.
    pub open spec fn spec_questions_left(self) -> nat {
        match self {
            Engine::Base { .. } => 5,
            Engine::Draw { .. } => 4,
            Engine::Slot { .. } => 3,
            Engine::Backend { .. } => 2,
            Engine::Hairpin { .. } => 1,
            Engine::Done(_) => 0,
        }
    }

    /// Begins a decision on a connection attempt to `addr:port`.
    pub fn start(addr: u32, port: u16, protocol: u32) -> (engine: Engine)
        ensures
            engine == Engine::spec_start(addr, port, protocol),
    {
        Engine::Base { addr, port, protocol }
    }

    /// The question to answer next, or none where the decision is made.
    pub fn pending(&self) -> (query: Option<Query>)
        ensures
            query == self.spec_pending(),
            query is None <==> self is Done,
    {
        match self {
            Engine::Base { addr, port, protocol } => Some(Query::Service(V4Key::base(*addr, *port))),
            Engine::Draw { .. } => Some(Query::Random),
            Engine::Slot { key, protocol } => Some(Query::Service(*key)),
            Engine::Backend { id, protocol } => Some(Query::Backend(*id)),
            Engine::Hairpin { backend, probe } => Some(
                Query::Socket { probe: *probe, addr: backend.address, port: backend.port },
            ),
            Engine::Done(_) => None,
        }
    }

    /// Takes the answer to the pending question and moves on.
    pub fn step(self, answer: Answer) -> (next: Engine)
        ensures
            next == self.spec_step(answer),
            self.spec_accepts(answer) ==> next.spec_questions_left() < self.spec_questions_left(),
            !self.spec_accepts(answer) ==> next == self,
    {
        match (self, answer) {
            (Engine::Base { addr, port, protocol }, Answer::Service(found)) => match found {
                None => Engine::Done(Err(Fault::NotManaged)),
                Some(base) => if base.count == 0 {
                    Engine::Done(Err(Fault::InconsistentTable))
                } else if needs_draw(protocol) {
                    Engine::Draw { addr, port, protocol, count: base.count }
                } else {
                    after_seed(addr, port, protocol, base.count, 0)
                },
            },
            (Engine::Draw { addr, port, protocol, count }, Answer::Random(draw)) => after_seed(
                addr,
                port,
                protocol,
                count,
                draw,
            ),
            (Engine::Slot { key, protocol }, Answer::Service(found)) => match found {
                None => Engine::Done(Err(Fault::InconsistentTable)),
                Some(entry) => Engine::Backend { id: entry.service_id.backend_id(), protocol },
            },
            (Engine::Backend { id, protocol }, Answer::Backend(found)) => match found {
                None => Engine::Done(Err(Fault::DanglingBackend)),
                Some(backend) => match Probe::for_protocol(protocol) {
                    None => Engine::Done(Ok(backend)),
                    Some(probe) => Engine::Hairpin { backend, probe },
                },
            },
            (Engine::Hairpin { backend, probe }, Answer::Socket(bound)) => if bound {
                Engine::Done(Err(Fault::HairpinDetected))
            } else {
                Engine::Done(Ok(backend))
            },
            (state, _) => state,
        }
    }

    /// The outcome, once the decision is made.
    pub fn outcome(&self) -> (outcome: Option<Result<Lb4Backend, Fault>>)
        ensures
            outcome == (match *self {
                Engine::Done(o) => Some(o),
                _ => None,
            }),
    {
        match self {
            Engine::Done(o) => Some(*o),
            _ => None,
        }
    }

    /// The verdict, once the decision is made.
    pub fn verdict(&self) -> (v: Option<Verdict>)
        ensures
            v == (match *self {
                Engine::Done(o) => Some(spec_verdict_of(o)),
                _ => None,
            }),
    {
        match self {
            Engine::Done(o) => Some(verdict_of(*o)),
            _ => None,
        }
    }
}

/// The truthful answer to a question: table questions are answered from
/// `tables`, the random number is `draw`, and the socket table reports
/// `bound`.
pub open spec fn spec_answer(query: Query, tables: Tables, draw: u32, bound: bool) -> Answer {
    match query {
        Query::Service(key) => Answer::Service(tables.service(key)),
        Query::Random => Answer::Random(draw),
        Query::Backend(id) => Answer::Backend(tables.backend(id)),
        Query::Socket { .. } => Answer::Socket(bound),
    }
}

/// The state reached from `engine` after at most `rounds` questions, each
/// answered truthfully.
pub open spec fn spec_run(engine: Engine, tables: Tables, draw: u32, bound: bool, rounds: nat) -> Engine
    decreases rounds,
{
    if rounds == 0 {
        engine
    } else {
        match engine.spec_pending() {
            None => engine,
            Some(query) => spec_run(
                engine.spec_step(spec_answer(query, tables, draw, bound)),
                tables,
                draw,
                bound,
                (rounds - 1) as nat,
            ),
        }
    }
}

/// What the caller's socket lookup had to say: where a backend was found and
/// its protocol has a socket table, `bound` is an answer that the lookup may
/// give for that backend; where no lookup is made, `bound` is false.
pub open spec fn spec_heard<F: Fn(Probe, u32, u16) -> bool>(
    socket_bound: F,
    tables: Tables,
    addr: u32,
    port: u16,
    protocol: u32,
    draw: u32,
    bound: bool,
) -> bool {
    match (spec_backend_for(tables, addr, port, protocol, draw), Probe::spec_for_protocol(protocol)) {
        (Ok(backend), Some(probe)) => socket_bound.ensures(
            (probe, backend.address, backend.port),
            bound,
        ),
        _ => !bound,
    }
}

/// Decides a connection attempt to `addr:port` on the tables of `store`.
///
/// `draw` is a pseudo-random number; it is read for TCP only. `socket_bound`
/// tells whether a socket is bound to an address and port in the caller's
/// network namespace; it is called at most once, with the backend found, and
/// not at all for protocols other than TCP and UDP.
pub fn try_decide<F: Fn(Probe, u32, u16) -> bool>(
    store: &TableStore,
    addr: u32,
    port: u16,
    protocol: u32,
    draw: u32,
    socket_bound: F,
) -> (outcome: Result<Lb4Backend, Fault>)
    requires
        forall|probe: Probe, a: u32, p: u16| socket_bound.requires((probe, a, p)),
    ensures
        exists|bound: bool| #[trigger]
            spec_heard(socket_bound, store@, addr, port, protocol, draw, bound) && outcome
                == spec_try_decide(store@, addr, port, protocol, draw, bound),
        spec_backend_for(store@, addr, port, protocol, draw) matches Err(fault) ==> outcome == Err::<
            Lb4Backend,
            Fault,
        >(fault),
{
    // The questions come in one order, each at most once. A question that
    // is not pending is passed over.
    let engine = Engine::start(addr, port, protocol);
    let engine = match engine.pending() {
        Some(Query::Service(key)) => engine.step(Answer::Service(store.get_service(key))),
        _ => engine,
    };
    let engine = match engine.pending() {
        Some(Query::Random) => engine.step(Answer::Random(draw)),
        _ => engine,
    };
    let engine = match engine.pending() {
        Some(Query::Service(key)) => engine.step(Answer::Service(store.get_service(key))),
        _ => engine,
    };
    let engine = match engine.pending() {
        Some(Query::Backend(id)) => engine.step(Answer::Backend(store.get_backend(id))),
        _ => engine,
    };
    let engine = match engine.pending() {
        Some(Query::Socket { probe, addr: at, port: on }) => {
            let bound = socket_bound(probe, at, on);
            assert(spec_heard(socket_bound, store@, addr, port, protocol, draw, bound));
            engine.step(Answer::Socket(bound))
        },
        _ => {
            assert(spec_heard(socket_bound, store@, addr, port, protocol, draw, false));
            engine
        },
    };
    engine.outcome().unwrap()
}

/// The verdict on a connection attempt to `addr:port`, on the tables of
/// `store`: the verdict of the outcome that `try_decide` finds.
pub fn decide<F: Fn(Probe, u32, u16) -> bool>(
    store: &TableStore,
    addr: u32,
    port: u16,
    protocol: u32,
    draw: u32,
    socket_bound: F,
) -> (verdict: Verdict)
    requires
        forall|probe: Probe, a: u32, p: u16| socket_bound.requires((probe, a, p)),
    ensures
        exists|bound: bool| #[trigger]
            spec_heard(socket_bound, store@, addr, port, protocol, draw, bound) && verdict
                == spec_decide(store@, addr, port, protocol, draw, bound),
        spec_backend_for(store@, addr, port, protocol, draw) matches Err(fault) ==> verdict
            == fault.spec_verdict(),
{
    verdict_of(try_decide(store, addr, port, protocol, draw, socket_bound))
}

} // verus!
