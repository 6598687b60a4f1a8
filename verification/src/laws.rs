//! What holds of every decision, stated over the tables and the answers that
//! a decision reads.

use vstd::prelude::*;
use crate::engine::{
    spec_backend_for, spec_decide, spec_hairpin, spec_run, spec_try_decide, Engine, Fault, Verdict,
};
use crate::select::{
    lemma_fixed_seed_selects_first, lemma_slot_in_range, spec_seed, spec_select_slot,
};
use crate::table::Tables;
use crate::types::{Lb4Backend, V4Key, IPPROTO_TCP};

verus! {

/// A destination without a base entry passes through, whatever the protocol,
/// the draw and the local sockets.
pub proof fn law_unmanaged_passes_through(
    tables: Tables,
    addr: u32,
    port: u16,
    protocol: u32,
    draw: u32,
    bound: bool,
)
    requires
        !tables.services.contains_key(V4Key::base(addr, port)),
    ensures
        spec_try_decide(tables, addr, port, protocol, draw, bound) == Err::<Lb4Backend, Fault>(
            Fault::NotManaged,
        ),
        spec_decide(tables, addr, port, protocol, draw, bound) == Verdict::PassThrough,
{
}

/// Where the base entry counts `n >= 1` slots and every slot `1..=n` has an
/// entry, the attempt is redirected to the backend of one of these slots,
/// provided that the backend table holds the backend of the selected slot
/// and that no local socket is reported for it.
pub proof fn law_redirect_targets_a_slot(
    tables: Tables,
    addr: u32,
    port: u16,
    protocol: u32,
    draw: u32,
    bound: bool,
)
    requires
        tables.services.contains_key(V4Key::base(addr, port)),
        tables.services[V4Key::base(addr, port)].count >= 1,
        forall|slot: u16|
            1 <= slot <= tables.services[V4Key::base(addr, port)].count
                ==> tables.services.contains_key(#[trigger] V4Key::slot(addr, port, slot)),
        spec_select_slot(tables.services[V4Key::base(addr, port)].count, spec_seed(protocol, draw))
            matches Some(slot) ==> tables.backends.contains_key(
            tables.services[V4Key::slot(addr, port, slot)].service_id.raw,
        ),
        !spec_hairpin(protocol, bound),
    ensures
        exists|slot: u16|
            {
                let id = tables.services[#[trigger] V4Key::slot(addr, port, slot)].service_id.raw;
                &&& 1 <= slot <= tables.services[V4Key::base(addr, port)].count
                &&& tables.backends.contains_key(id)
                &&& spec_decide(tables, addr, port, protocol, draw, bound) == (Verdict::Redirect {
                    addr: tables.backends[id].address,
                    port: tables.backends[id].port,
                })
            },
{
    let count = tables.services[V4Key::base(addr, port)].count;
    lemma_slot_in_range(count, spec_seed(protocol, draw));
}

/// For every protocol but TCP the draw is not read: the first slot is
/// selected each time, and equal tables give equal outcomes.
pub proof fn law_without_draw_first_slot(
    tables: Tables,
    addr: u32,
    port: u16,
    protocol: u32,
    draw: u32,
    other_draw: u32,
    bound: bool,
)
    requires
        protocol != IPPROTO_TCP,
    ensures
        spec_try_decide(tables, addr, port, protocol, draw, bound) == spec_try_decide(
            tables,
            addr,
            port,
            protocol,
            other_draw,
            bound,
        ),
        tables.services.contains_key(V4Key::base(addr, port)) && tables.services[V4Key::base(
            addr,
            port,
        )].count >= 1 ==> {
            &&& spec_select_slot(
                tables.services[V4Key::base(addr, port)].count,
                spec_seed(protocol, draw),
            ) == Some(1u16)
            &&& spec_backend_for(tables, addr, port, protocol, draw) == (match tables.service(
                V4Key::slot(addr, port, 1),
            ) {
                None => Err(Fault::InconsistentTable),
                Some(entry) => match tables.backend(entry.service_id.raw) {
                    None => Err(Fault::DanglingBackend),
                    Some(backend) => Ok(backend),
                },
            })
        },
{
    if tables.services.contains_key(V4Key::base(addr, port)) {
        let count = tables.services[V4Key::base(addr, port)].count;
        if count >= 1 {
            lemma_fixed_seed_selects_first(count, protocol, draw);
        }
    }
}

/// A base entry that counts no slots refuses the attempt.
pub proof fn law_empty_service_rejects(
    tables: Tables,
    addr: u32,
    port: u16,
    protocol: u32,
    draw: u32,
    bound: bool,
)
    requires
        tables.services.contains_key(V4Key::base(addr, port)),
        tables.services[V4Key::base(addr, port)].count == 0,
    ensures
        spec_try_decide(tables, addr, port, protocol, draw, bound) == Err::<Lb4Backend, Fault>(
            Fault::InconsistentTable,
        ),
        spec_decide(tables, addr, port, protocol, draw, bound) == Verdict::Reject,
{
}

/// A selected slot without an entry refuses the attempt.
pub proof fn law_missing_slot_rejects(
    tables: Tables,
    addr: u32,
    port: u16,
    protocol: u32,
    draw: u32,
    bound: bool,
)
    requires
        tables.services.contains_key(V4Key::base(addr, port)),
        spec_select_slot(tables.services[V4Key::base(addr, port)].count, spec_seed(protocol, draw))
            matches Some(slot) && !tables.services.contains_key(V4Key::slot(addr, port, slot)),
    ensures
        spec_try_decide(tables, addr, port, protocol, draw, bound) == Err::<Lb4Backend, Fault>(
            Fault::InconsistentTable,
        ),
        spec_decide(tables, addr, port, protocol, draw, bound) == Verdict::Reject,
{
}

/// Where a backend is found and a local socket is reported for it, the
/// attempt passes through.
pub proof fn law_hairpin_passes_through(
    tables: Tables,
    addr: u32,
    port: u16,
    protocol: u32,
    draw: u32,
    bound: bool,
)
    requires
        spec_backend_for(tables, addr, port, protocol, draw) is Ok,
        spec_hairpin(protocol, bound),
    ensures
        spec_try_decide(tables, addr, port, protocol, draw, bound) == Err::<Lb4Backend, Fault>(
            Fault::HairpinDetected,
        ),
        spec_decide(tables, addr, port, protocol, draw, bound) == Verdict::PassThrough,
{
}

/// A selected slot that names a backend missing from the backend table
/// refuses the attempt.
pub proof fn law_dangling_backend_rejects(
    tables: Tables,
    addr: u32,
    port: u16,
    protocol: u32,
    draw: u32,
    bound: bool,
)
    requires
        tables.services.contains_key(V4Key::base(addr, port)),
        spec_select_slot(tables.services[V4Key::base(addr, port)].count, spec_seed(protocol, draw))
            matches Some(slot) && tables.services.contains_key(V4Key::slot(addr, port, slot))
            && !tables.backends.contains_key(
            tables.services[V4Key::slot(addr, port, slot)].service_id.raw,
        ),
    ensures
        spec_try_decide(tables, addr, port, protocol, draw, bound) == Err::<Lb4Backend, Fault>(
            Fault::DanglingBackend,
        ),
        spec_decide(tables, addr, port, protocol, draw, bound) == Verdict::Reject,
{
}

/// Asked question by question and answered truthfully, the engine reaches
/// the outcome of the attempt within five questions.
pub proof fn law_engine_reaches_outcome(
    tables: Tables,
    addr: u32,
    port: u16,
    protocol: u32,
    draw: u32,
    bound: bool,
)
    ensures
        spec_run(Engine::spec_start(addr, port, protocol), tables, draw, bound, 5) == Engine::Done(
            spec_try_decide(tables, addr, port, protocol, draw, bound),
        ),
{
    reveal_with_fuel(spec_run, 6);
}

} // verus!
