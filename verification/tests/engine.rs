use proxy::engine::verdict_of;
use proxy::{
    Answer, Engine, Fault, Lb4Backend, Lb4Service, Probe, Query, V4Key, Verdict, IPPROTO_TCP,
    IPPROTO_UDP,
};

fn backend() -> Lb4Backend {
    Lb4Backend::new(0x0200_000a, 0x5000, 6)
}

#[test]
fn engine_asks_for_the_base_entry_first() {
    let engine = Engine::start(0x0100_000a, 0x5000, IPPROTO_TCP);
    assert_eq!(engine.pending(), Some(Query::Service(V4Key::base(0x0100_000a, 0x5000))));
    assert_eq!(engine.outcome(), None);
    assert_eq!(engine.verdict(), None);
}

#[test]
fn engine_tcp_runs_through_five_questions() {
    let engine = Engine::start(10, 80, IPPROTO_TCP);
    let engine = engine.step(Answer::Service(Some(Lb4Service::base(4))));
    assert_eq!(engine.pending(), Some(Query::Random));
    let engine = engine.step(Answer::Random(6));
    // 6 mod 4 = 2, so slot 3
    assert_eq!(engine.pending(), Some(Query::Service(V4Key::slot(10, 80, 3))));
    let engine = engine.step(Answer::Service(Some(Lb4Service::slot(77))));
    assert_eq!(engine.pending(), Some(Query::Backend(77)));
    let engine = engine.step(Answer::Backend(Some(backend())));
    assert_eq!(
        engine.pending(),
        Some(Query::Socket { probe: Probe::Tcp, addr: 0x0200_000a, port: 0x5000 })
    );
    let engine = engine.step(Answer::Socket(false));
    assert_eq!(engine.pending(), None);
    assert_eq!(engine.outcome(), Some(Ok(backend())));
    assert_eq!(engine.verdict(), Some(Verdict::Redirect { addr: 0x0200_000a, port: 0x5000 }));
}

#[test]
fn engine_udp_asks_for_no_random_number() {
    let engine = Engine::start(10, 80, IPPROTO_UDP);
    let engine = engine.step(Answer::Service(Some(Lb4Service::base(4))));
    assert_eq!(engine.pending(), Some(Query::Service(V4Key::slot(10, 80, 1))));
    let engine = engine.step(Answer::Service(Some(Lb4Service::slot(77))));
    let engine = engine.step(Answer::Backend(Some(backend())));
    assert_eq!(
        engine.pending(),
        Some(Query::Socket { probe: Probe::Udp, addr: 0x0200_000a, port: 0x5000 })
    );
    let engine = engine.step(Answer::Socket(true));
    assert_eq!(engine.outcome(), Some(Err(Fault::HairpinDetected)));
    assert_eq!(engine.verdict(), Some(Verdict::PassThrough));
}

#[test]
fn engine_other_protocol_asks_for_no_socket() {
    let engine = Engine::start(10, 80, 1);
    let engine = engine.step(Answer::Service(Some(Lb4Service::base(2))));
    assert_eq!(engine.pending(), Some(Query::Service(V4Key::slot(10, 80, 1))));
    let engine = engine.step(Answer::Service(Some(Lb4Service::slot(5))));
    let engine = engine.step(Answer::Backend(Some(backend())));
    assert_eq!(engine.pending(), None);
    assert_eq!(engine.outcome(), Some(Ok(backend())));
}

#[test]
fn engine_stops_at_each_miss() {
    let start = Engine::start(10, 80, IPPROTO_TCP);
    let unmanaged = start.step(Answer::Service(None));
    assert_eq!(unmanaged.outcome(), Some(Err(Fault::NotManaged)));
    assert_eq!(unmanaged.verdict(), Some(Verdict::PassThrough));

    let empty = start.step(Answer::Service(Some(Lb4Service::base(0))));
    assert_eq!(empty.outcome(), Some(Err(Fault::InconsistentTable)));
    assert_eq!(empty.verdict(), Some(Verdict::Reject));

    let drawn = start.step(Answer::Service(Some(Lb4Service::base(1)))).step(Answer::Random(9));
    assert_eq!(drawn.pending(), Some(Query::Service(V4Key::slot(10, 80, 1))));
    let no_slot = drawn.step(Answer::Service(None));
    assert_eq!(no_slot.outcome(), Some(Err(Fault::InconsistentTable)));
    assert_eq!(no_slot.verdict(), Some(Verdict::Reject));

    let no_backend = drawn.step(Answer::Service(Some(Lb4Service::slot(3)))).step(Answer::Backend(None));
    assert_eq!(no_backend.outcome(), Some(Err(Fault::DanglingBackend)));
    assert_eq!(no_backend.verdict(), Some(Verdict::Reject));
}

#[test]
fn engine_ignores_an_answer_to_another_question() {
    let start = Engine::start(10, 80, IPPROTO_TCP);
    assert_eq!(start.step(Answer::Random(1)), start);
    assert_eq!(start.step(Answer::Backend(None)), start);
    assert_eq!(start.step(Answer::Socket(true)), start);

    let draw = start.step(Answer::Service(Some(Lb4Service::base(2))));
    assert_eq!(draw.step(Answer::Service(None)), draw);
    assert_eq!(draw.step(Answer::Socket(true)), draw);

    let slot = draw.step(Answer::Random(0));
    assert_eq!(slot.step(Answer::Random(1)), slot);
    assert_eq!(slot.step(Answer::Backend(Some(backend()))), slot);

    let wait_backend = slot.step(Answer::Service(Some(Lb4Service::slot(1))));
    assert_eq!(wait_backend.step(Answer::Service(None)), wait_backend);

    let hairpin = wait_backend.step(Answer::Backend(Some(backend())));
    assert_eq!(hairpin.step(Answer::Backend(None)), hairpin);

    let done = hairpin.step(Answer::Socket(false));
    assert_eq!(done.step(Answer::Socket(true)), done);
    assert_eq!(done.step(Answer::Service(None)), done);
    assert_eq!(done.outcome(), Some(Ok(backend())));
}

#[test]
fn fault_verdicts() {
    assert_eq!(Fault::NotManaged.verdict(), Verdict::PassThrough);
    assert_eq!(Fault::InconsistentTable.verdict(), Verdict::Reject);
    assert_eq!(Fault::DanglingBackend.verdict(), Verdict::Reject);
    assert_eq!(Fault::HairpinDetected.verdict(), Verdict::PassThrough);
    assert_eq!(verdict_of(Err(Fault::DanglingBackend)), Verdict::Reject);
    assert_eq!(
        verdict_of(Ok(Lb4Backend { address: 1, port: 2, proto: 3, flags: 4 })),
        Verdict::Redirect { addr: 1, port: 2 }
    );
}

#[test]
fn probe_by_protocol() {
    assert_eq!(Probe::for_protocol(6), Some(Probe::Tcp));
    assert_eq!(Probe::for_protocol(17), Some(Probe::Udp));
    assert_eq!(Probe::for_protocol(0), None);
    assert_eq!(Probe::for_protocol(1), None);
    assert_eq!(Probe::for_protocol(u32::MAX), None);
}
