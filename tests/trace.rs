use interpol::dispatch::{MpiCall, Recorded};
use interpol::error::{InterpolErrorKind, RegisterError};
use interpol::event::Event;
use interpol::mpi_events::collectives::MpiIreduce;
use interpol::mpi_events::management::{MpiFinalize, MpiInit, MpiInitThread};
use interpol::mpi_events::point_to_point::{MpiIrecv, MpiIsend, MpiRecv, MpiSend};
use interpol::mpi_events::synchronization::{MpiTest, MpiWait};
use interpol::registry::{reservation_for, EventLog, Trace};
use interpol::types::Usecs;
use rayon::iter::{IntoParallelIterator, ParallelIterator};

fn call(kind: i8, tsc: u64) -> MpiCall {
    MpiCall {
        time: Usecs::from_bits(2.5f64.to_bits()),
        tsc,
        duration: 30,
        partner_rank: 1,
        current_rank: 0,
        nb_bytes_s: 64,
        nb_bytes_r: 128,
        comm: 0,
        req: 7,
        tag: 42,
        required_thread_lvl: 3,
        provided_thread_lvl: 2,
        finished: true,
        op_type: 4,
        kind,
    }
}

fn wait_event(tsc: u64) -> Event {
    Event::MpiWait(MpiWait::new(0, 1, tsc, 2))
}

#[test]
fn trace_builds() {
    let t = EventLog::new();
    assert_eq!(t.len(), 0);
    assert!(t.events().is_empty());
}

#[test]
fn adds_event() {
    let mut t = EventLog::new();
    let e = Event::MpiIrecv(MpiIrecv::new(1, 0, 8, 0, 0, 0, 69, 420));
    t.register(e).expect("failed to register");
    assert_eq!(t.events()[0], e);
}

#[test]
fn multiple_events() {
    let mut t = EventLog::new();
    let e = Event::MpiIrecv(MpiIrecv::new(1, 0, 8, 0, 0, 0, 69, 420));
    t.register(e).expect("failed to register");
    t.register(wait_event(500)).expect("failed to register");
    assert_eq!(t.events()[0], e);
    assert_eq!(t.len(), 2);
}

#[test]
fn registration_keeps_insertion_order() {
    let mut t = EventLog::new();
    for tsc in [30u64, 10, 20] {
        t.register(wait_event(tsc)).expect("failed to register");
    }
    let order: Vec<u64> = t.events().iter().map(|e| e.tsc()).collect();
    assert_eq!(order, vec![30, 10, 20]);
}

#[test]
fn refused_growth_is_out_of_memory_and_keeps_records() {
    let mut t = EventLog::new();
    t.register(wait_event(1)).expect("failed to register");
    t.register(wait_event(2)).expect("failed to register");
    let refused = Vec::<u8>::new().try_reserve_exact(usize::MAX).unwrap_err();
    let r = t.append_reserved(Err(refused.clone()), wait_event(3));
    assert_eq!(r, Err(RegisterError::OutOfMemory(refused)));
    assert_eq!(t.events().clone(), vec![wait_event(1), wait_event(2)]);
}

#[test]
fn granted_growth_appends() {
    let mut t = EventLog::new();
    let r = t.append_reserved(Ok(()), wait_event(9));
    assert_eq!(r, Ok(()));
    assert_eq!(t.events().clone(), vec![wait_event(9)]);
}

#[test]
fn concurrent_registration_loses_nothing() {
    let threads: u64 = 8;
    let per_thread: u64 = 250;
    let trace = Trace::new();
    (0..threads).into_par_iter().for_each(|id| {
        for k in 0..per_thread {
            trace.register(wait_event(id * 1000 + k)).expect("failed to register");
        }
    });
    let all = trace.snapshot();
    assert_eq!(all.len() as u64, threads * per_thread);
    for id in 0..threads {
        let mine: Vec<u64> =
            all.iter().map(|e| e.tsc()).filter(|t| t / 1000 == id).collect();
        let expected: Vec<u64> = (0..per_thread).map(|k| id * 1000 + k).collect();
        assert_eq!(mine, expected);
    }
}

#[test]
fn unknown_kind_is_ignored() {
    let mut log = EventLog::new();
    log.dispatch(&call(3, 10)).expect("failed to record");
    let r = log.dispatch(&call(99, 11));
    assert_eq!(r.expect("unknown kinds never fail"), Recorded::Ignored);
    assert_eq!(log.len(), 1);
    let r = log.dispatch(&call(-4, 12));
    assert_eq!(r.expect("unknown kinds never fail"), Recorded::Ignored);
    assert_eq!(log.len(), 1);
}

#[test]
fn trace_ignores_unknown_kind() {
    let trace = Trace::new();
    assert!(trace.record(&call(42, 1)).expect("unknown kinds never fail").is_none());
    assert!(trace.snapshot().is_empty());
}

#[test]
fn dispatch_builds_the_record_of_each_kind() {
    let mut log = EventLog::new();
    let time = Usecs::from_bits(2.5f64.to_bits());
    assert_eq!(log.dispatch(&call(0, 1)).unwrap(), Recorded::Added);
    assert_eq!(log.dispatch(&call(1, 2)).unwrap(), Recorded::Added);
    assert_eq!(log.dispatch(&call(3, 3)).unwrap(), Recorded::Added);
    assert_eq!(log.dispatch(&call(4, 4)).unwrap(), Recorded::Added);
    assert_eq!(log.dispatch(&call(5, 5)).unwrap(), Recorded::Added);
    assert_eq!(log.dispatch(&call(7, 6)).unwrap(), Recorded::Added);
    assert_eq!(log.dispatch(&call(13, 7)).unwrap(), Recorded::Added);
    assert_eq!(log.dispatch(&call(2, 8)).unwrap(), Recorded::Finalized);
    let expected = vec![
        Event::MpiInit(MpiInit::new(0, 1, time)),
        Event::MpiInitThread(MpiInitThread::new(0, 2, time, 3, 2)),
        Event::MpiSend(MpiSend::new(0, 1, 64, 0, 42, 3, 30)),
        Event::MpiRecv(MpiRecv::new(0, 1, 128, 0, 42, 4, 30)),
        Event::MpiIsend(MpiIsend::new(0, 1, 64, 0, 7, 42, 5, 30)),
        Event::MpiTest(MpiTest::new(0, 7, true, 6, 30)),
        Event::MpiIreduce(MpiIreduce::new(0, 1, 64, 4, 0, 7, 7, 30)),
        Event::MpiFinalize(MpiFinalize::new(0, 8, time)),
    ];
    assert_eq!(log.events().clone(), expected);
}

#[test]
fn finalize_returns_snapshot_ending_with_it() {
    let trace = Trace::new();
    assert!(trace.record(&call(0, 0)).unwrap().is_none());
    assert!(trace.record(&call(3, 10)).unwrap().is_none());
    let snapshot = trace.record(&call(2, 50)).unwrap().expect("finalize persists");
    assert_eq!(snapshot.len(), 3);
    assert_eq!(snapshot[0].tsc(), 0);
    assert_eq!(
        snapshot[2],
        Event::MpiFinalize(MpiFinalize::new(0, 50, Usecs::from_bits(2.5f64.to_bits())))
    );
    assert_eq!(snapshot[2].rank(), 0);
}

#[test]
fn register_failure_keeps_allocator_report() {
    let refused = Vec::<u8>::new().try_reserve_exact(usize::MAX).unwrap_err();
    let text = refused.to_string();
    let e = interpol::error::InterpolError::from_register(RegisterError::OutOfMemory(refused));
    assert_eq!(e.kind(), InterpolErrorKind::TryReserve);
    assert_eq!(e.reason, text);
    assert_eq!(e.message(), format!("Memory allocation error: {}", text));
}

#[test]
fn reservation_doubles_the_length() {
    assert_eq!(reservation_for(0), 0);
    assert_eq!(reservation_for(1), 2);
    assert_eq!(reservation_for(1000), 2000);
    assert_eq!(reservation_for(usize::MAX / 2), usize::MAX - 1);
    assert_eq!(reservation_for(usize::MAX / 2 + 1), usize::MAX);
    assert_eq!(reservation_for(usize::MAX), usize::MAX);
}

#[test]
fn unknown_reduction_op_is_rejected() {
    let mut log = EventLog::new();
    log.dispatch(&call(0, 1)).expect("failed to record");
    let mut bad = call(13, 2);
    bad.op_type = 14;
    let e = log.dispatch(&bad).expect_err("unknown operation codes are refused");
    assert_eq!(e.kind(), InterpolErrorKind::Builder);
    assert_eq!(e.reason, "`op_type` has an invalid value");
    assert_eq!(log.len(), 1);
    let mut send = call(3, 3);
    send.op_type = -7;
    assert_eq!(log.dispatch(&send).unwrap(), Recorded::Added);
    assert_eq!(log.len(), 2);
}

#[test]
fn trace_rejects_unknown_reduction_op() {
    let trace = Trace::new();
    let mut bad = call(13, 2);
    bad.op_type = -1;
    assert!(trace.record(&bad).is_err());
    assert!(trace.snapshot().is_empty());
}

#[test]
fn per_kind_entry_point_records() {
    let mut log = EventLog::new();
    log.register_barrier(2, 0, 77, 5).expect("failed to register");
    log.register_ireduce(2, 0, 16, interpol::types::MpiOp::Max, 0, 3, 80, 6)
        .expect("failed to register");
    assert_eq!(
        log.events().clone(),
        vec![
            Event::MpiBarrier(interpol::mpi_events::synchronization::MpiBarrier::new(2, 0, 77, 5)),
            Event::MpiIreduce(MpiIreduce::new(2, 0, 16, 1, 0, 3, 80, 6)),
        ]
    );
}
