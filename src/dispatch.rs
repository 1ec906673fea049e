//! The entry surface of the engine: a flattened call description is turned
//! into the record of its kind and registered.

use crate::error::{invalid_reason, BuildError, Field, InterpolError, InterpolErrorKind};
use crate::event::Event;
use crate::mpi_events::collectives::{
    MpiIbcast, MpiIbcastBuilder, MpiIgather, MpiIgatherBuilder, MpiIreduce, MpiIreduceBuilder,
    MpiIscatter, MpiIscatterBuilder,
};
use crate::mpi_events::management::{
    MpiFinalize, MpiFinalizeBuilder, MpiInit, MpiInitBuilder, MpiInitThread, MpiInitThreadBuilder,
};
use crate::mpi_events::point_to_point::{
    MpiIrecv, MpiIrecvBuilder, MpiIsend, MpiIsendBuilder, MpiRecv, MpiRecvBuilder, MpiSend,
    MpiSendBuilder,
};
use crate::mpi_events::synchronization::{
    MpiBarrier, MpiBarrierBuilder, MpiIbarrier, MpiIbarrierBuilder, MpiTest, MpiTestBuilder,
    MpiWait, MpiWaitBuilder,
};
use crate::registry::{copy_events, EventLog, Trace};
use crate::types::{
    call_type_of, op_code, MpiCallType, MpiComm, MpiOp, MpiRank, MpiReq, MpiTag, Tsc, Usecs,
};
use vstd::prelude::*;

verus! {

/// One traced call as the interposition layer describes it: a kind
/// discriminator and the union of the fields that any kind needs.
#[derive(Clone, Copy, Debug, PartialEq, Eq, Structural)]
pub struct MpiCall {
    pub time: Usecs,
    pub tsc: Tsc,
    pub duration: Tsc,
    pub partner_rank: MpiRank,
    pub current_rank: MpiRank,
    pub nb_bytes_s: u32,
    pub nb_bytes_r: u32,
    pub comm: MpiComm,
    pub req: MpiReq,
    pub tag: MpiTag,
    pub required_thread_lvl: i32,
    pub provided_thread_lvl: i32,
    pub finished: bool,
    /// Code of the reduction operation, decoded by `MpiOp::from_code`.
    pub op_type: i8,
    /// Wire discriminator of the kind, decoded by `MpiCallType::from_code`.
    pub kind: i8,
}

/// What a dispatched call did to the log.
#[derive(Clone, Copy, Debug, PartialEq, Eq, Structural)]
pub enum Recorded {
    /// The discriminator named no known kind; nothing was recorded.
    Ignored,
    /// The record was appended.
    Added,
    /// The finalize record was appended: the log is ready to be persisted.
    Finalized,
}

/// The failure reported when the registry could not grow.
pub open spec fn is_out_of_memory(e: InterpolError) -> bool {
    e.kind == InterpolErrorKind::TryReserve
}

/// The record that a call description of kind `kind` stands for; `None`
/// for a reduction whose operation code names no operation.
pub open spec fn event_of(call: MpiCall, kind: MpiCallType) -> Option<Event> {
    match kind {
        MpiCallType::Init => Some(
            Event::MpiInit(
                MpiInit {
                    current_rank: call.current_rank,
                    tsc: call.tsc,
                    time: call.time,
                },
            )
        ),
        MpiCallType::Initthread => Some(
            Event::MpiInitThread(
                MpiInitThread {
                    current_rank: call.current_rank,
                    required_thread_lvl: call.required_thread_lvl,
                    provided_thread_lvl: call.provided_thread_lvl,
                    tsc: call.tsc,
                    time: call.time,
                },
            )
        ),
        MpiCallType::Finalize => Some(
            Event::MpiFinalize(
                MpiFinalize {
                    current_rank: call.current_rank,
                    tsc: call.tsc,
                    time: call.time,
                },
            )
        ),
        MpiCallType::Send => Some(
            Event::MpiSend(
                MpiSend {
                    current_rank: call.current_rank,
                    partner_rank: call.partner_rank,
                    nb_bytes: call.nb_bytes_s,
                    comm: call.comm,
                    tag: call.tag,
                    tsc: call.tsc,
                    duration: call.duration,
                },
            )
        ),
        MpiCallType::Recv => Some(
            Event::MpiRecv(
                MpiRecv {
                    current_rank: call.current_rank,
                    partner_rank: call.partner_rank,
                    nb_bytes: call.nb_bytes_r,
                    comm: call.comm,
                    tag: call.tag,
                    tsc: call.tsc,
                    duration: call.duration,
                },
            )
        ),
        MpiCallType::Isend => Some(
            Event::MpiIsend(
                MpiIsend {
                    current_rank: call.current_rank,
                    partner_rank: call.partner_rank,
                    nb_bytes: call.nb_bytes_s,
                    comm: call.comm,
                    req: call.req,
                    tag: call.tag,
                    tsc: call.tsc,
                    duration: call.duration,
                },
            )
        ),
        MpiCallType::Irecv => Some(
            Event::MpiIrecv(
                MpiIrecv {
                    current_rank: call.current_rank,
                    partner_rank: call.partner_rank,
                    nb_bytes: call.nb_bytes_r,
                    comm: call.comm,
                    req: call.req,
                    tag: call.tag,
                    tsc: call.tsc,
                    duration: call.duration,
                },
            )
        ),
        MpiCallType::Test => Some(
            Event::MpiTest(
                MpiTest {
                    current_rank: call.current_rank,
                    req: call.req,
                    finished: call.finished,
                    tsc: call.tsc,
                    duration: call.duration,
                },
            )
        ),
        MpiCallType::Wait => Some(
            Event::MpiWait(
                MpiWait {
                    current_rank: call.current_rank,
                    req: call.req,
                    tsc: call.tsc,
                    duration: call.duration,
                },
            )
        ),
        MpiCallType::Barrier => Some(
            Event::MpiBarrier(
                MpiBarrier {
                    current_rank: call.current_rank,
                    comm: call.comm,
                    tsc: call.tsc,
                    duration: call.duration,
                },
            )
        ),
        MpiCallType::Ibarrier => Some(
            Event::MpiIbarrier(
                MpiIbarrier {
                    current_rank: call.current_rank,
                    comm: call.comm,
                    req: call.req,
                    tsc: call.tsc,
                    duration: call.duration,
                },
            )
        ),
        MpiCallType::Ibcast => Some(
            Event::MpiIbcast(
                MpiIbcast {
                    current_rank: call.current_rank,
                    partner_rank: call.partner_rank,
                    nb_bytes: call.nb_bytes_s,
                    comm: call.comm,
                    req: call.req,
                    tsc: call.tsc,
                    duration: call.duration,
                },
            )
        ),
        MpiCallType::Igather => Some(
            Event::MpiIgather(
                MpiIgather {
                    current_rank: call.current_rank,
                    partner_rank: call.partner_rank,
                    nb_bytes_send: call.nb_bytes_s,
                    nb_bytes_recv: call.nb_bytes_r,
                    comm: call.comm,
                    req: call.req,
                    tsc: call.tsc,
                    duration: call.duration,
                },
            )
        ),
        MpiCallType::Ireduce => if 0 <= call.op_type < 14 {
            Some(
                Event::MpiIreduce(
                    MpiIreduce {
                        current_rank: call.current_rank,
                        root_rank: call.partner_rank,
                        nb_bytes: call.nb_bytes_s,
                        op_type: call.op_type as u8,
                        comm: call.comm,
                        req: call.req,
                        tsc: call.tsc,
                        duration: call.duration,
                    },
                )
            )
        } else {
            None
        },
        MpiCallType::Iscatter => Some(
            Event::MpiIscatter(
                MpiIscatter {
                    current_rank: call.current_rank,
                    partner_rank: call.partner_rank,
                    nb_bytes_send: call.nb_bytes_s,
                    nb_bytes_recv: call.nb_bytes_r,
                    comm: call.comm,
                    req: call.req,
                    tsc: call.tsc,
                    duration: call.duration,
                },
            )
        ),
    }
}

/// The `MpiInit` record of the given fields, built through its builder.
pub fn init_record(
    current_rank: MpiRank,
    tsc: Tsc,
    time: Usecs,
) -> (r: Result<Event, InterpolError>)
    ensures
        r == Ok::<Event, InterpolError>(
            Event::MpiInit(
                MpiInit {
                    current_rank: current_rank,
                    tsc: tsc,
                    time: time,
                },
            ),
        ),
{
    let built = MpiInitBuilder::default()
        .current_rank(current_rank)
        .tsc(tsc)
        .time(time)
        .build();
    match built {
        Ok(record) => Ok(Event::MpiInit(record)),
        Err(e) => Err(InterpolError::from_build(e)),
    }
}

/// The `MpiInitThread` record of the given fields, built through its builder.
pub fn init_thread_record(
    current_rank: MpiRank,
    required_thread_lvl: i32,
    provided_thread_lvl: i32,
    tsc: Tsc,
    time: Usecs,
) -> (r: Result<Event, InterpolError>)
    ensures
        r == Ok::<Event, InterpolError>(
            Event::MpiInitThread(
                MpiInitThread {
                    current_rank: current_rank,
                    required_thread_lvl: required_thread_lvl,
                    provided_thread_lvl: provided_thread_lvl,
                    tsc: tsc,
                    time: time,
                },
            ),
        ),
{
    let built = MpiInitThreadBuilder::default()
        .current_rank(current_rank)
        .required_thread_lvl(required_thread_lvl)
        .provided_thread_lvl(provided_thread_lvl)
        .tsc(tsc)
        .time(time)
        .build();
    match built {
        Ok(record) => Ok(Event::MpiInitThread(record)),
        Err(e) => Err(InterpolError::from_build(e)),
    }
}

/// The `MpiFinalize` record of the given fields, built through its builder.
pub fn finalize_record(
    current_rank: MpiRank,
    tsc: Tsc,
    time: Usecs,
) -> (r: Result<Event, InterpolError>)
    ensures
        r == Ok::<Event, InterpolError>(
            Event::MpiFinalize(
                MpiFinalize {
                    current_rank: current_rank,
                    tsc: tsc,
                    time: time,
                },
            ),
        ),
{
    let built = MpiFinalizeBuilder::default()
        .current_rank(current_rank)
        .tsc(tsc)
        .time(time)
        .build();
    match built {
        Ok(record) => Ok(Event::MpiFinalize(record)),
        Err(e) => Err(InterpolError::from_build(e)),
    }
}

/// The `MpiSend` record of the given fields, built through its builder.
pub fn send_record(
    current_rank: MpiRank,
    partner_rank: MpiRank,
    nb_bytes: u32,
    comm: MpiComm,
    tag: MpiTag,
    tsc: Tsc,
    duration: Tsc,
) -> (r: Result<Event, InterpolError>)
    ensures
        r == Ok::<Event, InterpolError>(
            Event::MpiSend(
                MpiSend {
                    current_rank: current_rank,
                    partner_rank: partner_rank,
                    nb_bytes: nb_bytes,
                    comm: comm,
                    tag: tag,
                    tsc: tsc,
                    duration: duration,
                },
            ),
        ),
{
    let built = MpiSendBuilder::default()
        .current_rank(current_rank)
        .partner_rank(partner_rank)
        .nb_bytes(nb_bytes)
        .comm(comm)
        .tag(tag)
        .tsc(tsc)
        .duration(duration)
        .build();
    match built {
        Ok(record) => Ok(Event::MpiSend(record)),
        Err(e) => Err(InterpolError::from_build(e)),
    }
}

/// The `MpiRecv` record of the given fields, built through its builder.
pub fn recv_record(
    current_rank: MpiRank,
    partner_rank: MpiRank,
    nb_bytes: u32,
    comm: MpiComm,
    tag: MpiTag,
    tsc: Tsc,
    duration: Tsc,
) -> (r: Result<Event, InterpolError>)
    ensures
        r == Ok::<Event, InterpolError>(
            Event::MpiRecv(
                MpiRecv {
                    current_rank: current_rank,
                    partner_rank: partner_rank,
                    nb_bytes: nb_bytes,
                    comm: comm,
                    tag: tag,
                    tsc: tsc,
                    duration: duration,
                },
            ),
        ),
{
    let built = MpiRecvBuilder::default()
        .current_rank(current_rank)
        .partner_rank(partner_rank)
        .nb_bytes(nb_bytes)
        .comm(comm)
        .tag(tag)
        .tsc(tsc)
        .duration(duration)
        .build();
    match built {
        Ok(record) => Ok(Event::MpiRecv(record)),
        Err(e) => Err(InterpolError::from_build(e)),
    }
}

/// The `MpiIsend` record of the given fields, built through its builder.
pub fn isend_record(
    current_rank: MpiRank,
    partner_rank: MpiRank,
    nb_bytes: u32,
    comm: MpiComm,
    req: MpiReq,
    tag: MpiTag,
    tsc: Tsc,
    duration: Tsc,
) -> (r: Result<Event, InterpolError>)
    ensures
        r == Ok::<Event, InterpolError>(
            Event::MpiIsend(
                MpiIsend {
                    current_rank: current_rank,
                    partner_rank: partner_rank,
                    nb_bytes: nb_bytes,
                    comm: comm,
                    req: req,
                    tag: tag,
                    tsc: tsc,
                    duration: duration,
                },
            ),
        ),
{
    let built = MpiIsendBuilder::default()
        .current_rank(current_rank)
        .partner_rank(partner_rank)
        .nb_bytes(nb_bytes)
        .comm(comm)
        .req(req)
        .tag(tag)
        .tsc(tsc)
        .duration(duration)
        .build();
    match built {
        Ok(record) => Ok(Event::MpiIsend(record)),
        Err(e) => Err(InterpolError::from_build(e)),
    }
}

/// The `MpiIrecv` record of the given fields, built through its builder.
pub fn irecv_record(
    current_rank: MpiRank,
    partner_rank: MpiRank,
    nb_bytes: u32,
    comm: MpiComm,
    req: MpiReq,
    tag: MpiTag,
    tsc: Tsc,
    duration: Tsc,
) -> (r: Result<Event, InterpolError>)
    ensures
        r == Ok::<Event, InterpolError>(
            Event::MpiIrecv(
                MpiIrecv {
                    current_rank: current_rank,
                    partner_rank: partner_rank,
                    nb_bytes: nb_bytes,
                    comm: comm,
                    req: req,
                    tag: tag,
                    tsc: tsc,
                    duration: duration,
                },
            ),
        ),
{
    let built = MpiIrecvBuilder::default()
        .current_rank(current_rank)
        .partner_rank(partner_rank)
        .nb_bytes(nb_bytes)
        .comm(comm)
        .req(req)
        .tag(tag)
        .tsc(tsc)
        .duration(duration)
        .build();
    match built {
        Ok(record) => Ok(Event::MpiIrecv(record)),
        Err(e) => Err(InterpolError::from_build(e)),
    }
}

/// The `MpiTest` record of the given fields, built through its builder.
pub fn test_record(
    current_rank: MpiRank,
    req: MpiReq,
    finished: bool,
    tsc: Tsc,
    duration: Tsc,
) -> (r: Result<Event, InterpolError>)
    ensures
        r == Ok::<Event, InterpolError>(
            Event::MpiTest(
                MpiTest {
                    current_rank: current_rank,
                    req: req,
                    finished: finished,
                    tsc: tsc,
                    duration: duration,
                },
            ),
        ),
{
    let built = MpiTestBuilder::default()
        .current_rank(current_rank)
        .req(req)
        .finished(finished)
        .tsc(tsc)
        .duration(duration)
        .build();
    match built {
        Ok(record) => Ok(Event::MpiTest(record)),
        Err(e) => Err(InterpolError::from_build(e)),
    }
}

/// The `MpiWait` record of the given fields, built through its builder.
pub fn wait_record(
    current_rank: MpiRank,
    req: MpiReq,
    tsc: Tsc,
    duration: Tsc,
) -> (r: Result<Event, InterpolError>)
    ensures
        r == Ok::<Event, InterpolError>(
            Event::MpiWait(
                MpiWait {
                    current_rank: current_rank,
                    req: req,
                    tsc: tsc,
                    duration: duration,
                },
            ),
        ),
{
    let built = MpiWaitBuilder::default()
        .current_rank(current_rank)
        .req(req)
        .tsc(tsc)
        .duration(duration)
        .build();
    match built {
        Ok(record) => Ok(Event::MpiWait(record)),
        Err(e) => Err(InterpolError::from_build(e)),
    }
}

/// The `MpiBarrier` record of the given fields, built through its builder.
pub fn barrier_record(
    current_rank: MpiRank,
    comm: MpiComm,
    tsc: Tsc,
    duration: Tsc,
) -> (r: Result<Event, InterpolError>)
    ensures
        r == Ok::<Event, InterpolError>(
            Event::MpiBarrier(
                MpiBarrier {
                    current_rank: current_rank,
                    comm: comm,
                    tsc: tsc,
                    duration: duration,
                },
            ),
        ),
{
    let built = MpiBarrierBuilder::default()
        .current_rank(current_rank)
        .comm(comm)
        .tsc(tsc)
        .duration(duration)
        .build();
    match built {
        Ok(record) => Ok(Event::MpiBarrier(record)),
        Err(e) => Err(InterpolError::from_build(e)),
    }
}

/// The `MpiIbarrier` record of the given fields, built through its builder.
pub fn ibarrier_record(
    current_rank: MpiRank,
    comm: MpiComm,
    req: MpiReq,
    tsc: Tsc,
    duration: Tsc,
) -> (r: Result<Event, InterpolError>)
    ensures
        r == Ok::<Event, InterpolError>(
            Event::MpiIbarrier(
                MpiIbarrier {
                    current_rank: current_rank,
                    comm: comm,
                    req: req,
                    tsc: tsc,
                    duration: duration,
                },
            ),
        ),
{
    let built = MpiIbarrierBuilder::default()
        .current_rank(current_rank)
        .comm(comm)
        .req(req)
        .tsc(tsc)
        .duration(duration)
        .build();
    match built {
        Ok(record) => Ok(Event::MpiIbarrier(record)),
        Err(e) => Err(InterpolError::from_build(e)),
    }
}

/// The `MpiIbcast` record of the given fields, built through its builder.
pub fn ibcast_record(
    current_rank: MpiRank,
    partner_rank: MpiRank,
    nb_bytes: u32,
    comm: MpiComm,
    req: MpiReq,
    tsc: Tsc,
    duration: Tsc,
) -> (r: Result<Event, InterpolError>)
    ensures
        r == Ok::<Event, InterpolError>(
            Event::MpiIbcast(
                MpiIbcast {
                    current_rank: current_rank,
                    partner_rank: partner_rank,
                    nb_bytes: nb_bytes,
                    comm: comm,
                    req: req,
                    tsc: tsc,
                    duration: duration,
                },
            ),
        ),
{
    let built = MpiIbcastBuilder::default()
        .current_rank(current_rank)
        .partner_rank(partner_rank)
        .nb_bytes(nb_bytes)
        .comm(comm)
        .req(req)
        .tsc(tsc)
        .duration(duration)
        .build();
    match built {
        Ok(record) => Ok(Event::MpiIbcast(record)),
        Err(e) => Err(InterpolError::from_build(e)),
    }
}

/// The `MpiIgather` record of the given fields, built through its builder.
pub fn igather_record(
    current_rank: MpiRank,
    partner_rank: MpiRank,
    nb_bytes_send: u32,
    nb_bytes_recv: u32,
    comm: MpiComm,
    req: MpiReq,
    tsc: Tsc,
    duration: Tsc,
) -> (r: Result<Event, InterpolError>)
    ensures
        r == Ok::<Event, InterpolError>(
            Event::MpiIgather(
                MpiIgather {
                    current_rank: current_rank,
                    partner_rank: partner_rank,
                    nb_bytes_send: nb_bytes_send,
                    nb_bytes_recv: nb_bytes_recv,
                    comm: comm,
                    req: req,
                    tsc: tsc,
                    duration: duration,
                },
            ),
        ),
{
    let built = MpiIgatherBuilder::default()
        .current_rank(current_rank)
        .partner_rank(partner_rank)
        .nb_bytes_send(nb_bytes_send)
        .nb_bytes_recv(nb_bytes_recv)
        .comm(comm)
        .req(req)
        .tsc(tsc)
        .duration(duration)
        .build();
    match built {
        Ok(record) => Ok(Event::MpiIgather(record)),
        Err(e) => Err(InterpolError::from_build(e)),
    }
}

/// The `MpiIreduce` record of the given fields, built through its builder.
pub fn ireduce_record(
    current_rank: MpiRank,
    partner_rank: MpiRank,
    nb_bytes: u32,
    op_type: MpiOp,
    comm: MpiComm,
    req: MpiReq,
    tsc: Tsc,
    duration: Tsc,
) -> (r: Result<Event, InterpolError>)
    ensures
        r == Ok::<Event, InterpolError>(
            Event::MpiIreduce(
                MpiIreduce {
                    current_rank: current_rank,
                    root_rank: partner_rank,
                    nb_bytes: nb_bytes,
                    op_type: op_code(op_type),
                    comm: comm,
                    req: req,
                    tsc: tsc,
                    duration: duration,
                },
            ),
        ),
{
    let built = MpiIreduceBuilder::default()
        .current_rank(current_rank)
        .root_rank(partner_rank)
        .nb_bytes(nb_bytes)
        .op_type(op_type.code())
        .comm(comm)
        .req(req)
        .tsc(tsc)
        .duration(duration)
        .build();
    match built {
        Ok(record) => Ok(Event::MpiIreduce(record)),
        Err(e) => Err(InterpolError::from_build(e)),
    }
}

/// The `MpiIscatter` record of the given fields, built through its builder.
pub fn iscatter_record(
    current_rank: MpiRank,
    partner_rank: MpiRank,
    nb_bytes_send: u32,
    nb_bytes_recv: u32,
    comm: MpiComm,
    req: MpiReq,
    tsc: Tsc,
    duration: Tsc,
) -> (r: Result<Event, InterpolError>)
    ensures
        r == Ok::<Event, InterpolError>(
            Event::MpiIscatter(
                MpiIscatter {
                    current_rank: current_rank,
                    partner_rank: partner_rank,
                    nb_bytes_send: nb_bytes_send,
                    nb_bytes_recv: nb_bytes_recv,
                    comm: comm,
                    req: req,
                    tsc: tsc,
                    duration: duration,
                },
            ),
        ),
{
    let built = MpiIscatterBuilder::default()
        .current_rank(current_rank)
        .partner_rank(partner_rank)
        .nb_bytes_send(nb_bytes_send)
        .nb_bytes_recv(nb_bytes_recv)
        .comm(comm)
        .req(req)
        .tsc(tsc)
        .duration(duration)
        .build();
    match built {
        Ok(record) => Ok(Event::MpiIscatter(record)),
        Err(e) => Err(InterpolError::from_build(e)),
    }
}

/// The failure reported for a reduction whose operation code is unknown.
pub open spec fn is_invalid_op(e: InterpolError) -> bool {
    e.kind == InterpolErrorKind::Builder && e.reason@ == invalid_reason(Field::OpType)
}

/// The record that `call` stands for once its kind is known.
pub fn record_of(call: &MpiCall, kind: MpiCallType) -> (r: Result<Event, InterpolError>)
    ensures
        event_of(*call, kind) is Some ==> r == Ok::<Event, InterpolError>(
            event_of(*call, kind)->0,
        ),
        event_of(*call, kind) is None ==> r is Err && is_invalid_op(r->Err_0),
{
    match kind {
        MpiCallType::Init => init_record(call.current_rank, call.tsc, call.time),
        MpiCallType::Initthread => init_thread_record(
            call.current_rank,
            call.required_thread_lvl,
            call.provided_thread_lvl,
            call.tsc,
            call.time,
        ),
        MpiCallType::Finalize => finalize_record(call.current_rank, call.tsc, call.time),
        MpiCallType::Send => send_record(
            call.current_rank,
            call.partner_rank,
            call.nb_bytes_s,
            call.comm,
            call.tag,
            call.tsc,
            call.duration,
        ),
        MpiCallType::Recv => recv_record(
            call.current_rank,
            call.partner_rank,
            call.nb_bytes_r,
            call.comm,
            call.tag,
            call.tsc,
            call.duration,
        ),
        MpiCallType::Isend => isend_record(
            call.current_rank,
            call.partner_rank,
            call.nb_bytes_s,
            call.comm,
            call.req,
            call.tag,
            call.tsc,
            call.duration,
        ),
        MpiCallType::Irecv => irecv_record(
            call.current_rank,
            call.partner_rank,
            call.nb_bytes_r,
            call.comm,
            call.req,
            call.tag,
            call.tsc,
            call.duration,
        ),
        MpiCallType::Test => test_record(
            call.current_rank,
            call.req,
            call.finished,
            call.tsc,
            call.duration,
        ),
        MpiCallType::Wait => wait_record(call.current_rank, call.req, call.tsc, call.duration),
        MpiCallType::Barrier => barrier_record(
            call.current_rank,
            call.comm,
            call.tsc,
            call.duration,
        ),
        MpiCallType::Ibarrier => ibarrier_record(
            call.current_rank,
            call.comm,
            call.req,
            call.tsc,
            call.duration,
        ),
        MpiCallType::Ibcast => ibcast_record(
            call.current_rank,
            call.partner_rank,
            call.nb_bytes_s,
            call.comm,
            call.req,
            call.tsc,
            call.duration,
        ),
        MpiCallType::Igather => igather_record(
            call.current_rank,
            call.partner_rank,
            call.nb_bytes_s,
            call.nb_bytes_r,
            call.comm,
            call.req,
            call.tsc,
            call.duration,
        ),
        MpiCallType::Ireduce => match MpiOp::from_code(call.op_type) {
            Some(op) => ireduce_record(
                call.current_rank,
                call.partner_rank,
                call.nb_bytes_s,
                op,
                call.comm,
                call.req,
                call.tsc,
                call.duration,
            ),
            None => Err(InterpolError::from_build(BuildError::InvalidField(Field::OpType))),
        },
        MpiCallType::Iscatter => iscatter_record(
            call.current_rank,
            call.partner_rank,
            call.nb_bytes_s,
            call.nb_bytes_r,
            call.comm,
            call.req,
            call.tsc,
            call.duration,
        ),
    }
}

impl EventLog {
    /// Records a `MpiInit` built from the given fields.
    pub fn register_init(
        &mut self,
        current_rank: MpiRank,
        tsc: Tsc,
        time: Usecs,
    ) -> (r: Result<(), InterpolError>)
        ensures
            r is Ok ==> final(self)@ == old(self)@.push(
                Event::MpiInit(
                    MpiInit {
                        current_rank: current_rank,
                        tsc: tsc,
                        time: time,
                    },
                ),
            ),
            r is Err ==> final(self)@ == old(self)@ && is_out_of_memory(r->Err_0),
    {
        let record = match init_record(current_rank, tsc, time) {
            Ok(record) => record,
            Err(e) => return Err(e),
        };
        match self.register(record) {
            Ok(()) => Ok(()),
            Err(e) => Err(InterpolError::from_register(e)),
        }
    }

    /// Records a `MpiInitThread` built from the given fields.
    pub fn register_init_thread(
        &mut self,
        current_rank: MpiRank,
        required_thread_lvl: i32,
        provided_thread_lvl: i32,
        tsc: Tsc,
        time: Usecs,
    ) -> (r: Result<(), InterpolError>)
        ensures
            r is Ok ==> final(self)@ == old(self)@.push(
                Event::MpiInitThread(
                    MpiInitThread {
                        current_rank: current_rank,
                        required_thread_lvl: required_thread_lvl,
                        provided_thread_lvl: provided_thread_lvl,
                        tsc: tsc,
                        time: time,
                    },
                ),
            ),
            r is Err ==> final(self)@ == old(self)@ && is_out_of_memory(r->Err_0),
    {
        let record = match init_thread_record(
            current_rank,
            required_thread_lvl,
            provided_thread_lvl,
            tsc,
            time,
        ) {
            Ok(record) => record,
            Err(e) => return Err(e),
        };
        match self.register(record) {
            Ok(()) => Ok(()),
            Err(e) => Err(InterpolError::from_register(e)),
        }
    }

    /// Records a `MpiFinalize` built from the given fields.
    pub fn register_finalize(
        &mut self,
        current_rank: MpiRank,
        tsc: Tsc,
        time: Usecs,
    ) -> (r: Result<(), InterpolError>)
        ensures
            r is Ok ==> final(self)@ == old(self)@.push(
                Event::MpiFinalize(
                    MpiFinalize {
                        current_rank: current_rank,
                        tsc: tsc,
                        time: time,
                    },
                ),
            ),
            r is Err ==> final(self)@ == old(self)@ && is_out_of_memory(r->Err_0),
    {
        let record = match finalize_record(current_rank, tsc, time) {
            Ok(record) => record,
            Err(e) => return Err(e),
        };
        match self.register(record) {
            Ok(()) => Ok(()),
            Err(e) => Err(InterpolError::from_register(e)),
        }
    }

    /// Records a `MpiSend` built from the given fields.
    pub fn register_send(
        &mut self,
        current_rank: MpiRank,
        partner_rank: MpiRank,
        nb_bytes: u32,
        comm: MpiComm,
        tag: MpiTag,
        tsc: Tsc,
        duration: Tsc,
    ) -> (r: Result<(), InterpolError>)
        ensures
            r is Ok ==> final(self)@ == old(self)@.push(
                Event::MpiSend(
                    MpiSend {
                        current_rank: current_rank,
                        partner_rank: partner_rank,
                        nb_bytes: nb_bytes,
                        comm: comm,
                        tag: tag,
                        tsc: tsc,
                        duration: duration,
                    },
                ),
            ),
            r is Err ==> final(self)@ == old(self)@ && is_out_of_memory(r->Err_0),
    {
        let record = match send_record(
            current_rank,
            partner_rank,
            nb_bytes,
            comm,
            tag,
            tsc,
            duration,
        ) {
            Ok(record) => record,
            Err(e) => return Err(e),
        };
        match self.register(record) {
            Ok(()) => Ok(()),
            Err(e) => Err(InterpolError::from_register(e)),
        }
    }

    /// Records a `MpiRecv` built from the given fields.
    pub fn register_recv(
        &mut self,
        current_rank: MpiRank,
        partner_rank: MpiRank,
        nb_bytes: u32,
        comm: MpiComm,
        tag: MpiTag,
        tsc: Tsc,
        duration: Tsc,
    ) -> (r: Result<(), InterpolError>)
        ensures
            r is Ok ==> final(self)@ == old(self)@.push(
                Event::MpiRecv(
                    MpiRecv {
                        current_rank: current_rank,
                        partner_rank: partner_rank,
                        nb_bytes: nb_bytes,
                        comm: comm,
                        tag: tag,
                        tsc: tsc,
                        duration: duration,
                    },
                ),
            ),
            r is Err ==> final(self)@ == old(self)@ && is_out_of_memory(r->Err_0),
    {
        let record = match recv_record(
            current_rank,
            partner_rank,
            nb_bytes,
            comm,
            tag,
            tsc,
            duration,
        ) {
            Ok(record) => record,
            Err(e) => return Err(e),
        };
        match self.register(record) {
            Ok(()) => Ok(()),
            Err(e) => Err(InterpolError::from_register(e)),
        }
    }

    /// Records a `MpiIsend` built from the given fields.
    pub fn register_isend(
        &mut self,
        current_rank: MpiRank,
        partner_rank: MpiRank,
        nb_bytes: u32,
        comm: MpiComm,
        req: MpiReq,
        tag: MpiTag,
        tsc: Tsc,
        duration: Tsc,
    ) -> (r: Result<(), InterpolError>)
        ensures
            r is Ok ==> final(self)@ == old(self)@.push(
                Event::MpiIsend(
                    MpiIsend {
                        current_rank: current_rank,
                        partner_rank: partner_rank,
                        nb_bytes: nb_bytes,
                        comm: comm,
                        req: req,
                        tag: tag,
                        tsc: tsc,
                        duration: duration,
                    },
                ),
            ),
            r is Err ==> final(self)@ == old(self)@ && is_out_of_memory(r->Err_0),
    {
        let record = match isend_record(
            current_rank,
            partner_rank,
            nb_bytes,
            comm,
            req,
            tag,
            tsc,
            duration,
        ) {
            Ok(record) => record,
            Err(e) => return Err(e),
        };
        match self.register(record) {
            Ok(()) => Ok(()),
            Err(e) => Err(InterpolError::from_register(e)),
        }
    }

    /// Records a `MpiIrecv` built from the given fields.
    pub fn register_irecv(
        &mut self,
        current_rank: MpiRank,
        partner_rank: MpiRank,
        nb_bytes: u32,
        comm: MpiComm,
        req: MpiReq,
        tag: MpiTag,
        tsc: Tsc,
        duration: Tsc,
    ) -> (r: Result<(), InterpolError>)
        ensures
            r is Ok ==> final(self)@ == old(self)@.push(
                Event::MpiIrecv(
                    MpiIrecv {
                        current_rank: current_rank,
                        partner_rank: partner_rank,
                        nb_bytes: nb_bytes,
                        comm: comm,
                        req: req,
                        tag: tag,
                        tsc: tsc,
                        duration: duration,
                    },
                ),
            ),
            r is Err ==> final(self)@ == old(self)@ && is_out_of_memory(r->Err_0),
    {
        let record = match irecv_record(
            current_rank,
            partner_rank,
            nb_bytes,
            comm,
            req,
            tag,
            tsc,
            duration,
        ) {
            Ok(record) => record,
            Err(e) => return Err(e),
        };
        match self.register(record) {
            Ok(()) => Ok(()),
            Err(e) => Err(InterpolError::from_register(e)),
        }
    }

    /// Records a `MpiTest` built from the given fields.
    pub fn register_test(
        &mut self,
        current_rank: MpiRank,
        req: MpiReq,
        finished: bool,
        tsc: Tsc,
        duration: Tsc,
    ) -> (r: Result<(), InterpolError>)
        ensures
            r is Ok ==> final(self)@ == old(self)@.push(
                Event::MpiTest(
                    MpiTest {
                        current_rank: current_rank,
                        req: req,
                        finished: finished,
                        tsc: tsc,
                        duration: duration,
                    },
                ),
            ),
            r is Err ==> final(self)@ == old(self)@ && is_out_of_memory(r->Err_0),
    {
        let record = match test_record(current_rank, req, finished, tsc, duration) {
            Ok(record) => record,
            Err(e) => return Err(e),
        };
        match self.register(record) {
            Ok(()) => Ok(()),
            Err(e) => Err(InterpolError::from_register(e)),
        }
    }

    /// Records a `MpiWait` built from the given fields.
    pub fn register_wait(
        &mut self,
        current_rank: MpiRank,
        req: MpiReq,
        tsc: Tsc,
        duration: Tsc,
    ) -> (r: Result<(), InterpolError>)
        ensures
            r is Ok ==> final(self)@ == old(self)@.push(
                Event::MpiWait(
                    MpiWait {
                        current_rank: current_rank,
                        req: req,
                        tsc: tsc,
                        duration: duration,
                    },
                ),
            ),
            r is Err ==> final(self)@ == old(self)@ && is_out_of_memory(r->Err_0),
    {
        let record = match wait_record(current_rank, req, tsc, duration) {
            Ok(record) => record,
            Err(e) => return Err(e),
        };
        match self.register(record) {
            Ok(()) => Ok(()),
            Err(e) => Err(InterpolError::from_register(e)),
        }
    }

    /// Records a `MpiBarrier` built from the given fields.
    pub fn register_barrier(
        &mut self,
        current_rank: MpiRank,
        comm: MpiComm,
        tsc: Tsc,
        duration: Tsc,
    ) -> (r: Result<(), InterpolError>)
        ensures
            r is Ok ==> final(self)@ == old(self)@.push(
                Event::MpiBarrier(
                    MpiBarrier {
                        current_rank: current_rank,
                        comm: comm,
                        tsc: tsc,
                        duration: duration,
                    },
                ),
            ),
            r is Err ==> final(self)@ == old(self)@ && is_out_of_memory(r->Err_0),
    {
        let record = match barrier_record(current_rank, comm, tsc, duration) {
            Ok(record) => record,
            Err(e) => return Err(e),
        };
        match self.register(record) {
            Ok(()) => Ok(()),
            Err(e) => Err(InterpolError::from_register(e)),
        }
    }

    /// Records a `MpiIbarrier` built from the given fields.
    pub fn register_ibarrier(
        &mut self,
        current_rank: MpiRank,
        comm: MpiComm,
        req: MpiReq,
        tsc: Tsc,
        duration: Tsc,
    ) -> (r: Result<(), InterpolError>)
        ensures
            r is Ok ==> final(self)@ == old(self)@.push(
                Event::MpiIbarrier(
                    MpiIbarrier {
                        current_rank: current_rank,
                        comm: comm,
                        req: req,
                        tsc: tsc,
                        duration: duration,
                    },
                ),
            ),
            r is Err ==> final(self)@ == old(self)@ && is_out_of_memory(r->Err_0),
    {
        let record = match ibarrier_record(current_rank, comm, req, tsc, duration) {
            Ok(record) => record,
            Err(e) => return Err(e),
        };
        match self.register(record) {
            Ok(()) => Ok(()),
            Err(e) => Err(InterpolError::from_register(e)),
        }
    }

    /// Records a `MpiIbcast` built from the given fields.
    pub fn register_ibcast(
        &mut self,
        current_rank: MpiRank,
        partner_rank: MpiRank,
        nb_bytes: u32,
        comm: MpiComm,
        req: MpiReq,
        tsc: Tsc,
        duration: Tsc,
    ) -> (r: Result<(), InterpolError>)
        ensures
            r is Ok ==> final(self)@ == old(self)@.push(
                Event::MpiIbcast(
                    MpiIbcast {
                        current_rank: current_rank,
                        partner_rank: partner_rank,
                        nb_bytes: nb_bytes,
                        comm: comm,
                        req: req,
                        tsc: tsc,
                        duration: duration,
                    },
                ),
            ),
            r is Err ==> final(self)@ == old(self)@ && is_out_of_memory(r->Err_0),
    {
        let record = match ibcast_record(
            current_rank,
            partner_rank,
            nb_bytes,
            comm,
            req,
            tsc,
            duration,
        ) {
            Ok(record) => record,
            Err(e) => return Err(e),
        };
        match self.register(record) {
            Ok(()) => Ok(()),
            Err(e) => Err(InterpolError::from_register(e)),
        }
    }

    /// Records a `MpiIgather` built from the given fields.
    pub fn register_igather(
        &mut self,
        current_rank: MpiRank,
        partner_rank: MpiRank,
        nb_bytes_send: u32,
        nb_bytes_recv: u32,
        comm: MpiComm,
        req: MpiReq,
        tsc: Tsc,
        duration: Tsc,
    ) -> (r: Result<(), InterpolError>)
        ensures
            r is Ok ==> final(self)@ == old(self)@.push(
                Event::MpiIgather(
                    MpiIgather {
                        current_rank: current_rank,
                        partner_rank: partner_rank,
                        nb_bytes_send: nb_bytes_send,
                        nb_bytes_recv: nb_bytes_recv,
                        comm: comm,
                        req: req,
                        tsc: tsc,
                        duration: duration,
                    },
                ),
            ),
            r is Err ==> final(self)@ == old(self)@ && is_out_of_memory(r->Err_0),
    {
        let record = match igather_record(
            current_rank,
            partner_rank,
            nb_bytes_send,
            nb_bytes_recv,
            comm,
            req,
            tsc,
            duration,
        ) {
            Ok(record) => record,
            Err(e) => return Err(e),
        };
        match self.register(record) {
            Ok(()) => Ok(()),
            Err(e) => Err(InterpolError::from_register(e)),
        }
    }

    /// Records a `MpiIreduce` built from the given fields.
    pub fn register_ireduce(
        &mut self,
        current_rank: MpiRank,
        partner_rank: MpiRank,
        nb_bytes: u32,
        op_type: MpiOp,
        comm: MpiComm,
        req: MpiReq,
        tsc: Tsc,
        duration: Tsc,
    ) -> (r: Result<(), InterpolError>)
        ensures
            r is Ok ==> final(self)@ == old(self)@.push(
                Event::MpiIreduce(
                    MpiIreduce {
                        current_rank: current_rank,
                        root_rank: partner_rank,
                        nb_bytes: nb_bytes,
                        op_type: op_code(op_type),
                        comm: comm,
                        req: req,
                        tsc: tsc,
                        duration: duration,
                    },
                ),
            ),
            r is Err ==> final(self)@ == old(self)@ && is_out_of_memory(r->Err_0),
    {
        let record = match ireduce_record(
            current_rank,
            partner_rank,
            nb_bytes,
            op_type,
            comm,
            req,
            tsc,
            duration,
        ) {
            Ok(record) => record,
            Err(e) => return Err(e),
        };
        match self.register(record) {
            Ok(()) => Ok(()),
            Err(e) => Err(InterpolError::from_register(e)),
        }
    }

    /// Records a `MpiIscatter` built from the given fields.
    pub fn register_iscatter(
        &mut self,
        current_rank: MpiRank,
        partner_rank: MpiRank,
        nb_bytes_send: u32,
        nb_bytes_recv: u32,
        comm: MpiComm,
        req: MpiReq,
        tsc: Tsc,
        duration: Tsc,
    ) -> (r: Result<(), InterpolError>)
        ensures
            r is Ok ==> final(self)@ == old(self)@.push(
                Event::MpiIscatter(
                    MpiIscatter {
                        current_rank: current_rank,
                        partner_rank: partner_rank,
                        nb_bytes_send: nb_bytes_send,
                        nb_bytes_recv: nb_bytes_recv,
                        comm: comm,
                        req: req,
                        tsc: tsc,
                        duration: duration,
                    },
                ),
            ),
            r is Err ==> final(self)@ == old(self)@ && is_out_of_memory(r->Err_0),
    {
        let record = match iscatter_record(
            current_rank,
            partner_rank,
            nb_bytes_send,
            nb_bytes_recv,
            comm,
            req,
            tsc,
            duration,
        ) {
            Ok(record) => record,
            Err(e) => return Err(e),
        };
        match self.register(record) {
            Ok(()) => Ok(()),
            Err(e) => Err(InterpolError::from_register(e)),
        }
    }

    /// Routes a call description to the recording of its kind. A
    /// discriminator that names no kind is ignored and leaves the log as it
    /// was; a finalize call is reported so that the caller can persist.
    pub fn dispatch(&mut self, call: &MpiCall) -> (r: Result<Recorded, InterpolError>)
        ensures
            call_type_of(call.kind) is None ==> r == Ok::<Recorded, InterpolError>(
                Recorded::Ignored,
            ) && final(self)@ == old(self)@,
            call_type_of(call.kind) is Some && event_of(*call, call_type_of(call.kind)->0) is None
                ==> r is Err && is_invalid_op(r->Err_0),
            call_type_of(call.kind) is Some && r is Ok ==> {
                let kind = call_type_of(call.kind)->0;
                &&& event_of(*call, kind) is Some
                &&& final(self)@ == old(self)@.push(event_of(*call, kind)->0)
                &&& r->Ok_0 == if kind == MpiCallType::Finalize {
                    Recorded::Finalized
                } else {
                    Recorded::Added
                }
            },
            r is Err ==> final(self)@ == old(self)@,
            r is Err && !is_invalid_op(r->Err_0) ==> is_out_of_memory(r->Err_0),
    {
        let kind = match MpiCallType::from_code(call.kind) {
            Some(kind) => kind,
            None => return Ok(Recorded::Ignored),
        };
        let r = match kind {
            MpiCallType::Init => self.register_init(call.current_rank, call.tsc, call.time),
            MpiCallType::Initthread => self.register_init_thread(
                call.current_rank,
                call.required_thread_lvl,
                call.provided_thread_lvl,
                call.tsc,
                call.time,
            ),
            MpiCallType::Finalize => self.register_finalize(call.current_rank, call.tsc, call.time),
            MpiCallType::Send => self.register_send(
                call.current_rank,
                call.partner_rank,
                call.nb_bytes_s,
                call.comm,
                call.tag,
                call.tsc,
                call.duration,
            ),
            MpiCallType::Recv => self.register_recv(
                call.current_rank,
                call.partner_rank,
                call.nb_bytes_r,
                call.comm,
                call.tag,
                call.tsc,
                call.duration,
            ),
            MpiCallType::Isend => self.register_isend(
                call.current_rank,
                call.partner_rank,
                call.nb_bytes_s,
                call.comm,
                call.req,
                call.tag,
                call.tsc,
                call.duration,
            ),
            MpiCallType::Irecv => self.register_irecv(
                call.current_rank,
                call.partner_rank,
                call.nb_bytes_r,
                call.comm,
                call.req,
                call.tag,
                call.tsc,
                call.duration,
            ),
            MpiCallType::Test => self.register_test(
                call.current_rank,
                call.req,
                call.finished,
                call.tsc,
                call.duration,
            ),
            MpiCallType::Wait => self.register_wait(
                call.current_rank,
                call.req,
                call.tsc,
                call.duration,
            ),
            MpiCallType::Barrier => self.register_barrier(
                call.current_rank,
                call.comm,
                call.tsc,
                call.duration,
            ),
            MpiCallType::Ibarrier => self.register_ibarrier(
                call.current_rank,
                call.comm,
                call.req,
                call.tsc,
                call.duration,
            ),
            MpiCallType::Ibcast => self.register_ibcast(
                call.current_rank,
                call.partner_rank,
                call.nb_bytes_s,
                call.comm,
                call.req,
                call.tsc,
                call.duration,
            ),
            MpiCallType::Igather => self.register_igather(
                call.current_rank,
                call.partner_rank,
                call.nb_bytes_s,
                call.nb_bytes_r,
                call.comm,
                call.req,
                call.tsc,
                call.duration,
            ),
            MpiCallType::Ireduce => match MpiOp::from_code(call.op_type) {
                Some(op) => self.register_ireduce(
                    call.current_rank,
                    call.partner_rank,
                    call.nb_bytes_s,
                    op,
                    call.comm,
                    call.req,
                    call.tsc,
                    call.duration,
                ),
                None => Err(InterpolError::from_build(BuildError::InvalidField(Field::OpType))),
            },
            MpiCallType::Iscatter => self.register_iscatter(
                call.current_rank,
                call.partner_rank,
                call.nb_bytes_s,
                call.nb_bytes_r,
                call.comm,
                call.req,
                call.tsc,
                call.duration,
            ),
        };
        match r {
            Ok(()) => {
                if kind == MpiCallType::Finalize {
                    Ok(Recorded::Finalized)
                } else {
                    Ok(Recorded::Added)
                }
            },
            Err(e) => Err(e),
        }
    }
}

impl Trace {
    /// Records `call` in the registry. The record is built before the lock is
    /// taken; under the lock only the registration happens and, for a finalize
    /// call, a copy of every record is taken, ending with that finalize record.
    pub fn record(&self, call: &MpiCall) -> (r: Result<Option<Vec<Event>>, InterpolError>)
        ensures
            call_type_of(call.kind) is None ==> r is Ok && r->Ok_0 is None,
            call_type_of(call.kind) is Some && event_of(*call, call_type_of(call.kind)->0) is None
                ==> r is Err && is_invalid_op(r->Err_0),
            r is Ok && r->Ok_0 is Some ==> {
                let s = r->Ok_0->0@;
                &&& call_type_of(call.kind) == Some(MpiCallType::Finalize)
                &&& s.len() > 0
                &&& s.last() == event_of(*call, MpiCallType::Finalize)->0
            },
            call_type_of(call.kind) == Some(MpiCallType::Finalize) && r is Ok ==> r->Ok_0 is Some,
            r is Err && !is_invalid_op(r->Err_0) ==> is_out_of_memory(r->Err_0),
    {
        let kind = match MpiCallType::from_code(call.kind) {
            Some(kind) => kind,
            None => return Ok(None),
        };
        let record = match record_of(call, kind) {
            Ok(record) => record,
            Err(e) => return Err(e),
        };
        let (mut log, handle) = self.lock.acquire_write();
        let r = match log.register(record) {
            Ok(()) => {
                if kind == MpiCallType::Finalize {
                    Ok(Some(copy_events(log.events())))
                } else {
                    Ok(None)
                }
            },
            Err(e) => Err(InterpolError::from_register(e)),
        };
        handle.release_write(log);
        r
    }
}

} // verus!
