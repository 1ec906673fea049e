//! The closed set of event records that a trace holds.

use crate::mpi_events::management::{MpiInit, MpiInitThread, MpiFinalize};
use crate::mpi_events::point_to_point::{MpiSend, MpiRecv, MpiIsend, MpiIrecv};
use crate::mpi_events::synchronization::{MpiBarrier, MpiIbarrier, MpiTest, MpiWait};
use crate::mpi_events::collectives::{MpiIbcast, MpiIgather, MpiIreduce, MpiIscatter};
use crate::types::{MpiRank, Tsc};
use vstd::prelude::*;

verus! {

/// One recorded call, tagged with its kind. Serialized traces carry the
/// variant name as the discriminator of each record.
#[derive(Clone, Copy, Debug, PartialEq, Eq, Structural)]
pub enum Event {
    MpiInit(MpiInit),
    MpiInitThread(MpiInitThread),
    MpiFinalize(MpiFinalize),
    MpiSend(MpiSend),
    MpiRecv(MpiRecv),
    MpiIsend(MpiIsend),
    MpiIrecv(MpiIrecv),
    MpiBarrier(MpiBarrier),
    MpiIbarrier(MpiIbarrier),
    MpiTest(MpiTest),
    MpiWait(MpiWait),
    MpiIbcast(MpiIbcast),
    MpiIgather(MpiIgather),
    MpiIreduce(MpiIreduce),
    MpiIscatter(MpiIscatter),
}

impl Event {
    /// The time-stamp counter sampled when the call was entered: the key of the global order.
    pub open spec fn spec_tsc(&self) -> Tsc {
        match self {
            Event::MpiInit(e) => e.tsc,
            Event::MpiInitThread(e) => e.tsc,
            Event::MpiFinalize(e) => e.tsc,
            Event::MpiSend(e) => e.tsc,
            Event::MpiRecv(e) => e.tsc,
            Event::MpiIsend(e) => e.tsc,
            Event::MpiIrecv(e) => e.tsc,
            Event::MpiBarrier(e) => e.tsc,
            Event::MpiIbarrier(e) => e.tsc,
            Event::MpiTest(e) => e.tsc,
            Event::MpiWait(e) => e.tsc,
            Event::MpiIbcast(e) => e.tsc,
            Event::MpiIgather(e) => e.tsc,
            Event::MpiIreduce(e) => e.tsc,
            Event::MpiIscatter(e) => e.tsc,
        }
    }

    /// The time-stamp counter sampled when the call was entered: the key of the global order.
    #[verifier::when_used_as_spec(spec_tsc)]
    pub fn tsc(&self) -> (r: Tsc)
        ensures
            r == self.spec_tsc(),
    {
        match self {
            Event::MpiInit(e) => e.tsc,
            Event::MpiInitThread(e) => e.tsc,
            Event::MpiFinalize(e) => e.tsc,
            Event::MpiSend(e) => e.tsc,
            Event::MpiRecv(e) => e.tsc,
            Event::MpiIsend(e) => e.tsc,
            Event::MpiIrecv(e) => e.tsc,
            Event::MpiBarrier(e) => e.tsc,
            Event::MpiIbarrier(e) => e.tsc,
            Event::MpiTest(e) => e.tsc,
            Event::MpiWait(e) => e.tsc,
            Event::MpiIbcast(e) => e.tsc,
            Event::MpiIgather(e) => e.tsc,
            Event::MpiIreduce(e) => e.tsc,
            Event::MpiIscatter(e) => e.tsc,
        }
    }

    /// The rank of the process that recorded the call.
    pub open spec fn spec_rank(&self) -> MpiRank {
        match self {
            Event::MpiInit(e) => e.current_rank,
            Event::MpiInitThread(e) => e.current_rank,
            Event::MpiFinalize(e) => e.current_rank,
            Event::MpiSend(e) => e.current_rank,
            Event::MpiRecv(e) => e.current_rank,
            Event::MpiIsend(e) => e.current_rank,
            Event::MpiIrecv(e) => e.current_rank,
            Event::MpiBarrier(e) => e.current_rank,
            Event::MpiIbarrier(e) => e.current_rank,
            Event::MpiTest(e) => e.current_rank,
            Event::MpiWait(e) => e.current_rank,
            Event::MpiIbcast(e) => e.current_rank,
            Event::MpiIgather(e) => e.current_rank,
            Event::MpiIreduce(e) => e.current_rank,
            Event::MpiIscatter(e) => e.current_rank,
        }
    }

    /// The rank of the process that recorded the call.
    #[verifier::when_used_as_spec(spec_rank)]
    pub fn rank(&self) -> (r: MpiRank)
        ensures
            r == self.spec_rank(),
    {
        match self {
            Event::MpiInit(e) => e.current_rank,
            Event::MpiInitThread(e) => e.current_rank,
            Event::MpiFinalize(e) => e.current_rank,
            Event::MpiSend(e) => e.current_rank,
            Event::MpiRecv(e) => e.current_rank,
            Event::MpiIsend(e) => e.current_rank,
            Event::MpiIrecv(e) => e.current_rank,
            Event::MpiBarrier(e) => e.current_rank,
            Event::MpiIbarrier(e) => e.current_rank,
            Event::MpiTest(e) => e.current_rank,
            Event::MpiWait(e) => e.current_rank,
            Event::MpiIbcast(e) => e.current_rank,
            Event::MpiIgather(e) => e.current_rank,
            Event::MpiIreduce(e) => e.current_rank,
            Event::MpiIscatter(e) => e.current_rank,
        }
    }
}

} // verus!
