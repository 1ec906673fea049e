//! Non-blocking collective records.

use crate::error::{BuildError, Field};
use crate::types::{MpiComm, MpiRank, MpiReq, Tsc};
use vstd::prelude::*;

verus! {

/// `MPI_Ibcast` of `nb_bytes` bytes rooted at `partner_rank`.
#[derive(Clone, Copy, Debug, PartialEq, Eq, Structural)]
pub struct MpiIbcast {
    pub current_rank: MpiRank,
    pub partner_rank: MpiRank,
    pub nb_bytes: u32,
    pub comm: MpiComm,
    pub req: MpiReq,
    pub tsc: Tsc,
    pub duration: Tsc,
}

impl MpiIbcast {
    /// Creates a record from every one of its fields.
    pub fn new(
        current_rank: MpiRank,
        partner_rank: MpiRank,
        nb_bytes: u32,
        comm: MpiComm,
        req: MpiReq,
        tsc: Tsc,
        duration: Tsc,
    ) -> (r: MpiIbcast)
        ensures
            r == (MpiIbcast { current_rank, partner_rank, nb_bytes, comm, req, tsc, duration }),
    {
        MpiIbcast { current_rank, partner_rank, nb_bytes, comm, req, tsc, duration }
    }
}

/// Collects the fields of an `MpiIbcast` one at a time.
#[derive(Clone, Copy, Debug)]
pub struct MpiIbcastBuilder {
    pub current_rank: Option<MpiRank>,
    pub partner_rank: Option<MpiRank>,
    pub nb_bytes: Option<u32>,
    pub comm: Option<MpiComm>,
    pub req: Option<MpiReq>,
    pub tsc: Option<Tsc>,
    pub duration: Option<Tsc>,
}

impl Default for MpiIbcastBuilder {
    fn default() -> (r: MpiIbcastBuilder)
        ensures
            r == (MpiIbcastBuilder { current_rank: None, partner_rank: None, nb_bytes: None, comm: None, req: None, tsc: None, duration: None }),
    {
        MpiIbcastBuilder { current_rank: None, partner_rank: None, nb_bytes: None, comm: None, req: None, tsc: None, duration: None }
    }
}

impl MpiIbcastBuilder {
    /// Sets `current_rank`.
    pub fn current_rank(self, value: MpiRank) -> (r: MpiIbcastBuilder)
        ensures
            r == (MpiIbcastBuilder { current_rank: Some(value), ..self }),
    {
        MpiIbcastBuilder { current_rank: Some(value), ..self }
    }

    /// Sets `partner_rank`.
    pub fn partner_rank(self, value: MpiRank) -> (r: MpiIbcastBuilder)
        ensures
            r == (MpiIbcastBuilder { partner_rank: Some(value), ..self }),
    {
        MpiIbcastBuilder { partner_rank: Some(value), ..self }
    }

    /// Sets `nb_bytes`.
    pub fn nb_bytes(self, value: u32) -> (r: MpiIbcastBuilder)
        ensures
            r == (MpiIbcastBuilder { nb_bytes: Some(value), ..self }),
    {
        MpiIbcastBuilder { nb_bytes: Some(value), ..self }
    }

    /// Sets `comm`.
    pub fn comm(self, value: MpiComm) -> (r: MpiIbcastBuilder)
        ensures
            r == (MpiIbcastBuilder { comm: Some(value), ..self }),
    {
        MpiIbcastBuilder { comm: Some(value), ..self }
    }

    /// Sets `req`.
    pub fn req(self, value: MpiReq) -> (r: MpiIbcastBuilder)
        ensures
            r == (MpiIbcastBuilder { req: Some(value), ..self }),
    {
        MpiIbcastBuilder { req: Some(value), ..self }
    }

    /// Sets `tsc`.
    pub fn tsc(self, value: Tsc) -> (r: MpiIbcastBuilder)
        ensures
            r == (MpiIbcastBuilder { tsc: Some(value), ..self }),
    {
        MpiIbcastBuilder { tsc: Some(value), ..self }
    }

    /// Sets `duration`.
    pub fn duration(self, value: Tsc) -> (r: MpiIbcastBuilder)
        ensures
            r == (MpiIbcastBuilder { duration: Some(value), ..self }),
    {
        MpiIbcastBuilder { duration: Some(value), ..self }
    }

    /// What `build` returns: the record when every field is set, else the
    /// first unset field in declaration order.
    pub open spec fn outcome(self) -> Result<MpiIbcast, BuildError> {
        if self.current_rank is None {
            Err(BuildError::UninitializedField(Field::CurrentRank))
        } else if self.partner_rank is None {
            Err(BuildError::UninitializedField(Field::PartnerRank))
        } else if self.nb_bytes is None {
            Err(BuildError::UninitializedField(Field::NbBytes))
        } else if self.comm is None {
            Err(BuildError::UninitializedField(Field::Comm))
        } else if self.req is None {
            Err(BuildError::UninitializedField(Field::Req))
        } else if self.tsc is None {
            Err(BuildError::UninitializedField(Field::Tsc))
        } else if self.duration is None {
            Err(BuildError::UninitializedField(Field::Duration))
        } else {
            Ok(MpiIbcast {
                current_rank: self.current_rank->0,
                partner_rank: self.partner_rank->0,
                nb_bytes: self.nb_bytes->0,
                comm: self.comm->0,
                req: self.req->0,
                tsc: self.tsc->0,
                duration: self.duration->0,
            })
        }
    }

    /// Builds the record, or names the first field that was never set.
    pub fn build(&self) -> (r: Result<MpiIbcast, BuildError>)
        ensures
            r == self.outcome(),
    {
        let current_rank = match self.current_rank {
            Some(v) => v,
            None => return Err(BuildError::UninitializedField(Field::CurrentRank)),
        };
        let partner_rank = match self.partner_rank {
            Some(v) => v,
            None => return Err(BuildError::UninitializedField(Field::PartnerRank)),
        };
        let nb_bytes = match self.nb_bytes {
            Some(v) => v,
            None => return Err(BuildError::UninitializedField(Field::NbBytes)),
        };
        let comm = match self.comm {
            Some(v) => v,
            None => return Err(BuildError::UninitializedField(Field::Comm)),
        };
        let req = match self.req {
            Some(v) => v,
            None => return Err(BuildError::UninitializedField(Field::Req)),
        };
        let tsc = match self.tsc {
            Some(v) => v,
            None => return Err(BuildError::UninitializedField(Field::Tsc)),
        };
        let duration = match self.duration {
            Some(v) => v,
            None => return Err(BuildError::UninitializedField(Field::Duration)),
        };
        Ok(MpiIbcast { current_rank, partner_rank, nb_bytes, comm, req, tsc, duration })
    }
}

/// `MPI_Igather` rooted at `partner_rank`, with the bytes sent and received.
#[derive(Clone, Copy, Debug, PartialEq, Eq, Structural)]
pub struct MpiIgather {
    pub current_rank: MpiRank,
    pub partner_rank: MpiRank,
    pub nb_bytes_send: u32,
    pub nb_bytes_recv: u32,
    pub comm: MpiComm,
    pub req: MpiReq,
    pub tsc: Tsc,
    pub duration: Tsc,
}

impl MpiIgather {
    /// Creates a record from every one of its fields.
    pub fn new(
        current_rank: MpiRank,
        partner_rank: MpiRank,
        nb_bytes_send: u32,
        nb_bytes_recv: u32,
        comm: MpiComm,
        req: MpiReq,
        tsc: Tsc,
        duration: Tsc,
    ) -> (r: MpiIgather)
        ensures
            r == (MpiIgather { current_rank, partner_rank, nb_bytes_send, nb_bytes_recv, comm, req, tsc, duration }),
    {
        MpiIgather { current_rank, partner_rank, nb_bytes_send, nb_bytes_recv, comm, req, tsc, duration }
    }
}

/// Collects the fields of an `MpiIgather` one at a time.
#[derive(Clone, Copy, Debug)]
pub struct MpiIgatherBuilder {
    pub current_rank: Option<MpiRank>,
    pub partner_rank: Option<MpiRank>,
    pub nb_bytes_send: Option<u32>,
    pub nb_bytes_recv: Option<u32>,
    pub comm: Option<MpiComm>,
    pub req: Option<MpiReq>,
    pub tsc: Option<Tsc>,
    pub duration: Option<Tsc>,
}

impl Default for MpiIgatherBuilder {
    fn default() -> (r: MpiIgatherBuilder)
        ensures
            r == (MpiIgatherBuilder { current_rank: None, partner_rank: None, nb_bytes_send: None, nb_bytes_recv: None, comm: None, req: None, tsc: None, duration: None }),
    {
        MpiIgatherBuilder { current_rank: None, partner_rank: None, nb_bytes_send: None, nb_bytes_recv: None, comm: None, req: None, tsc: None, duration: None }
    }
}

impl MpiIgatherBuilder {
    /// Sets `current_rank`.
    pub fn current_rank(self, value: MpiRank) -> (r: MpiIgatherBuilder)
        ensures
            r == (MpiIgatherBuilder { current_rank: Some(value), ..self }),
    {
        MpiIgatherBuilder { current_rank: Some(value), ..self }
    }

    /// Sets `partner_rank`.
    pub fn partner_rank(self, value: MpiRank) -> (r: MpiIgatherBuilder)
        ensures
            r == (MpiIgatherBuilder { partner_rank: Some(value), ..self }),
    {
        MpiIgatherBuilder { partner_rank: Some(value), ..self }
    }

    /// Sets `nb_bytes_send`.
    pub fn nb_bytes_send(self, value: u32) -> (r: MpiIgatherBuilder)
        ensures
            r == (MpiIgatherBuilder { nb_bytes_send: Some(value), ..self }),
    {
        MpiIgatherBuilder { nb_bytes_send: Some(value), ..self }
    }

    /// Sets `nb_bytes_recv`.
    pub fn nb_bytes_recv(self, value: u32) -> (r: MpiIgatherBuilder)
        ensures
            r == (MpiIgatherBuilder { nb_bytes_recv: Some(value), ..self }),
    {
        MpiIgatherBuilder { nb_bytes_recv: Some(value), ..self }
    }

    /// Sets `comm`.
    pub fn comm(self, value: MpiComm) -> (r: MpiIgatherBuilder)
        ensures
            r == (MpiIgatherBuilder { comm: Some(value), ..self }),
    {
        MpiIgatherBuilder { comm: Some(value), ..self }
    }

    /// Sets `req`.
    pub fn req(self, value: MpiReq) -> (r: MpiIgatherBuilder)
        ensures
            r == (MpiIgatherBuilder { req: Some(value), ..self }),
    {
        MpiIgatherBuilder { req: Some(value), ..self }
    }

    /// Sets `tsc`.
    pub fn tsc(self, value: Tsc) -> (r: MpiIgatherBuilder)
        ensures
            r == (MpiIgatherBuilder { tsc: Some(value), ..self }),
    {
        MpiIgatherBuilder { tsc: Some(value), ..self }
    }

    /// Sets `duration`.
    pub fn duration(self, value: Tsc) -> (r: MpiIgatherBuilder)
        ensures
            r == (MpiIgatherBuilder { duration: Some(value), ..self }),
    {
        MpiIgatherBuilder { duration: Some(value), ..self }
    }

    /// What `build` returns: the record when every field is set, else the
    /// first unset field in declaration order.
    pub open spec fn outcome(self) -> Result<MpiIgather, BuildError> {
        if self.current_rank is None {
            Err(BuildError::UninitializedField(Field::CurrentRank))
        } else if self.partner_rank is None {
            Err(BuildError::UninitializedField(Field::PartnerRank))
        } else if self.nb_bytes_send is None {
            Err(BuildError::UninitializedField(Field::NbBytesSend))
        } else if self.nb_bytes_recv is None {
            Err(BuildError::UninitializedField(Field::NbBytesRecv))
        } else if self.comm is None {
            Err(BuildError::UninitializedField(Field::Comm))
        } else if self.req is None {
            Err(BuildError::UninitializedField(Field::Req))
        } else if self.tsc is None {
            Err(BuildError::UninitializedField(Field::Tsc))
        } else if self.duration is None {
            Err(BuildError::UninitializedField(Field::Duration))
        } else {
            Ok(MpiIgather {
                current_rank: self.current_rank->0,
                partner_rank: self.partner_rank->0,
                nb_bytes_send: self.nb_bytes_send->0,
                nb_bytes_recv: self.nb_bytes_recv->0,
                comm: self.comm->0,
                req: self.req->0,
                tsc: self.tsc->0,
                duration: self.duration->0,
            })
        }
    }

    /// Builds the record, or names the first field that was never set.
    pub fn build(&self) -> (r: Result<MpiIgather, BuildError>)
        ensures
            r == self.outcome(),
    {
        let current_rank = match self.current_rank {
            Some(v) => v,
            None => return Err(BuildError::UninitializedField(Field::CurrentRank)),
        };
        let partner_rank = match self.partner_rank {
            Some(v) => v,
            None => return Err(BuildError::UninitializedField(Field::PartnerRank)),
        };
        let nb_bytes_send = match self.nb_bytes_send {
            Some(v) => v,
            None => return Err(BuildError::UninitializedField(Field::NbBytesSend)),
        };
        let nb_bytes_recv = match self.nb_bytes_recv {
            Some(v) => v,
            None => return Err(BuildError::UninitializedField(Field::NbBytesRecv)),
        };
        let comm = match self.comm {
            Some(v) => v,
            None => return Err(BuildError::UninitializedField(Field::Comm)),
        };
        let req = match self.req {
            Some(v) => v,
            None => return Err(BuildError::UninitializedField(Field::Req)),
        };
        let tsc = match self.tsc {
            Some(v) => v,
            None => return Err(BuildError::UninitializedField(Field::Tsc)),
        };
        let duration = match self.duration {
            Some(v) => v,
            None => return Err(BuildError::UninitializedField(Field::Duration)),
        };
        Ok(MpiIgather { current_rank, partner_rank, nb_bytes_send, nb_bytes_recv, comm, req, tsc, duration })
    }
}

/// `MPI_Ireduce` of `nb_bytes` bytes rooted at `root_rank`, with the code of the reduction operation.
#[derive(Clone, Copy, Debug, PartialEq, Eq, Structural)]
pub struct MpiIreduce {
    pub current_rank: MpiRank,
    pub root_rank: MpiRank,
    pub nb_bytes: u32,
    pub op_type: u8,
    pub comm: MpiComm,
    pub req: MpiReq,
    pub tsc: Tsc,
    pub duration: Tsc,
}

impl MpiIreduce {
    /// Creates a record from every one of its fields.
    pub fn new(
        current_rank: MpiRank,
        root_rank: MpiRank,
        nb_bytes: u32,
        op_type: u8,
        comm: MpiComm,
        req: MpiReq,
        tsc: Tsc,
        duration: Tsc,
    ) -> (r: MpiIreduce)
        ensures
            r == (MpiIreduce { current_rank, root_rank, nb_bytes, op_type, comm, req, tsc, duration }),
    {
        MpiIreduce { current_rank, root_rank, nb_bytes, op_type, comm, req, tsc, duration }
    }
}

/// Collects the fields of an `MpiIreduce` one at a time.
#[derive(Clone, Copy, Debug)]
pub struct MpiIreduceBuilder {
    pub current_rank: Option<MpiRank>,
    pub root_rank: Option<MpiRank>,
    pub nb_bytes: Option<u32>,
    pub op_type: Option<u8>,
    pub comm: Option<MpiComm>,
    pub req: Option<MpiReq>,
    pub tsc: Option<Tsc>,
    pub duration: Option<Tsc>,
}

impl Default for MpiIreduceBuilder {
    fn default() -> (r: MpiIreduceBuilder)
        ensures
            r == (MpiIreduceBuilder { current_rank: None, root_rank: None, nb_bytes: None, op_type: None, comm: None, req: None, tsc: None, duration: None }),
    {
        MpiIreduceBuilder { current_rank: None, root_rank: None, nb_bytes: None, op_type: None, comm: None, req: None, tsc: None, duration: None }
    }
}

impl MpiIreduceBuilder {
    /// Sets `current_rank`.
    pub fn current_rank(self, value: MpiRank) -> (r: MpiIreduceBuilder)
        ensures
            r == (MpiIreduceBuilder { current_rank: Some(value), ..self }),
    {
        MpiIreduceBuilder { current_rank: Some(value), ..self }
    }

    /// Sets `root_rank`.
    pub fn root_rank(self, value: MpiRank) -> (r: MpiIreduceBuilder)
        ensures
            r == (MpiIreduceBuilder { root_rank: Some(value), ..self }),
    {
        MpiIreduceBuilder { root_rank: Some(value), ..self }
    }

    /// Sets `nb_bytes`.
    pub fn nb_bytes(self, value: u32) -> (r: MpiIreduceBuilder)
        ensures
            r == (MpiIreduceBuilder { nb_bytes: Some(value), ..self }),
    {
        MpiIreduceBuilder { nb_bytes: Some(value), ..self }
    }

    /// Sets `op_type`.
    pub fn op_type(self, value: u8) -> (r: MpiIreduceBuilder)
        ensures
            r == (MpiIreduceBuilder { op_type: Some(value), ..self }),
    {
        MpiIreduceBuilder { op_type: Some(value), ..self }
    }

    /// Sets `comm`.
    pub fn comm(self, value: MpiComm) -> (r: MpiIreduceBuilder)
        ensures
            r == (MpiIreduceBuilder { comm: Some(value), ..self }),
    {
        MpiIreduceBuilder { comm: Some(value), ..self }
    }

    /// Sets `req`.
    pub fn req(self, value: MpiReq) -> (r: MpiIreduceBuilder)
        ensures
            r == (MpiIreduceBuilder { req: Some(value), ..self }),
    {
        MpiIreduceBuilder { req: Some(value), ..self }
    }

    /// Sets `tsc`.
    pub fn tsc(self, value: Tsc) -> (r: MpiIreduceBuilder)
        ensures
            r == (MpiIreduceBuilder { tsc: Some(value), ..self }),
    {
        MpiIreduceBuilder { tsc: Some(value), ..self }
    }

    /// Sets `duration`.
    pub fn duration(self, value: Tsc) -> (r: MpiIreduceBuilder)
        ensures
            r == (MpiIreduceBuilder { duration: Some(value), ..self }),
    {
        MpiIreduceBuilder { duration: Some(value), ..self }
    }

    /// What `build` returns: the record when every field is set, else the
    /// first unset field in declaration order.
    pub open spec fn outcome(self) -> Result<MpiIreduce, BuildError> {
        if self.current_rank is None {
            Err(BuildError::UninitializedField(Field::CurrentRank))
        } else if self.root_rank is None {
            Err(BuildError::UninitializedField(Field::RootRank))
        } else if self.nb_bytes is None {
            Err(BuildError::UninitializedField(Field::NbBytes))
        } else if self.op_type is None {
            Err(BuildError::UninitializedField(Field::OpType))
        } else if self.comm is None {
            Err(BuildError::UninitializedField(Field::Comm))
        } else if self.req is None {
            Err(BuildError::UninitializedField(Field::Req))
        } else if self.tsc is None {
            Err(BuildError::UninitializedField(Field::Tsc))
        } else if self.duration is None {
            Err(BuildError::UninitializedField(Field::Duration))
        } else {
            Ok(MpiIreduce {
                current_rank: self.current_rank->0,
                root_rank: self.root_rank->0,
                nb_bytes: self.nb_bytes->0,
                op_type: self.op_type->0,
                comm: self.comm->0,
                req: self.req->0,
                tsc: self.tsc->0,
                duration: self.duration->0,
            })
        }
    }

    /// Builds the record, or names the first field that was never set.
    pub fn build(&self) -> (r: Result<MpiIreduce, BuildError>)
        ensures
            r == self.outcome(),
    {
        let current_rank = match self.current_rank {
            Some(v) => v,
            None => return Err(BuildError::UninitializedField(Field::CurrentRank)),
        };
        let root_rank = match self.root_rank {
            Some(v) => v,
            None => return Err(BuildError::UninitializedField(Field::RootRank)),
        };
        let nb_bytes = match self.nb_bytes {
            Some(v) => v,
            None => return Err(BuildError::UninitializedField(Field::NbBytes)),
        };
        let op_type = match self.op_type {
            Some(v) => v,
            None => return Err(BuildError::UninitializedField(Field::OpType)),
        };
        let comm = match self.comm {
            Some(v) => v,
            None => return Err(BuildError::UninitializedField(Field::Comm)),
        };
        let req = match self.req {
            Some(v) => v,
            None => return Err(BuildError::UninitializedField(Field::Req)),
        };
        let tsc = match self.tsc {
            Some(v) => v,
            None => return Err(BuildError::UninitializedField(Field::Tsc)),
        };
        let duration = match self.duration {
            Some(v) => v,
            None => return Err(BuildError::UninitializedField(Field::Duration)),
        };
        Ok(MpiIreduce { current_rank, root_rank, nb_bytes, op_type, comm, req, tsc, duration })
    }
}

/// `MPI_Iscatter` rooted at `partner_rank`, with the bytes sent and received.
#[derive(Clone, Copy, Debug, PartialEq, Eq, Structural)]
pub struct MpiIscatter {
    pub current_rank: MpiRank,
    pub partner_rank: MpiRank,
    pub nb_bytes_send: u32,
    pub nb_bytes_recv: u32,
    pub comm: MpiComm,
    pub req: MpiReq,
    pub tsc: Tsc,
    pub duration: Tsc,
}

impl MpiIscatter {
    /// Creates a record from every one of its fields.
    pub fn new(
        current_rank: MpiRank,
        partner_rank: MpiRank,
        nb_bytes_send: u32,
        nb_bytes_recv: u32,
        comm: MpiComm,
        req: MpiReq,
        tsc: Tsc,
        duration: Tsc,
    ) -> (r: MpiIscatter)
        ensures
            r == (MpiIscatter { current_rank, partner_rank, nb_bytes_send, nb_bytes_recv, comm, req, tsc, duration }),
    {
        MpiIscatter { current_rank, partner_rank, nb_bytes_send, nb_bytes_recv, comm, req, tsc, duration }
    }
}

/// Collects the fields of an `MpiIscatter` one at a time.
#[derive(Clone, Copy, Debug)]
pub struct MpiIscatterBuilder {
    pub current_rank: Option<MpiRank>,
    pub partner_rank: Option<MpiRank>,
    pub nb_bytes_send: Option<u32>,
    pub nb_bytes_recv: Option<u32>,
    pub comm: Option<MpiComm>,
    pub req: Option<MpiReq>,
    pub tsc: Option<Tsc>,
    pub duration: Option<Tsc>,
}

impl Default for MpiIscatterBuilder {
    fn default() -> (r: MpiIscatterBuilder)
        ensures
            r == (MpiIscatterBuilder { current_rank: None, partner_rank: None, nb_bytes_send: None, nb_bytes_recv: None, comm: None, req: None, tsc: None, duration: None }),
    {
        MpiIscatterBuilder { current_rank: None, partner_rank: None, nb_bytes_send: None, nb_bytes_recv: None, comm: None, req: None, tsc: None, duration: None }
    }
}

impl MpiIscatterBuilder {
    /// Sets `current_rank`.
    pub fn current_rank(self, value: MpiRank) -> (r: MpiIscatterBuilder)
        ensures
            r == (MpiIscatterBuilder { current_rank: Some(value), ..self }),
    {
        MpiIscatterBuilder { current_rank: Some(value), ..self }
    }

    /// Sets `partner_rank`.
    pub fn partner_rank(self, value: MpiRank) -> (r: MpiIscatterBuilder)
        ensures
            r == (MpiIscatterBuilder { partner_rank: Some(value), ..self }),
    {
        MpiIscatterBuilder { partner_rank: Some(value), ..self }
    }

    /// Sets `nb_bytes_send`.
    pub fn nb_bytes_send(self, value: u32) -> (r: MpiIscatterBuilder)
        ensures
            r == (MpiIscatterBuilder { nb_bytes_send: Some(value), ..self }),
    {
        MpiIscatterBuilder { nb_bytes_send: Some(value), ..self }
    }

    /// Sets `nb_bytes_recv`.
    pub fn nb_bytes_recv(self, value: u32) -> (r: MpiIscatterBuilder)
        ensures
            r == (MpiIscatterBuilder { nb_bytes_recv: Some(value), ..self }),
    {
        MpiIscatterBuilder { nb_bytes_recv: Some(value), ..self }
    }

    /// Sets `comm`.
    pub fn comm(self, value: MpiComm) -> (r: MpiIscatterBuilder)
        ensures
            r == (MpiIscatterBuilder { comm: Some(value), ..self }),
    {
        MpiIscatterBuilder { comm: Some(value), ..self }
    }

    /// Sets `req`.
    pub fn req(self, value: MpiReq) -> (r: MpiIscatterBuilder)
        ensures
            r == (MpiIscatterBuilder { req: Some(value), ..self }),
    {
        MpiIscatterBuilder { req: Some(value), ..self }
    }

    /// Sets `tsc`.
    pub fn tsc(self, value: Tsc) -> (r: MpiIscatterBuilder)
        ensures
            r == (MpiIscatterBuilder { tsc: Some(value), ..self }),
    {
        MpiIscatterBuilder { tsc: Some(value), ..self }
    }

    /// Sets `duration`.
    pub fn duration(self, value: Tsc) -> (r: MpiIscatterBuilder)
        ensures
            r == (MpiIscatterBuilder { duration: Some(value), ..self }),
    {
        MpiIscatterBuilder { duration: Some(value), ..self }
    }

    /// What `build` returns: the record when every field is set, else the
    /// first unset field in declaration order.
    pub open spec fn outcome(self) -> Result<MpiIscatter, BuildError> {
        if self.current_rank is None {
            Err(BuildError::UninitializedField(Field::CurrentRank))
        } else if self.partner_rank is None {
            Err(BuildError::UninitializedField(Field::PartnerRank))
        } else if self.nb_bytes_send is None {
            Err(BuildError::UninitializedField(Field::NbBytesSend))
        } else if self.nb_bytes_recv is None {
            Err(BuildError::UninitializedField(Field::NbBytesRecv))
        } else if self.comm is None {
            Err(BuildError::UninitializedField(Field::Comm))
        } else if self.req is None {
            Err(BuildError::UninitializedField(Field::Req))
        } else if self.tsc is None {
            Err(BuildError::UninitializedField(Field::Tsc))
        } else if self.duration is None {
            Err(BuildError::UninitializedField(Field::Duration))
        } else {
            Ok(MpiIscatter {
                current_rank: self.current_rank->0,
                partner_rank: self.partner_rank->0,
                nb_bytes_send: self.nb_bytes_send->0,
                nb_bytes_recv: self.nb_bytes_recv->0,
                comm: self.comm->0,
                req: self.req->0,
                tsc: self.tsc->0,
                duration: self.duration->0,
            })
        }
    }

    /// Builds the record, or names the first field that was never set.
    pub fn build(&self) -> (r: Result<MpiIscatter, BuildError>)
        ensures
            r == self.outcome(),
    {
        let current_rank = match self.current_rank {
            Some(v) => v,
            None => return Err(BuildError::UninitializedField(Field::CurrentRank)),
        };
        let partner_rank = match self.partner_rank {
            Some(v) => v,
            None => return Err(BuildError::UninitializedField(Field::PartnerRank)),
        };
        let nb_bytes_send = match self.nb_bytes_send {
            Some(v) => v,
            None => return Err(BuildError::UninitializedField(Field::NbBytesSend)),
        };
        let nb_bytes_recv = match self.nb_bytes_recv {
            Some(v) => v,
            None => return Err(BuildError::UninitializedField(Field::NbBytesRecv)),
        };
        let comm = match self.comm {
            Some(v) => v,
            None => return Err(BuildError::UninitializedField(Field::Comm)),
        };
        let req = match self.req {
            Some(v) => v,
            None => return Err(BuildError::UninitializedField(Field::Req)),
        };
        let tsc = match self.tsc {
            Some(v) => v,
            None => return Err(BuildError::UninitializedField(Field::Tsc)),
        };
        let duration = match self.duration {
            Some(v) => v,
            None => return Err(BuildError::UninitializedField(Field::Duration)),
        };
        Ok(MpiIscatter { current_rank, partner_rank, nb_bytes_send, nb_bytes_recv, comm, req, tsc, duration })
    }
}
} // verus!
