//! Blocking and non-blocking point-to-point records.

use crate::error::{BuildError, Field};
use crate::types::{MpiComm, MpiRank, MpiReq, MpiTag, Tsc};
use vstd::prelude::*;

verus! {

/// `MPI_Send`: `nb_bytes` bytes sent to `partner_rank` on `comm` with `tag`, entered at `tsc` and lasting `duration` cycles.
#[derive(Clone, Copy, Debug, PartialEq, Eq, Structural)]
pub struct MpiSend {
    pub current_rank: MpiRank,
    pub partner_rank: MpiRank,
    pub nb_bytes: u32,
    pub comm: MpiComm,
    pub tag: MpiTag,
    pub tsc: Tsc,
    pub duration: Tsc,
}

impl MpiSend {
    /// Creates a record from every one of its fields.
    pub fn new(
        current_rank: MpiRank,
        partner_rank: MpiRank,
        nb_bytes: u32,
        comm: MpiComm,
        tag: MpiTag,
        tsc: Tsc,
        duration: Tsc,
    ) -> (r: MpiSend)
        ensures
            r == (MpiSend { current_rank, partner_rank, nb_bytes, comm, tag, tsc, duration }),
    {
        MpiSend { current_rank, partner_rank, nb_bytes, comm, tag, tsc, duration }
    }
}

/// Collects the fields of an `MpiSend` one at a time.
#[derive(Clone, Copy, Debug)]
pub struct MpiSendBuilder {
    pub current_rank: Option<MpiRank>,
    pub partner_rank: Option<MpiRank>,
    pub nb_bytes: Option<u32>,
    pub comm: Option<MpiComm>,
    pub tag: Option<MpiTag>,
    pub tsc: Option<Tsc>,
    pub duration: Option<Tsc>,
}

impl Default for MpiSendBuilder {
    fn default() -> (r: MpiSendBuilder)
        ensures
            r == (MpiSendBuilder { current_rank: None, partner_rank: None, nb_bytes: None, comm: None, tag: None, tsc: None, duration: None }),
    {
        MpiSendBuilder { current_rank: None, partner_rank: None, nb_bytes: None, comm: None, tag: None, tsc: None, duration: None }
    }
}

impl MpiSendBuilder {
    /// Sets `current_rank`.
    pub fn current_rank(self, value: MpiRank) -> (r: MpiSendBuilder)
        ensures
            r == (MpiSendBuilder { current_rank: Some(value), ..self }),
    {
        MpiSendBuilder { current_rank: Some(value), ..self }
    }

    /// Sets `partner_rank`.
    pub fn partner_rank(self, value: MpiRank) -> (r: MpiSendBuilder)
        ensures
            r == (MpiSendBuilder { partner_rank: Some(value), ..self }),
    {
        MpiSendBuilder { partner_rank: Some(value), ..self }
    }

    /// Sets `nb_bytes`.
    pub fn nb_bytes(self, value: u32) -> (r: MpiSendBuilder)
        ensures
            r == (MpiSendBuilder { nb_bytes: Some(value), ..self }),
    {
        MpiSendBuilder { nb_bytes: Some(value), ..self }
    }

    /// Sets `comm`.
    pub fn comm(self, value: MpiComm) -> (r: MpiSendBuilder)
        ensures
            r == (MpiSendBuilder { comm: Some(value), ..self }),
    {
        MpiSendBuilder { comm: Some(value), ..self }
    }

    /// Sets `tag`.
    pub fn tag(self, value: MpiTag) -> (r: MpiSendBuilder)
        ensures
            r == (MpiSendBuilder { tag: Some(value), ..self }),
    {
        MpiSendBuilder { tag: Some(value), ..self }
    }

    /// Sets `tsc`.
    pub fn tsc(self, value: Tsc) -> (r: MpiSendBuilder)
        ensures
            r == (MpiSendBuilder { tsc: Some(value), ..self }),
    {
        MpiSendBuilder { tsc: Some(value), ..self }
    }

    /// Sets `duration`.
    pub fn duration(self, value: Tsc) -> (r: MpiSendBuilder)
        ensures
            r == (MpiSendBuilder { duration: Some(value), ..self }),
    {
        MpiSendBuilder { duration: Some(value), ..self }
    }

    /// What `build` returns: the record when every field is set, else the
    /// first unset field in declaration order.
    pub open spec fn outcome(self) -> Result<MpiSend, BuildError> {
        if self.current_rank is None {
            Err(BuildError::UninitializedField(Field::CurrentRank))
        } else if self.partner_rank is None {
            Err(BuildError::UninitializedField(Field::PartnerRank))
        } else if self.nb_bytes is None {
            Err(BuildError::UninitializedField(Field::NbBytes))
        } else if self.comm is None {
            Err(BuildError::UninitializedField(Field::Comm))
        } else if self.tag is None {
            Err(BuildError::UninitializedField(Field::Tag))
        } else if self.tsc is None {
            Err(BuildError::UninitializedField(Field::Tsc))
        } else if self.duration is None {
            Err(BuildError::UninitializedField(Field::Duration))
        } else {
            Ok(MpiSend {
                current_rank: self.current_rank->0,
                partner_rank: self.partner_rank->0,
                nb_bytes: self.nb_bytes->0,
                comm: self.comm->0,
                tag: self.tag->0,
                tsc: self.tsc->0,
                duration: self.duration->0,
            })
        }
    }

    /// Builds the record, or names the first field that was never set.
    pub fn build(&self) -> (r: Result<MpiSend, BuildError>)
        ensures
            r == self.outcome(),
    {
        let current_rank = match self.current_rank {
            Some(v) => v,
            None => return Err(BuildError::UninitializedField(Field::CurrentRank)),
        };
        let partner_rank = match self.partner_rank {
            Some(v) => v,
            None => return Err(BuildError::UninitializedField(Field::PartnerRank)),
        };
        let nb_bytes = match self.nb_bytes {
            Some(v) => v,
            None => return Err(BuildError::UninitializedField(Field::NbBytes)),
        };
        let comm = match self.comm {
            Some(v) => v,
            None => return Err(BuildError::UninitializedField(Field::Comm)),
        };
        let tag = match self.tag {
            Some(v) => v,
            None => return Err(BuildError::UninitializedField(Field::Tag)),
        };
        let tsc = match self.tsc {
            Some(v) => v,
            None => return Err(BuildError::UninitializedField(Field::Tsc)),
        };
        let duration = match self.duration {
            Some(v) => v,
            None => return Err(BuildError::UninitializedField(Field::Duration)),
        };
        Ok(MpiSend { current_rank, partner_rank, nb_bytes, comm, tag, tsc, duration })
    }
}

/// `MPI_Recv`: `nb_bytes` bytes received from `partner_rank` on `comm` with `tag`, entered at `tsc` and lasting `duration` cycles.
#[derive(Clone, Copy, Debug, PartialEq, Eq, Structural)]
pub struct MpiRecv {
    pub current_rank: MpiRank,
    pub partner_rank: MpiRank,
    pub nb_bytes: u32,
    pub comm: MpiComm,
    pub tag: MpiTag,
    pub tsc: Tsc,
    pub duration: Tsc,
}

impl MpiRecv {
    /// Creates a record from every one of its fields.
    pub fn new(
        current_rank: MpiRank,
        partner_rank: MpiRank,
        nb_bytes: u32,
        comm: MpiComm,
        tag: MpiTag,
        tsc: Tsc,
        duration: Tsc,
    ) -> (r: MpiRecv)
        ensures
            r == (MpiRecv { current_rank, partner_rank, nb_bytes, comm, tag, tsc, duration }),
    {
        MpiRecv { current_rank, partner_rank, nb_bytes, comm, tag, tsc, duration }
    }
}

/// Collects the fields of an `MpiRecv` one at a time.
#[derive(Clone, Copy, Debug)]
pub struct MpiRecvBuilder {
    pub current_rank: Option<MpiRank>,
    pub partner_rank: Option<MpiRank>,
    pub nb_bytes: Option<u32>,
    pub comm: Option<MpiComm>,
    pub tag: Option<MpiTag>,
    pub tsc: Option<Tsc>,
    pub duration: Option<Tsc>,
}

impl Default for MpiRecvBuilder {
    fn default() -> (r: MpiRecvBuilder)
        ensures
            r == (MpiRecvBuilder { current_rank: None, partner_rank: None, nb_bytes: None, comm: None, tag: None, tsc: None, duration: None }),
    {
        MpiRecvBuilder { current_rank: None, partner_rank: None, nb_bytes: None, comm: None, tag: None, tsc: None, duration: None }
    }
}

impl MpiRecvBuilder {
    /// Sets `current_rank`.
    pub fn current_rank(self, value: MpiRank) -> (r: MpiRecvBuilder)
        ensures
            r == (MpiRecvBuilder { current_rank: Some(value), ..self }),
    {
        MpiRecvBuilder { current_rank: Some(value), ..self }
    }

    /// Sets `partner_rank`.
    pub fn partner_rank(self, value: MpiRank) -> (r: MpiRecvBuilder)
        ensures
            r == (MpiRecvBuilder { partner_rank: Some(value), ..self }),
    {
        MpiRecvBuilder { partner_rank: Some(value), ..self }
    }

    /// Sets `nb_bytes`.
    pub fn nb_bytes(self, value: u32) -> (r: MpiRecvBuilder)
        ensures
            r == (MpiRecvBuilder { nb_bytes: Some(value), ..self }),
    {
        MpiRecvBuilder { nb_bytes: Some(value), ..self }
    }

    /// Sets `comm`.
    pub fn comm(self, value: MpiComm) -> (r: MpiRecvBuilder)
        ensures
            r == (MpiRecvBuilder { comm: Some(value), ..self }),
    {
        MpiRecvBuilder { comm: Some(value), ..self }
    }

    /// Sets `tag`.
    pub fn tag(self, value: MpiTag) -> (r: MpiRecvBuilder)
        ensures
            r == (MpiRecvBuilder { tag: Some(value), ..self }),
    {
        MpiRecvBuilder { tag: Some(value), ..self }
    }

    /// Sets `tsc`.
    pub fn tsc(self, value: Tsc) -> (r: MpiRecvBuilder)
        ensures
            r == (MpiRecvBuilder { tsc: Some(value), ..self }),
    {
        MpiRecvBuilder { tsc: Some(value), ..self }
    }

    /// Sets `duration`.
    pub fn duration(self, value: Tsc) -> (r: MpiRecvBuilder)
        ensures
            r == (MpiRecvBuilder { duration: Some(value), ..self }),
    {
        MpiRecvBuilder { duration: Some(value), ..self }
    }

    /// What `build` returns: the record when every field is set, else the
    /// first unset field in declaration order.
    pub open spec fn outcome(self) -> Result<MpiRecv, BuildError> {
        if self.current_rank is None {
            Err(BuildError::UninitializedField(Field::CurrentRank))
        } else if self.partner_rank is None {
            Err(BuildError::UninitializedField(Field::PartnerRank))
        } else if self.nb_bytes is None {
            Err(BuildError::UninitializedField(Field::NbBytes))
        } else if self.comm is None {
            Err(BuildError::UninitializedField(Field::Comm))
        } else if self.tag is None {
            Err(BuildError::UninitializedField(Field::Tag))
        } else if self.tsc is None {
            Err(BuildError::UninitializedField(Field::Tsc))
        } else if self.duration is None {
            Err(BuildError::UninitializedField(Field::Duration))
        } else {
            Ok(MpiRecv {
                current_rank: self.current_rank->0,
                partner_rank: self.partner_rank->0,
                nb_bytes: self.nb_bytes->0,
                comm: self.comm->0,
                tag: self.tag->0,
                tsc: self.tsc->0,
                duration: self.duration->0,
            })
        }
    }

    /// Builds the record, or names the first field that was never set.
    pub fn build(&self) -> (r: Result<MpiRecv, BuildError>)
        ensures
            r == self.outcome(),
    {
        let current_rank = match self.current_rank {
            Some(v) => v,
            None => return Err(BuildError::UninitializedField(Field::CurrentRank)),
        };
        let partner_rank = match self.partner_rank {
            Some(v) => v,
            None => return Err(BuildError::UninitializedField(Field::PartnerRank)),
        };
        let nb_bytes = match self.nb_bytes {
            Some(v) => v,
            None => return Err(BuildError::UninitializedField(Field::NbBytes)),
        };
        let comm = match self.comm {
            Some(v) => v,
            None => return Err(BuildError::UninitializedField(Field::Comm)),
        };
        let tag = match self.tag {
            Some(v) => v,
            None => return Err(BuildError::UninitializedField(Field::Tag)),
        };
        let tsc = match self.tsc {
            Some(v) => v,
            None => return Err(BuildError::UninitializedField(Field::Tsc)),
        };
        let duration = match self.duration {
            Some(v) => v,
            None => return Err(BuildError::UninitializedField(Field::Duration)),
        };
        Ok(MpiRecv { current_rank, partner_rank, nb_bytes, comm, tag, tsc, duration })
    }
}

/// `MPI_Isend`: a send of `nb_bytes` bytes to `partner_rank` started under request `req`.
#[derive(Clone, Copy, Debug, PartialEq, Eq, Structural)]
pub struct MpiIsend {
    pub current_rank: MpiRank,
    pub partner_rank: MpiRank,
    pub nb_bytes: u32,
    pub comm: MpiComm,
    pub req: MpiReq,
    pub tag: MpiTag,
    pub tsc: Tsc,
    pub duration: Tsc,
}

impl MpiIsend {
    /// Creates a record from every one of its fields.
    pub fn new(
        current_rank: MpiRank,
        partner_rank: MpiRank,
        nb_bytes: u32,
        comm: MpiComm,
        req: MpiReq,
        tag: MpiTag,
        tsc: Tsc,
        duration: Tsc,
    ) -> (r: MpiIsend)
        ensures
            r == (MpiIsend { current_rank, partner_rank, nb_bytes, comm, req, tag, tsc, duration }),
    {
        MpiIsend { current_rank, partner_rank, nb_bytes, comm, req, tag, tsc, duration }
    }
}

/// Collects the fields of an `MpiIsend` one at a time.
#[derive(Clone, Copy, Debug)]
pub struct MpiIsendBuilder {
    pub current_rank: Option<MpiRank>,
    pub partner_rank: Option<MpiRank>,
    pub nb_bytes: Option<u32>,
    pub comm: Option<MpiComm>,
    pub req: Option<MpiReq>,
    pub tag: Option<MpiTag>,
    pub tsc: Option<Tsc>,
    pub duration: Option<Tsc>,
}

impl Default for MpiIsendBuilder {
    fn default() -> (r: MpiIsendBuilder)
        ensures
            r == (MpiIsendBuilder { current_rank: None, partner_rank: None, nb_bytes: None, comm: None, req: None, tag: None, tsc: None, duration: None }),
    {
        MpiIsendBuilder { current_rank: None, partner_rank: None, nb_bytes: None, comm: None, req: None, tag: None, tsc: None, duration: None }
    }
}

impl MpiIsendBuilder {
    /// Sets `current_rank`.
    pub fn current_rank(self, value: MpiRank) -> (r: MpiIsendBuilder)
        ensures
            r == (MpiIsendBuilder { current_rank: Some(value), ..self }),
    {
        MpiIsendBuilder { current_rank: Some(value), ..self }
    }

    /// Sets `partner_rank`.
    pub fn partner_rank(self, value: MpiRank) -> (r: MpiIsendBuilder)
        ensures
            r == (MpiIsendBuilder { partner_rank: Some(value), ..self }),
    {
        MpiIsendBuilder { partner_rank: Some(value), ..self }
    }

    /// Sets `nb_bytes`.
    pub fn nb_bytes(self, value: u32) -> (r: MpiIsendBuilder)
        ensures
            r == (MpiIsendBuilder { nb_bytes: Some(value), ..self }),
    {
        MpiIsendBuilder { nb_bytes: Some(value), ..self }
    }

    /// Sets `comm`.
    pub fn comm(self, value: MpiComm) -> (r: MpiIsendBuilder)
        ensures
            r == (MpiIsendBuilder { comm: Some(value), ..self }),
    {
        MpiIsendBuilder { comm: Some(value), ..self }
    }

    /// Sets `req`.
    pub fn req(self, value: MpiReq) -> (r: MpiIsendBuilder)
        ensures
            r == (MpiIsendBuilder { req: Some(value), ..self }),
    {
        MpiIsendBuilder { req: Some(value), ..self }
    }

    /// Sets `tag`.
    pub fn tag(self, value: MpiTag) -> (r: MpiIsendBuilder)
        ensures
            r == (MpiIsendBuilder { tag: Some(value), ..self }),
    {
        MpiIsendBuilder { tag: Some(value), ..self }
    }

    /// Sets `tsc`.
    pub fn tsc(self, value: Tsc) -> (r: MpiIsendBuilder)
        ensures
            r == (MpiIsendBuilder { tsc: Some(value), ..self }),
    {
        MpiIsendBuilder { tsc: Some(value), ..self }
    }

    /// Sets `duration`.
    pub fn duration(self, value: Tsc) -> (r: MpiIsendBuilder)
        ensures
            r == (MpiIsendBuilder { duration: Some(value), ..self }),
    {
        MpiIsendBuilder { duration: Some(value), ..self }
    }

    /// What `build` returns: the record when every field is set, else the
    /// first unset field in declaration order.
    pub open spec fn outcome(self) -> Result<MpiIsend, BuildError> {
        if self.current_rank is None {
            Err(BuildError::UninitializedField(Field::CurrentRank))
        } else if self.partner_rank is None {
            Err(BuildError::UninitializedField(Field::PartnerRank))
        } else if self.nb_bytes is None {
            Err(BuildError::UninitializedField(Field::NbBytes))
        } else if self.comm is None {
            Err(BuildError::UninitializedField(Field::Comm))
        } else if self.req is None {
            Err(BuildError::UninitializedField(Field::Req))
        } else if self.tag is None {
            Err(BuildError::UninitializedField(Field::Tag))
        } else if self.tsc is None {
            Err(BuildError::UninitializedField(Field::Tsc))
        } else if self.duration is None {
            Err(BuildError::UninitializedField(Field::Duration))
        } else {
            Ok(MpiIsend {
                current_rank: self.current_rank->0,
                partner_rank: self.partner_rank->0,
                nb_bytes: self.nb_bytes->0,
                comm: self.comm->0,
                req: self.req->0,
                tag: self.tag->0,
                tsc: self.tsc->0,
                duration: self.duration->0,
            })
        }
    }

    /// Builds the record, or names the first field that was never set.
    pub fn build(&self) -> (r: Result<MpiIsend, BuildError>)
        ensures
            r == self.outcome(),
    {
        let current_rank = match self.current_rank {
            Some(v) => v,
            None => return Err(BuildError::UninitializedField(Field::CurrentRank)),
        };
        let partner_rank = match self.partner_rank {
            Some(v) => v,
            None => return Err(BuildError::UninitializedField(Field::PartnerRank)),
        };
        let nb_bytes = match self.nb_bytes {
            Some(v) => v,
            None => return Err(BuildError::UninitializedField(Field::NbBytes)),
        };
        let comm = match self.comm {
            Some(v) => v,
            None => return Err(BuildError::UninitializedField(Field::Comm)),
        };
        let req = match self.req {
            Some(v) => v,
            None => return Err(BuildError::UninitializedField(Field::Req)),
        };
        let tag = match self.tag {
            Some(v) => v,
            None => return Err(BuildError::UninitializedField(Field::Tag)),
        };
        let tsc = match self.tsc {
            Some(v) => v,
            None => return Err(BuildError::UninitializedField(Field::Tsc)),
        };
        let duration = match self.duration {
            Some(v) => v,
            None => return Err(BuildError::UninitializedField(Field::Duration)),
        };
        Ok(MpiIsend { current_rank, partner_rank, nb_bytes, comm, req, tag, tsc, duration })
    }
}

/// `MPI_Irecv`: a receive of `nb_bytes` bytes from `partner_rank` started under request `req`.
#[derive(Clone, Copy, Debug, PartialEq, Eq, Structural)]
pub struct MpiIrecv {
    pub current_rank: MpiRank,
    pub partner_rank: MpiRank,
    pub nb_bytes: u32,
    pub comm: MpiComm,
    pub req: MpiReq,
    pub tag: MpiTag,
    pub tsc: Tsc,
    pub duration: Tsc,
}

impl MpiIrecv {
    /// Creates a record from every one of its fields.
    pub fn new(
        current_rank: MpiRank,
        partner_rank: MpiRank,
        nb_bytes: u32,
        comm: MpiComm,
        req: MpiReq,
        tag: MpiTag,
        tsc: Tsc,
        duration: Tsc,
    ) -> (r: MpiIrecv)
        ensures
            r == (MpiIrecv { current_rank, partner_rank, nb_bytes, comm, req, tag, tsc, duration }),
    {
        MpiIrecv { current_rank, partner_rank, nb_bytes, comm, req, tag, tsc, duration }
    }
}

/// Collects the fields of an `MpiIrecv` one at a time.
#[derive(Clone, Copy, Debug)]
pub struct MpiIrecvBuilder {
    pub current_rank: Option<MpiRank>,
    pub partner_rank: Option<MpiRank>,
    pub nb_bytes: Option<u32>,
    pub comm: Option<MpiComm>,
    pub req: Option<MpiReq>,
    pub tag: Option<MpiTag>,
    pub tsc: Option<Tsc>,
    pub duration: Option<Tsc>,
}

impl Default for MpiIrecvBuilder {
    fn default() -> (r: MpiIrecvBuilder)
        ensures
            r == (MpiIrecvBuilder { current_rank: None, partner_rank: None, nb_bytes: None, comm: None, req: None, tag: None, tsc: None, duration: None }),
    {
        MpiIrecvBuilder { current_rank: None, partner_rank: None, nb_bytes: None, comm: None, req: None, tag: None, tsc: None, duration: None }
    }
}

impl MpiIrecvBuilder {
    /// Sets `current_rank`.
    pub fn current_rank(self, value: MpiRank) -> (r: MpiIrecvBuilder)
        ensures
            r == (MpiIrecvBuilder { current_rank: Some(value), ..self }),
    {
        MpiIrecvBuilder { current_rank: Some(value), ..self }
    }

    /// Sets `partner_rank`.
    pub fn partner_rank(self, value: MpiRank) -> (r: MpiIrecvBuilder)
        ensures
            r == (MpiIrecvBuilder { partner_rank: Some(value), ..self }),
    {
        MpiIrecvBuilder { partner_rank: Some(value), ..self }
    }

    /// Sets `nb_bytes`.
    pub fn nb_bytes(self, value: u32) -> (r: MpiIrecvBuilder)
        ensures
            r == (MpiIrecvBuilder { nb_bytes: Some(value), ..self }),
    {
        MpiIrecvBuilder { nb_bytes: Some(value), ..self }
    }

    /// Sets `comm`.
    pub fn comm(self, value: MpiComm) -> (r: MpiIrecvBuilder)
        ensures
            r == (MpiIrecvBuilder { comm: Some(value), ..self }),
    {
        MpiIrecvBuilder { comm: Some(value), ..self }
    }

    /// Sets `req`.
    pub fn req(self, value: MpiReq) -> (r: MpiIrecvBuilder)
        ensures
            r == (MpiIrecvBuilder { req: Some(value), ..self }),
    {
        MpiIrecvBuilder { req: Some(value), ..self }
    }

    /// Sets `tag`.
    pub fn tag(self, value: MpiTag) -> (r: MpiIrecvBuilder)
        ensures
            r == (MpiIrecvBuilder { tag: Some(value), ..self }),
    {
        MpiIrecvBuilder { tag: Some(value), ..self }
    }

    /// Sets `tsc`.
    pub fn tsc(self, value: Tsc) -> (r: MpiIrecvBuilder)
        ensures
            r == (MpiIrecvBuilder { tsc: Some(value), ..self }),
    {
        MpiIrecvBuilder { tsc: Some(value), ..self }
    }

    /// Sets `duration`.
    pub fn duration(self, value: Tsc) -> (r: MpiIrecvBuilder)
        ensures
            r == (MpiIrecvBuilder { duration: Some(value), ..self }),
    {
        MpiIrecvBuilder { duration: Some(value), ..self }
    }

    /// What `build` returns: the record when every field is set, else the
    /// first unset field in declaration order.
    pub open spec fn outcome(self) -> Result<MpiIrecv, BuildError> {
        if self.current_rank is None {
            Err(BuildError::UninitializedField(Field::CurrentRank))
        } else if self.partner_rank is None {
            Err(BuildError::UninitializedField(Field::PartnerRank))
        } else if self.nb_bytes is None {
            Err(BuildError::UninitializedField(Field::NbBytes))
        } else if self.comm is None {
            Err(BuildError::UninitializedField(Field::Comm))
        } else if self.req is None {
            Err(BuildError::UninitializedField(Field::Req))
        } else if self.tag is None {
            Err(BuildError::UninitializedField(Field::Tag))
        } else if self.tsc is None {
            Err(BuildError::UninitializedField(Field::Tsc))
        } else if self.duration is None {
            Err(BuildError::UninitializedField(Field::Duration))
        } else {
            Ok(MpiIrecv {
                current_rank: self.current_rank->0,
                partner_rank: self.partner_rank->0,
                nb_bytes: self.nb_bytes->0,
                comm: self.comm->0,
                req: self.req->0,
                tag: self.tag->0,
                tsc: self.tsc->0,
                duration: self.duration->0,
            })
        }
    }

    /// Builds the record, or names the first field that was never set.
    pub fn build(&self) -> (r: Result<MpiIrecv, BuildError>)
        ensures
            r == self.outcome(),
    {
        let current_rank = match self.current_rank {
            Some(v) => v,
            None => return Err(BuildError::UninitializedField(Field::CurrentRank)),
        };
        let partner_rank = match self.partner_rank {
            Some(v) => v,
            None => return Err(BuildError::UninitializedField(Field::PartnerRank)),
        };
        let nb_bytes = match self.nb_bytes {
            Some(v) => v,
            None => return Err(BuildError::UninitializedField(Field::NbBytes)),
        };
        let comm = match self.comm {
            Some(v) => v,
            None => return Err(BuildError::UninitializedField(Field::Comm)),
        };
        let req = match self.req {
            Some(v) => v,
            None => return Err(BuildError::UninitializedField(Field::Req)),
        };
        let tag = match self.tag {
            Some(v) => v,
            None => return Err(BuildError::UninitializedField(Field::Tag)),
        };
        let tsc = match self.tsc {
            Some(v) => v,
            None => return Err(BuildError::UninitializedField(Field::Tsc)),
        };
        let duration = match self.duration {
            Some(v) => v,
            None => return Err(BuildError::UninitializedField(Field::Duration)),
        };
        Ok(MpiIrecv { current_rank, partner_rank, nb_bytes, comm, req, tag, tsc, duration })
    }
}
} // verus!
