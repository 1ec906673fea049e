//! Barrier, wait and test records.

use crate::error::{BuildError, Field};
use crate::types::{MpiComm, MpiRank, MpiReq, Tsc};
use vstd::prelude::*;

verus! {

/// `MPI_Barrier` on `comm`, entered at `tsc` and lasting `duration` cycles.
#[derive(Clone, Copy, Debug, PartialEq, Eq, Structural)]
pub struct MpiBarrier {
    pub current_rank: MpiRank,
    pub comm: MpiComm,
    pub tsc: Tsc,
    pub duration: Tsc,
}

impl MpiBarrier {
    /// Creates a record from every one of its fields.
    pub fn new(current_rank: MpiRank, comm: MpiComm, tsc: Tsc, duration: Tsc) -> (r: MpiBarrier)
        ensures
            r == (MpiBarrier { current_rank, comm, tsc, duration }),
    {
        MpiBarrier { current_rank, comm, tsc, duration }
    }
}

/// Collects the fields of an `MpiBarrier` one at a time.
#[derive(Clone, Copy, Debug)]
pub struct MpiBarrierBuilder {
    pub current_rank: Option<MpiRank>,
    pub comm: Option<MpiComm>,
    pub tsc: Option<Tsc>,
    pub duration: Option<Tsc>,
}

impl Default for MpiBarrierBuilder {
    fn default() -> (r: MpiBarrierBuilder)
        ensures
            r == (MpiBarrierBuilder { current_rank: None, comm: None, tsc: None, duration: None }),
    {
        MpiBarrierBuilder { current_rank: None, comm: None, tsc: None, duration: None }
    }
}

impl MpiBarrierBuilder {
    /// Sets `current_rank`.
    pub fn current_rank(self, value: MpiRank) -> (r: MpiBarrierBuilder)
        ensures
            r == (MpiBarrierBuilder { current_rank: Some(value), ..self }),
    {
        MpiBarrierBuilder { current_rank: Some(value), ..self }
    }

    /// Sets `comm`.
    pub fn comm(self, value: MpiComm) -> (r: MpiBarrierBuilder)
        ensures
            r == (MpiBarrierBuilder { comm: Some(value), ..self }),
    {
        MpiBarrierBuilder { comm: Some(value), ..self }
    }

    /// Sets `tsc`.
    pub fn tsc(self, value: Tsc) -> (r: MpiBarrierBuilder)
        ensures
            r == (MpiBarrierBuilder { tsc: Some(value), ..self }),
    {
        MpiBarrierBuilder { tsc: Some(value), ..self }
    }

    /// Sets `duration`.
    pub fn duration(self, value: Tsc) -> (r: MpiBarrierBuilder)
        ensures
            r == (MpiBarrierBuilder { duration: Some(value), ..self }),
    {
        MpiBarrierBuilder { duration: Some(value), ..self }
    }

    /// What `build` returns: the record when every field is set, else the
    /// first unset field in declaration order.
    pub open spec fn outcome(self) -> Result<MpiBarrier, BuildError> {
        if self.current_rank is None {
            Err(BuildError::UninitializedField(Field::CurrentRank))
        } else if self.comm is None {
            Err(BuildError::UninitializedField(Field::Comm))
        } else if self.tsc is None {
            Err(BuildError::UninitializedField(Field::Tsc))
        } else if self.duration is None {
            Err(BuildError::UninitializedField(Field::Duration))
        } else {
            Ok(MpiBarrier {
                current_rank: self.current_rank->0,
                comm: self.comm->0,
                tsc: self.tsc->0,
                duration: self.duration->0,
            })
        }
    }

    /// Builds the record, or names the first field that was never set.
    pub fn build(&self) -> (r: Result<MpiBarrier, BuildError>)
        ensures
            r == self.outcome(),
    {
        let current_rank = match self.current_rank {
            Some(v) => v,
            None => return Err(BuildError::UninitializedField(Field::CurrentRank)),
        };
        let comm = match self.comm {
            Some(v) => v,
            None => return Err(BuildError::UninitializedField(Field::Comm)),
        };
        let tsc = match self.tsc {
            Some(v) => v,
            None => return Err(BuildError::UninitializedField(Field::Tsc)),
        };
        let duration = match self.duration {
            Some(v) => v,
            None => return Err(BuildError::UninitializedField(Field::Duration)),
        };
        Ok(MpiBarrier { current_rank, comm, tsc, duration })
    }
}

/// `MPI_Ibarrier` on `comm`, started under request `req`.
#[derive(Clone, Copy, Debug, PartialEq, Eq, Structural)]
pub struct MpiIbarrier {
    pub current_rank: MpiRank,
    pub comm: MpiComm,
    pub req: MpiReq,
    pub tsc: Tsc,
    pub duration: Tsc,
}

impl MpiIbarrier {
    /// Creates a record from every one of its fields.
    pub fn new(
        current_rank: MpiRank,
        comm: MpiComm,
        req: MpiReq,
        tsc: Tsc,
        duration: Tsc,
    ) -> (r: MpiIbarrier)
        ensures
            r == (MpiIbarrier { current_rank, comm, req, tsc, duration }),
    {
        MpiIbarrier { current_rank, comm, req, tsc, duration }
    }
}

/// Collects the fields of an `MpiIbarrier` one at a time.
#[derive(Clone, Copy, Debug)]
pub struct MpiIbarrierBuilder {
    pub current_rank: Option<MpiRank>,
    pub comm: Option<MpiComm>,
    pub req: Option<MpiReq>,
    pub tsc: Option<Tsc>,
    pub duration: Option<Tsc>,
}

impl Default for MpiIbarrierBuilder {
    fn default() -> (r: MpiIbarrierBuilder)
        ensures
            r == (MpiIbarrierBuilder { current_rank: None, comm: None, req: None, tsc: None, duration: None }),
    {
        MpiIbarrierBuilder { current_rank: None, comm: None, req: None, tsc: None, duration: None }
    }
}

impl MpiIbarrierBuilder {
    /// Sets `current_rank`.
    pub fn current_rank(self, value: MpiRank) -> (r: MpiIbarrierBuilder)
        ensures
            r == (MpiIbarrierBuilder { current_rank: Some(value), ..self }),
    {
        MpiIbarrierBuilder { current_rank: Some(value), ..self }
    }

    /// Sets `comm`.
    pub fn comm(self, value: MpiComm) -> (r: MpiIbarrierBuilder)
        ensures
            r == (MpiIbarrierBuilder { comm: Some(value), ..self }),
    {
        MpiIbarrierBuilder { comm: Some(value), ..self }
    }

    /// Sets `req`.
    pub fn req(self, value: MpiReq) -> (r: MpiIbarrierBuilder)
        ensures
            r == (MpiIbarrierBuilder { req: Some(value), ..self }),
    {
        MpiIbarrierBuilder { req: Some(value), ..self }
    }

    /// Sets `tsc`.
    pub fn tsc(self, value: Tsc) -> (r: MpiIbarrierBuilder)
        ensures
            r == (MpiIbarrierBuilder { tsc: Some(value), ..self }),
    {
        MpiIbarrierBuilder { tsc: Some(value), ..self }
    }

    /// Sets `duration`.
    pub fn duration(self, value: Tsc) -> (r: MpiIbarrierBuilder)
        ensures
            r == (MpiIbarrierBuilder { duration: Some(value), ..self }),
    {
        MpiIbarrierBuilder { duration: Some(value), ..self }
    }

    /// What `build` returns: the record when every field is set, else the
    /// first unset field in declaration order.
    pub open spec fn outcome(self) -> Result<MpiIbarrier, BuildError> {
        if self.current_rank is None {
            Err(BuildError::UninitializedField(Field::CurrentRank))
        } else if self.comm is None {
            Err(BuildError::UninitializedField(Field::Comm))
        } else if self.req is None {
            Err(BuildError::UninitializedField(Field::Req))
        } else if self.tsc is None {
            Err(BuildError::UninitializedField(Field::Tsc))
        } else if self.duration is None {
            Err(BuildError::UninitializedField(Field::Duration))
        } else {
            Ok(MpiIbarrier {
                current_rank: self.current_rank->0,
                comm: self.comm->0,
                req: self.req->0,
                tsc: self.tsc->0,
                duration: self.duration->0,
            })
        }
    }

    /// Builds the record, or names the first field that was never set.
    pub fn build(&self) -> (r: Result<MpiIbarrier, BuildError>)
        ensures
            r == self.outcome(),
    {
        let current_rank = match self.current_rank {
            Some(v) => v,
            None => return Err(BuildError::UninitializedField(Field::CurrentRank)),
        };
        let comm = match self.comm {
            Some(v) => v,
            None => return Err(BuildError::UninitializedField(Field::Comm)),
        };
        let req = match self.req {
            Some(v) => v,
            None => return Err(BuildError::UninitializedField(Field::Req)),
        };
        let tsc = match self.tsc {
            Some(v) => v,
            None => return Err(BuildError::UninitializedField(Field::Tsc)),
        };
        let duration = match self.duration {
            Some(v) => v,
            None => return Err(BuildError::UninitializedField(Field::Duration)),
        };
        Ok(MpiIbarrier { current_rank, comm, req, tsc, duration })
    }
}

/// `MPI_Test` on request `req`; `finished` tells whether that request had completed.
#[derive(Clone, Copy, Debug, PartialEq, Eq, Structural)]
pub struct MpiTest {
    pub current_rank: MpiRank,
    pub req: MpiReq,
    pub finished: bool,
    pub tsc: Tsc,
    pub duration: Tsc,
}

impl MpiTest {
    /// Creates a record from every one of its fields.
    pub fn new(
        current_rank: MpiRank,
        req: MpiReq,
        finished: bool,
        tsc: Tsc,
        duration: Tsc,
    ) -> (r: MpiTest)
        ensures
            r == (MpiTest { current_rank, req, finished, tsc, duration }),
    {
        MpiTest { current_rank, req, finished, tsc, duration }
    }
}

/// Collects the fields of an `MpiTest` one at a time.
#[derive(Clone, Copy, Debug)]
pub struct MpiTestBuilder {
    pub current_rank: Option<MpiRank>,
    pub req: Option<MpiReq>,
    pub finished: Option<bool>,
    pub tsc: Option<Tsc>,
    pub duration: Option<Tsc>,
}

impl Default for MpiTestBuilder {
    fn default() -> (r: MpiTestBuilder)
        ensures
            r == (MpiTestBuilder { current_rank: None, req: None, finished: None, tsc: None, duration: None }),
    {
        MpiTestBuilder { current_rank: None, req: None, finished: None, tsc: None, duration: None }
    }
}

impl MpiTestBuilder {
    /// Sets `current_rank`.
    pub fn current_rank(self, value: MpiRank) -> (r: MpiTestBuilder)
        ensures
            r == (MpiTestBuilder { current_rank: Some(value), ..self }),
    {
        MpiTestBuilder { current_rank: Some(value), ..self }
    }

    /// Sets `req`.
    pub fn req(self, value: MpiReq) -> (r: MpiTestBuilder)
        ensures
            r == (MpiTestBuilder { req: Some(value), ..self }),
    {
        MpiTestBuilder { req: Some(value), ..self }
    }

    /// Sets `finished`.
    pub fn finished(self, value: bool) -> (r: MpiTestBuilder)
        ensures
            r == (MpiTestBuilder { finished: Some(value), ..self }),
    {
        MpiTestBuilder { finished: Some(value), ..self }
    }

    /// Sets `tsc`.
    pub fn tsc(self, value: Tsc) -> (r: MpiTestBuilder)
        ensures
            r == (MpiTestBuilder { tsc: Some(value), ..self }),
    {
        MpiTestBuilder { tsc: Some(value), ..self }
    }

    /// Sets `duration`.
    pub fn duration(self, value: Tsc) -> (r: MpiTestBuilder)
        ensures
            r == (MpiTestBuilder { duration: Some(value), ..self }),
    {
        MpiTestBuilder { duration: Some(value), ..self }
    }

    /// What `build` returns: the record when every field is set, else the
    /// first unset field in declaration order.
    pub open spec fn outcome(self) -> Result<MpiTest, BuildError> {
        if self.current_rank is None {
            Err(BuildError::UninitializedField(Field::CurrentRank))
        } else if self.req is None {
            Err(BuildError::UninitializedField(Field::Req))
        } else if self.finished is None {
            Err(BuildError::UninitializedField(Field::Finished))
        } else if self.tsc is None {
            Err(BuildError::UninitializedField(Field::Tsc))
        } else if self.duration is None {
            Err(BuildError::UninitializedField(Field::Duration))
        } else {
            Ok(MpiTest {
                current_rank: self.current_rank->0,
                req: self.req->0,
                finished: self.finished->0,
                tsc: self.tsc->0,
                duration: self.duration->0,
            })
        }
    }

    /// Builds the record, or names the first field that was never set.
    pub fn build(&self) -> (r: Result<MpiTest, BuildError>)
        ensures
            r == self.outcome(),
    {
        let current_rank = match self.current_rank {
            Some(v) => v,
            None => return Err(BuildError::UninitializedField(Field::CurrentRank)),
        };
        let req = match self.req {
            Some(v) => v,
            None => return Err(BuildError::UninitializedField(Field::Req)),
        };
        let finished = match self.finished {
            Some(v) => v,
            None => return Err(BuildError::UninitializedField(Field::Finished)),
        };
        let tsc = match self.tsc {
            Some(v) => v,
            None => return Err(BuildError::UninitializedField(Field::Tsc)),
        };
        let duration = match self.duration {
            Some(v) => v,
            None => return Err(BuildError::UninitializedField(Field::Duration)),
        };
        Ok(MpiTest { current_rank, req, finished, tsc, duration })
    }
}

/// `MPI_Wait` on request `req`.
#[derive(Clone, Copy, Debug, PartialEq, Eq, Structural)]
pub struct MpiWait {
    pub current_rank: MpiRank,
    pub req: MpiReq,
    pub tsc: Tsc,
    pub duration: Tsc,
}

impl MpiWait {
    /// Creates a record from every one of its fields.
    pub fn new(current_rank: MpiRank, req: MpiReq, tsc: Tsc, duration: Tsc) -> (r: MpiWait)
        ensures
            r == (MpiWait { current_rank, req, tsc, duration }),
    {
        MpiWait { current_rank, req, tsc, duration }
    }
}

/// Collects the fields of an `MpiWait` one at a time.
#[derive(Clone, Copy, Debug)]
pub struct MpiWaitBuilder {
    pub current_rank: Option<MpiRank>,
    pub req: Option<MpiReq>,
    pub tsc: Option<Tsc>,
    pub duration: Option<Tsc>,
}

impl Default for MpiWaitBuilder {
    fn default() -> (r: MpiWaitBuilder)
        ensures
            r == (MpiWaitBuilder { current_rank: None, req: None, tsc: None, duration: None }),
    {
        MpiWaitBuilder { current_rank: None, req: None, tsc: None, duration: None }
    }
}

impl MpiWaitBuilder {
    /// Sets `current_rank`.
    pub fn current_rank(self, value: MpiRank) -> (r: MpiWaitBuilder)
        ensures
            r == (MpiWaitBuilder { current_rank: Some(value), ..self }),
    {
        MpiWaitBuilder { current_rank: Some(value), ..self }
    }

    /// Sets `req`.
    pub fn req(self, value: MpiReq) -> (r: MpiWaitBuilder)
        ensures
            r == (MpiWaitBuilder { req: Some(value), ..self }),
    {
        MpiWaitBuilder { req: Some(value), ..self }
    }

    /// Sets `tsc`.
    pub fn tsc(self, value: Tsc) -> (r: MpiWaitBuilder)
        ensures
            r == (MpiWaitBuilder { tsc: Some(value), ..self }),
    {
        MpiWaitBuilder { tsc: Some(value), ..self }
    }

    /// Sets `duration`.
    pub fn duration(self, value: Tsc) -> (r: MpiWaitBuilder)
        ensures
            r == (MpiWaitBuilder { duration: Some(value), ..self }),
    {
        MpiWaitBuilder { duration: Some(value), ..self }
    }

    /// What `build` returns: the record when every field is set, else the
    /// first unset field in declaration order.
    pub open spec fn outcome(self) -> Result<MpiWait, BuildError> {
        if self.current_rank is None {
            Err(BuildError::UninitializedField(Field::CurrentRank))
        } else if self.req is None {
            Err(BuildError::UninitializedField(Field::Req))
        } else if self.tsc is None {
            Err(BuildError::UninitializedField(Field::Tsc))
        } else if self.duration is None {
            Err(BuildError::UninitializedField(Field::Duration))
        } else {
            Ok(MpiWait {
                current_rank: self.current_rank->0,
                req: self.req->0,
                tsc: self.tsc->0,
                duration: self.duration->0,
            })
        }
    }

    /// Builds the record, or names the first field that was never set.
    pub fn build(&self) -> (r: Result<MpiWait, BuildError>)
        ensures
            r == self.outcome(),
    {
        let current_rank = match self.current_rank {
            Some(v) => v,
            None => return Err(BuildError::UninitializedField(Field::CurrentRank)),
        };
        let req = match self.req {
            Some(v) => v,
            None => return Err(BuildError::UninitializedField(Field::Req)),
        };
        let tsc = match self.tsc {
            Some(v) => v,
            None => return Err(BuildError::UninitializedField(Field::Tsc)),
        };
        let duration = match self.duration {
            Some(v) => v,
            None => return Err(BuildError::UninitializedField(Field::Duration)),
        };
        Ok(MpiWait { current_rank, req, tsc, duration })
    }
}
} // verus!
