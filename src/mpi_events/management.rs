//! Process start-up and shutdown records.

use crate::error::{BuildError, Field};
use crate::types::{MpiRank, Tsc, Usecs};
use vstd::prelude::*;

verus! {

/// `MPI_Init`: the process joined the job at `tsc`, wall time `time`.
#[derive(Clone, Copy, Debug, PartialEq, Eq, Structural)]
pub struct MpiInit {
    pub current_rank: MpiRank,
    pub tsc: Tsc,
    pub time: Usecs,
}

impl MpiInit {
    /// Creates a record from every one of its fields.
    pub fn new(current_rank: MpiRank, tsc: Tsc, time: Usecs) -> (r: MpiInit)
        ensures
            r == (MpiInit { current_rank, tsc, time }),
    {
        MpiInit { current_rank, tsc, time }
    }
}

/// Collects the fields of an `MpiInit` one at a time.
#[derive(Clone, Copy, Debug)]
pub struct MpiInitBuilder {
    pub current_rank: Option<MpiRank>,
    pub tsc: Option<Tsc>,
    pub time: Option<Usecs>,
}

impl Default for MpiInitBuilder {
    fn default() -> (r: MpiInitBuilder)
        ensures
            r == (MpiInitBuilder { current_rank: None, tsc: None, time: None }),
    {
        MpiInitBuilder { current_rank: None, tsc: None, time: None }
    }
}

impl MpiInitBuilder {
    /// Sets `current_rank`.
    pub fn current_rank(self, value: MpiRank) -> (r: MpiInitBuilder)
        ensures
            r == (MpiInitBuilder { current_rank: Some(value), ..self }),
    {
        MpiInitBuilder { current_rank: Some(value), ..self }
    }

    /// Sets `tsc`.
    pub fn tsc(self, value: Tsc) -> (r: MpiInitBuilder)
        ensures
            r == (MpiInitBuilder { tsc: Some(value), ..self }),
    {
        MpiInitBuilder { tsc: Some(value), ..self }
    }

    /// Sets `time`.
    pub fn time(self, value: Usecs) -> (r: MpiInitBuilder)
        ensures
            r == (MpiInitBuilder { time: Some(value), ..self }),
    {
        MpiInitBuilder { time: Some(value), ..self }
    }

    /// What `build` returns: the record when every field is set, else the
    /// first unset field in declaration order.
    pub open spec fn outcome(self) -> Result<MpiInit, BuildError> {
        if self.current_rank is None {
            Err(BuildError::UninitializedField(Field::CurrentRank))
        } else if self.tsc is None {
            Err(BuildError::UninitializedField(Field::Tsc))
        } else if self.time is None {
            Err(BuildError::UninitializedField(Field::Time))
        } else {
            Ok(MpiInit {
                current_rank: self.current_rank->0,
                tsc: self.tsc->0,
                time: self.time->0,
            })
        }
    }

    /// Builds the record, or names the first field that was never set.
    pub fn build(&self) -> (r: Result<MpiInit, BuildError>)
        ensures
            r == self.outcome(),
    {
        let current_rank = match self.current_rank {
            Some(v) => v,
            None => return Err(BuildError::UninitializedField(Field::CurrentRank)),
        };
        let tsc = match self.tsc {
            Some(v) => v,
            None => return Err(BuildError::UninitializedField(Field::Tsc)),
        };
        let time = match self.time {
            Some(v) => v,
            None => return Err(BuildError::UninitializedField(Field::Time)),
        };
        Ok(MpiInit { current_rank, tsc, time })
    }
}

/// `MPI_Init_thread`: as `MpiInit`, with the thread support level that was required and the one that was provided.
#[derive(Clone, Copy, Debug, PartialEq, Eq, Structural)]
pub struct MpiInitThread {
    pub current_rank: MpiRank,
    pub tsc: Tsc,
    pub time: Usecs,
    pub required_thread_lvl: i32,
    pub provided_thread_lvl: i32,
}

impl MpiInitThread {
    /// Creates a record from every one of its fields.
    pub fn new(
        current_rank: MpiRank,
        tsc: Tsc,
        time: Usecs,
        required_thread_lvl: i32,
        provided_thread_lvl: i32,
    ) -> (r: MpiInitThread)
        ensures
            r == (MpiInitThread { current_rank, tsc, time, required_thread_lvl, provided_thread_lvl }),
    {
        MpiInitThread { current_rank, tsc, time, required_thread_lvl, provided_thread_lvl }
    }
}

/// Collects the fields of an `MpiInitThread` one at a time.
#[derive(Clone, Copy, Debug)]
pub struct MpiInitThreadBuilder {
    pub current_rank: Option<MpiRank>,
    pub tsc: Option<Tsc>,
    pub time: Option<Usecs>,
    pub required_thread_lvl: Option<i32>,
    pub provided_thread_lvl: Option<i32>,
}

impl Default for MpiInitThreadBuilder {
    fn default() -> (r: MpiInitThreadBuilder)
        ensures
            r == (MpiInitThreadBuilder { current_rank: None, tsc: None, time: None, required_thread_lvl: None, provided_thread_lvl: None }),
    {
        MpiInitThreadBuilder { current_rank: None, tsc: None, time: None, required_thread_lvl: None, provided_thread_lvl: None }
    }
}

impl MpiInitThreadBuilder {
    /// Sets `current_rank`.
    pub fn current_rank(self, value: MpiRank) -> (r: MpiInitThreadBuilder)
        ensures
            r == (MpiInitThreadBuilder { current_rank: Some(value), ..self }),
    {
        MpiInitThreadBuilder { current_rank: Some(value), ..self }
    }

    /// Sets `tsc`.
    pub fn tsc(self, value: Tsc) -> (r: MpiInitThreadBuilder)
        ensures
            r == (MpiInitThreadBuilder { tsc: Some(value), ..self }),
    {
        MpiInitThreadBuilder { tsc: Some(value), ..self }
    }

    /// Sets `time`.
    pub fn time(self, value: Usecs) -> (r: MpiInitThreadBuilder)
        ensures
            r == (MpiInitThreadBuilder { time: Some(value), ..self }),
    {
        MpiInitThreadBuilder { time: Some(value), ..self }
    }

    /// Sets `required_thread_lvl`.
    pub fn required_thread_lvl(self, value: i32) -> (r: MpiInitThreadBuilder)
        ensures
            r == (MpiInitThreadBuilder { required_thread_lvl: Some(value), ..self }),
    {
        MpiInitThreadBuilder { required_thread_lvl: Some(value), ..self }
    }

    /// Sets `provided_thread_lvl`.
    pub fn provided_thread_lvl(self, value: i32) -> (r: MpiInitThreadBuilder)
        ensures
            r == (MpiInitThreadBuilder { provided_thread_lvl: Some(value), ..self }),
    {
        MpiInitThreadBuilder { provided_thread_lvl: Some(value), ..self }
    }

    /// What `build` returns: the record when every field is set, else the
    /// first unset field in declaration order.
    pub open spec fn outcome(self) -> Result<MpiInitThread, BuildError> {
        if self.current_rank is None {
            Err(BuildError::UninitializedField(Field::CurrentRank))
        } else if self.tsc is None {
            Err(BuildError::UninitializedField(Field::Tsc))
        } else if self.time is None {
            Err(BuildError::UninitializedField(Field::Time))
        } else if self.required_thread_lvl is None {
            Err(BuildError::UninitializedField(Field::RequiredThreadLvl))
        } else if self.provided_thread_lvl is None {
            Err(BuildError::UninitializedField(Field::ProvidedThreadLvl))
        } else {
            Ok(MpiInitThread {
                current_rank: self.current_rank->0,
                tsc: self.tsc->0,
                time: self.time->0,
                required_thread_lvl: self.required_thread_lvl->0,
                provided_thread_lvl: self.provided_thread_lvl->0,
            })
        }
    }

    /// Builds the record, or names the first field that was never set.
    pub fn build(&self) -> (r: Result<MpiInitThread, BuildError>)
        ensures
            r == self.outcome(),
    {
        let current_rank = match self.current_rank {
            Some(v) => v,
            None => return Err(BuildError::UninitializedField(Field::CurrentRank)),
        };
        let tsc = match self.tsc {
            Some(v) => v,
            None => return Err(BuildError::UninitializedField(Field::Tsc)),
        };
        let time = match self.time {
            Some(v) => v,
            None => return Err(BuildError::UninitializedField(Field::Time)),
        };
        let required_thread_lvl = match self.required_thread_lvl {
            Some(v) => v,
            None => return Err(BuildError::UninitializedField(Field::RequiredThreadLvl)),
        };
        let provided_thread_lvl = match self.provided_thread_lvl {
            Some(v) => v,
            None => return Err(BuildError::UninitializedField(Field::ProvidedThreadLvl)),
        };
        Ok(MpiInitThread { current_rank, tsc, time, required_thread_lvl, provided_thread_lvl })
    }
}

/// `MPI_Finalize`: the process left the job at `tsc`, wall time `time`.
#[derive(Clone, Copy, Debug, PartialEq, Eq, Structural)]
pub struct MpiFinalize {
    pub current_rank: MpiRank,
    pub tsc: Tsc,
    pub time: Usecs,
}

impl MpiFinalize {
    /// Creates a record from every one of its fields.
    pub fn new(current_rank: MpiRank, tsc: Tsc, time: Usecs) -> (r: MpiFinalize)
        ensures
            r == (MpiFinalize { current_rank, tsc, time }),
    {
        MpiFinalize { current_rank, tsc, time }
    }
}

/// Collects the fields of an `MpiFinalize` one at a time.
#[derive(Clone, Copy, Debug)]
pub struct MpiFinalizeBuilder {
    pub current_rank: Option<MpiRank>,
    pub tsc: Option<Tsc>,
    pub time: Option<Usecs>,
}

impl Default for MpiFinalizeBuilder {
    fn default() -> (r: MpiFinalizeBuilder)
        ensures
            r == (MpiFinalizeBuilder { current_rank: None, tsc: None, time: None }),
    {
        MpiFinalizeBuilder { current_rank: None, tsc: None, time: None }
    }
}

impl MpiFinalizeBuilder {
    /// Sets `current_rank`.
    pub fn current_rank(self, value: MpiRank) -> (r: MpiFinalizeBuilder)
        ensures
            r == (MpiFinalizeBuilder { current_rank: Some(value), ..self }),
    {
        MpiFinalizeBuilder { current_rank: Some(value), ..self }
    }

    /// Sets `tsc`.
    pub fn tsc(self, value: Tsc) -> (r: MpiFinalizeBuilder)
        ensures
            r == (MpiFinalizeBuilder { tsc: Some(value), ..self }),
    {
        MpiFinalizeBuilder { tsc: Some(value), ..self }
    }

    /// Sets `time`.
    pub fn time(self, value: Usecs) -> (r: MpiFinalizeBuilder)
        ensures
            r == (MpiFinalizeBuilder { time: Some(value), ..self }),
    {
        MpiFinalizeBuilder { time: Some(value), ..self }
    }

    /// What `build` returns: the record when every field is set, else the
    /// first unset field in declaration order.
    pub open spec fn outcome(self) -> Result<MpiFinalize, BuildError> {
        if self.current_rank is None {
            Err(BuildError::UninitializedField(Field::CurrentRank))
        } else if self.tsc is None {
            Err(BuildError::UninitializedField(Field::Tsc))
        } else if self.time is None {
            Err(BuildError::UninitializedField(Field::Time))
        } else {
            Ok(MpiFinalize {
                current_rank: self.current_rank->0,
                tsc: self.tsc->0,
                time: self.time->0,
            })
        }
    }

    /// Builds the record, or names the first field that was never set.
    pub fn build(&self) -> (r: Result<MpiFinalize, BuildError>)
        ensures
            r == self.outcome(),
    {
        let current_rank = match self.current_rank {
            Some(v) => v,
            None => return Err(BuildError::UninitializedField(Field::CurrentRank)),
        };
        let tsc = match self.tsc {
            Some(v) => v,
            None => return Err(BuildError::UninitializedField(Field::Tsc)),
        };
        let time = match self.time {
            Some(v) => v,
            None => return Err(BuildError::UninitializedField(Field::Time)),
        };
        Ok(MpiFinalize { current_rank, tsc, time })
    }
}
} // verus!
