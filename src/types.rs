//! Scalar vocabulary shared by every event kind.

use vstd::prelude::*;

verus! {

/// Identifier of a communicator.
pub type MpiComm = i32;

/// Rank of a process inside a communicator.
pub type MpiRank = i32;

/// Identifier of a non-blocking request.
pub type MpiReq = i32;

/// Tag of a point-to-point message.
pub type MpiTag = i32;

/// Value of the time-stamp counter, in cycles.
pub type Tsc = u64;

/// Wall-clock time in microseconds, held as the bit pattern of an IEEE-754
/// double so that records stay plain integer data.
#[derive(Clone, Copy, Debug, PartialEq, Eq, Structural)]
pub struct Usecs {
    pub bits: u64,
}

impl Usecs {
    /// Wraps the bit pattern of a double.
    pub fn from_bits(bits: u64) -> (r: Usecs)
        ensures
            r.bits == bits,
    {
        Usecs { bits }
    }

    /// The bit pattern of the double.
    pub fn to_bits(&self) -> (r: u64)
        ensures
            r == self.bits,
    {
        self.bits
    }
}

/// Kind of a traced call, as announced by the interposition layer.
#[derive(Clone, Copy, Debug, PartialEq, Eq, Structural)]
pub enum MpiCallType {
    Init,
    Initthread,
    Finalize,
    Send,
    Recv,
    Isend,
    Irecv,
    Test,
    Wait,
    Barrier,
    Ibarrier,
    Ibcast,
    Igather,
    Ireduce,
    Iscatter,
}

/// The kind that a wire discriminator stands for, in declaration order;
/// `None` for a discriminator that no kind uses.
pub open spec fn call_type_of(code: i8) -> Option<MpiCallType> {
    if code == 0 {
        Some(MpiCallType::Init)
    } else if code == 1 {
        Some(MpiCallType::Initthread)
    } else if code == 2 {
        Some(MpiCallType::Finalize)
    } else if code == 3 {
        Some(MpiCallType::Send)
    } else if code == 4 {
        Some(MpiCallType::Recv)
    } else if code == 5 {
        Some(MpiCallType::Isend)
    } else if code == 6 {
        Some(MpiCallType::Irecv)
    } else if code == 7 {
        Some(MpiCallType::Test)
    } else if code == 8 {
        Some(MpiCallType::Wait)
    } else if code == 9 {
        Some(MpiCallType::Barrier)
    } else if code == 10 {
        Some(MpiCallType::Ibarrier)
    } else if code == 11 {
        Some(MpiCallType::Ibcast)
    } else if code == 12 {
        Some(MpiCallType::Igather)
    } else if code == 13 {
        Some(MpiCallType::Ireduce)
    } else if code == 14 {
        Some(MpiCallType::Iscatter)
    } else {
        None
    }
}

impl MpiCallType {
    /// Decodes a wire discriminator; unknown values give `None`.
    pub fn from_code(code: i8) -> (r: Option<MpiCallType>)
        ensures
            r == call_type_of(code),
    {
        match code {
            0 => Some(MpiCallType::Init),
            1 => Some(MpiCallType::Initthread),
            2 => Some(MpiCallType::Finalize),
            3 => Some(MpiCallType::Send),
            4 => Some(MpiCallType::Recv),
            5 => Some(MpiCallType::Isend),
            6 => Some(MpiCallType::Irecv),
            7 => Some(MpiCallType::Test),
            8 => Some(MpiCallType::Wait),
            9 => Some(MpiCallType::Barrier),
            10 => Some(MpiCallType::Ibarrier),
            11 => Some(MpiCallType::Ibcast),
            12 => Some(MpiCallType::Igather),
            13 => Some(MpiCallType::Ireduce),
            14 => Some(MpiCallType::Iscatter),
            _ => None,
        }
    }
}

/// Reduction operation of a reduction-style collective.
#[derive(Clone, Copy, Debug, PartialEq, Eq, Structural)]
pub enum MpiOp {
    Opnull,
    Max,
    Min,
    Sum,
    Prod,
    Land,
    Band,
    Lor,
    Bor,
    Lxor,
    Bxor,
    Minloc,
    Maxloc,
    Replace,
}

/// Position of an operation in the declaration of `MpiOp`.
pub open spec fn op_code(op: MpiOp) -> u8 {
    match op {
        MpiOp::Opnull => 0,
        MpiOp::Max => 1,
        MpiOp::Min => 2,
        MpiOp::Sum => 3,
        MpiOp::Prod => 4,
        MpiOp::Land => 5,
        MpiOp::Band => 6,
        MpiOp::Lor => 7,
        MpiOp::Bor => 8,
        MpiOp::Lxor => 9,
        MpiOp::Bxor => 10,
        MpiOp::Minloc => 11,
        MpiOp::Maxloc => 12,
        MpiOp::Replace => 13,
    }
}

impl MpiOp {
    /// Decodes an operation code; unknown values give `None`.
    pub fn from_code(code: i8) -> (r: Option<MpiOp>)
        ensures
            0 <= code < 14 ==> r is Some && op_code(r->0) == code,
            !(0 <= code < 14) ==> r is None,
    {
        match code {
            0 => Some(MpiOp::Opnull),
            1 => Some(MpiOp::Max),
            2 => Some(MpiOp::Min),
            3 => Some(MpiOp::Sum),
            4 => Some(MpiOp::Prod),
            5 => Some(MpiOp::Land),
            6 => Some(MpiOp::Band),
            7 => Some(MpiOp::Lor),
            8 => Some(MpiOp::Bor),
            9 => Some(MpiOp::Lxor),
            10 => Some(MpiOp::Bxor),
            11 => Some(MpiOp::Minloc),
            12 => Some(MpiOp::Maxloc),
            13 => Some(MpiOp::Replace),
            _ => None,
        }
    }

    /// The operation's numeric code, as stored in a reduction record.
    pub fn code(&self) -> (r: u8)
        ensures
            r == op_code(*self),
    {
        match self {
            MpiOp::Opnull => 0,
            MpiOp::Max => 1,
            MpiOp::Min => 2,
            MpiOp::Sum => 3,
            MpiOp::Prod => 4,
            MpiOp::Land => 5,
            MpiOp::Band => 6,
            MpiOp::Lor => 7,
            MpiOp::Bor => 8,
            MpiOp::Lxor => 9,
            MpiOp::Bxor => 10,
            MpiOp::Minloc => 11,
            MpiOp::Maxloc => 12,
            MpiOp::Replace => 13,
        }
    }
}

} // verus!
