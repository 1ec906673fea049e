//! Failures of construction, registration, persistence and merge.

use std::collections::TryReserveError;
use vstd::prelude::*;
use vstd::string::*;

verus! {

/// A field of an event record, named in construction failures.
#[derive(Clone, Copy, Debug, PartialEq, Eq, Structural)]
pub enum Field {
    CurrentRank,
    PartnerRank,
    RootRank,
    NbBytes,
    NbBytesSend,
    NbBytesRecv,
    Comm,
    Req,
    Tag,
    Tsc,
    Duration,
    Time,
    Finished,
    OpType,
    RequiredThreadLvl,
    ProvidedThreadLvl,
}

/// The name under which a field is serialized.
pub open spec fn field_name(f: Field) -> Seq<char> {
    match f {
        Field::CurrentRank => "current_rank"@,
        Field::PartnerRank => "partner_rank"@,
        Field::RootRank => "root_rank"@,
        Field::NbBytes => "nb_bytes"@,
        Field::NbBytesSend => "nb_bytes_send"@,
        Field::NbBytesRecv => "nb_bytes_recv"@,
        Field::Comm => "comm"@,
        Field::Req => "req"@,
        Field::Tag => "tag"@,
        Field::Tsc => "tsc"@,
        Field::Duration => "duration"@,
        Field::Time => "time"@,
        Field::Finished => "finished"@,
        Field::OpType => "op_type"@,
        Field::RequiredThreadLvl => "required_thread_lvl"@,
        Field::ProvidedThreadLvl => "provided_thread_lvl"@,
    }
}

impl Field {
    /// The name under which the field is serialized.
    pub fn name(&self) -> (r: &'static str)
        ensures
            r@ == field_name(*self),
    {
        match self {
            Field::CurrentRank => "current_rank",
            Field::PartnerRank => "partner_rank",
            Field::RootRank => "root_rank",
            Field::NbBytes => "nb_bytes",
            Field::NbBytesSend => "nb_bytes_send",
            Field::NbBytesRecv => "nb_bytes_recv",
            Field::Comm => "comm",
            Field::Req => "req",
            Field::Tag => "tag",
            Field::Tsc => "tsc",
            Field::Duration => "duration",
            Field::Time => "time",
            Field::Finished => "finished",
            Field::OpType => "op_type",
            Field::RequiredThreadLvl => "required_thread_lvl",
            Field::ProvidedThreadLvl => "provided_thread_lvl",
        }
    }
}

/// A record could not be built.
#[derive(Clone, Copy, Debug, PartialEq, Eq, Structural)]
pub enum BuildError {
    /// A required field was never given.
    UninitializedField(Field),
    /// A field was given a value that no record may hold.
    InvalidField(Field),
}

/// A record could not be appended to a registry.
#[derive(Debug, PartialEq, Eq)]
pub enum RegisterError {
    /// The registry's storage could not grow; the allocator's report.
    OutOfMemory(TryReserveError),
}

/// The family of an `InterpolError`.
#[non_exhaustive]
#[derive(Clone, Copy, Debug, PartialEq, Eq, Structural)]
pub enum InterpolErrorKind {
    Io,
    TryReserve,
    Builder,
}

/// A failure reported by the tracing engine, with a human-readable reason.
#[derive(Debug)]
pub struct InterpolError {
    pub kind: InterpolErrorKind,
    pub reason: String,
}

/// The reason given for a record whose field `f` was never set.
pub open spec fn uninitialized_reason(f: Field) -> Seq<char> {
    "`"@ + field_name(f) + "` must be initialized"@
}

/// The reason given for a record whose field `f` held a value that no
/// record may hold.
pub open spec fn invalid_reason(f: Field) -> Seq<char> {
    "`"@ + field_name(f) + "` has an invalid value"@
}

/// The reason given for a failure to build: it names the field at fault.
pub open spec fn build_reason(e: BuildError) -> Seq<char> {
    match e {
        BuildError::UninitializedField(f) => uninitialized_reason(f),
        BuildError::InvalidField(f) => invalid_reason(f),
    }
}

impl InterpolError {
    /// An input/output failure with the given reason.
    pub fn io(reason: String) -> (r: InterpolError)
        ensures
            r.kind == InterpolErrorKind::Io,
            r.reason@ == reason@,
    {
        InterpolError { kind: InterpolErrorKind::Io, reason }
    }

    /// The family of the failure.
    pub fn kind(&self) -> (r: InterpolErrorKind)
        ensures
            r == self.kind,
    {
        self.kind
    }

    /// A line that describes the failure, prefixed by its family.
    pub fn message(&self) -> (r: String)
        ensures
            r@ == kind_prefix(self.kind) + self.reason@,
    {
        let prefix = match self.kind {
            InterpolErrorKind::Io => "I/O error: ",
            InterpolErrorKind::TryReserve => "Memory allocation error: ",
            InterpolErrorKind::Builder => "Builder error: ",
        };
        String::from_str(prefix).concat(self.reason.as_str())
    }
}

/// The prefix that `message` puts before the reason of each family.
pub open spec fn kind_prefix(k: InterpolErrorKind) -> Seq<char> {
    match k {
        InterpolErrorKind::Io => "I/O error: "@,
        InterpolErrorKind::TryReserve => "Memory allocation error: "@,
        InterpolErrorKind::Builder => "Builder error: "@,
    }
}

impl InterpolError {
    /// The failure reported for a record that could not be built.
    pub fn from_build(e: BuildError) -> (r: InterpolError)
        ensures
            r.kind == InterpolErrorKind::Builder,
            r.reason@ == build_reason(e),
    {
        let reason = match e {
            BuildError::UninitializedField(f) => String::from_str("`").concat(f.name()).concat(
                "` must be initialized",
            ),
            BuildError::InvalidField(f) => String::from_str("`").concat(f.name()).concat(
                "` has an invalid value",
            ),
        };
        InterpolError { kind: InterpolErrorKind::Builder, reason }
    }

    /// The failure reported for a record that could not be registered: the
    /// reason is the allocator's own report.
    pub fn from_register(e: RegisterError) -> (r: InterpolError)
        ensures
            r.kind == InterpolErrorKind::TryReserve,
            match e {
                RegisterError::OutOfMemory(cause) => to_string_from_display_ensures::<
                    TryReserveError,
                >(&cause, r.reason),
            },
    {
        let RegisterError::OutOfMemory(cause) = e;
        InterpolError { kind: InterpolErrorKind::TryReserve, reason: cause.to_string() }
    }
}

} // verus!
