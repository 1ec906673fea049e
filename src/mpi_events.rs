//! One record shape per traced operation kind, each with a builder that
//! refuses to produce a record while a field is missing.

pub mod collectives;
pub mod management;
pub mod point_to_point;
pub mod synchronization;
