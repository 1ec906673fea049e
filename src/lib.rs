//! Recording, per-process registry and cross-process merge of timestamped
//! communication-library events.

pub mod types;
pub mod error;
pub mod mpi_events;
pub mod event;
pub mod registry;
pub mod dispatch;
pub mod merge;
