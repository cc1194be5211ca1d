//! Synchronisation core of a status overlay: the status record, partial
//! updates and their merge rules, the shared store, and the decisions of the
//! datagram listener that feeds it, and where the overlay window stands.

pub mod level;
pub mod text;
pub mod state;
pub mod store;
pub mod listener;
pub mod placement;
