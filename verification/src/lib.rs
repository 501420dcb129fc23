//! A permission-gated view of a process environment and a cooperative
//! shutdown signal, for a host that runs sandboxed guest code.
//!
//! Every operation runs capability check, then syntax validation, then
//! mutation; a failed call changes nothing.

pub mod error;
pub mod exit;
pub mod laws;
pub mod ops;
pub mod permission;
pub mod store;
pub mod validate;
