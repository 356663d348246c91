//! Lifecycle and discovery-event core of a local-network peer-presence service.
//!
//! The asynchronous runtime, the broadcast channel and the network endpoint are
//! driven by the host program; this library decides what each start, stop,
//! discovery event and summary tick leads to.

pub mod plist;
pub mod identifier;
pub mod lifecycle;
pub mod discovery;
pub mod summary;
pub mod session;
