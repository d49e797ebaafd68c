//! A socket transport backend for a collective-communication library: device
//! discovery, a table of communicators reached through opaque identifiers, and the
//! bookkeeping of non-blocking transfers that resume where they stopped.
pub mod backend;
pub mod device;
pub mod error;
pub mod speed;
pub mod table;
pub mod transfer;
