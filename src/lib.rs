//! Remote command execution over a pluggable transport.
//!
//! The library holds the verified core: the command model and its wire
//! encoding, the error taxonomy, the session lifecycle, and the decisions of
//! the secure-shell transport (address selection, connection setup and
//! authentication, and the per-command channel receive loop). The driver that
//! performs network I/O feeds events into these functions and carries out the
//! actions they return.
use vstd::prelude::*;

pub mod channel;
pub mod client;
pub mod error;
pub mod ssh;

pub use error::Error;

verus! {

/// Result type of every fallible operation of the library.
pub type Result<T> = core::result::Result<T, Error>;

} // verus!
