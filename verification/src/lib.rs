//! Decision core of a non-blocking TCP transport provider.
//!
//! The provider bridges a readiness-based reactor — repeated non-blocking
//! attempts, resumed by wake events — with the request/response semantics of
//! connect and accept, while tolerating spurious wake-ups and interleaved
//! interface up/down notifications, without ever blocking a worker thread.
//!
//! Everything the operating system decides — readiness, accept results,
//! deferred connect errors, interface notifications — enters this crate as a
//! plain value, and every decision the provider makes on such values is made
//! and verified here: the connect sequencer in [`connect`], the accept loop
//! in [`accept`], and the interface event mapper in [`interfaces`]. The thin
//! shell that owns the sockets, registers them with the reactor and performs
//! the actual calls lives outside the library and feeds their results in.

use vstd::prelude::*;

pub mod accept;
pub mod addr;
pub mod connect;
pub mod interfaces;

verus! {

/// Marker selecting the readiness-reactor-backed TCP provider at composition
/// time; it carries no state.
#[derive(Clone, Copy, Debug, PartialEq, Eq, Structural)]
pub enum Tcp {
    /// The only value of the marker.
    Provider,
}

} // verus!
