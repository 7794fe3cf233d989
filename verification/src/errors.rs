//! The error taxonomy shared by the pool, the resource store and the RPC
//! surface. `NoTaskAvailable` is a normal "empty queue" signal, not a fault;
//! `Storage` is the one transient kind, safe to retry; the others are
//! terminal for the call that raised them.

use vstd::prelude::*;

verus! {

#[derive(Clone, Copy, Debug, PartialEq, Eq, Structural)]
pub enum ProxyError {
    /// The named task or resource id was never stored.
    NotFound,
    /// A claim or report hit a task in the wrong state or owned by another
    /// worker; the caller must re-poll, not retry the same call.
    Conflict,
    /// No `Init` task exists right now; poll again later.
    NoTaskAvailable,
    /// The backing store failed; transient, retry with backoff.
    Storage,
    /// Malformed input, rejected before any mutation.
    InvalidParams,
}

} // verus!
