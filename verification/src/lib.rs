//! Dispatch core of an agent runtime: a registry of named capabilities and a
//! broker that routes typed action calls to the registered provider, selects an
//! effective deadline, and normalizes every provider outcome (completion,
//! fault, non-termination) into one closed result shape.
//!
//! The asynchronous race between a provider's execution and its deadline is
//! performed by the embedding runtime; this crate verifies every decision the
//! broker takes around that race: routing, deadline selection, outcome
//! settlement, and the registry's replacement semantics.

pub mod action_broker;
pub mod context;
pub mod model;

use vstd::prelude::*;

verus! {

/// Default deadline, in milliseconds, applied when a call carries no positive
/// timeout of its own.
pub const DEFAULT_TIMEOUT_MS: u64 = 30000;

/// Effective deadline for a call: the call's own `timeout_ms` when positive,
/// otherwise the broker default of 30,000 ms.
pub fn effective_timeout_ms(timeout_ms: i64) -> (r: u64)
    ensures
        timeout_ms <= 0 ==> r == DEFAULT_TIMEOUT_MS,
        timeout_ms > 0 ==> r == timeout_ms as u64,
{
    if timeout_ms <= 0 {
        DEFAULT_TIMEOUT_MS
    } else {
        timeout_ms as u64
    }
}

} // verus!
