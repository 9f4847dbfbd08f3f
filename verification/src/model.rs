//! Data model of the dispatch core: capability descriptors, action calls, and
//! the closed result shape every dispatched call settles into.

use vstd::prelude::*;

verus! {

/// Tags the implementation technique backing a capability (in-process native
/// code, sandboxed execution, or an adapter to a remote procedure).
/// Informational only: dispatch does not depend on it.
#[derive(Clone, Copy, Debug, PartialEq, Eq, Structural)]
pub enum ProviderKind {
    Native,
    Sandboxed,
    RemoteAdapter,
}

/// Advisory quality-of-service class of a call. The broker does not schedule
/// differently by class.
#[derive(Clone, Copy, Debug, PartialEq, Eq, Structural)]
pub enum QosLevel {
    Unspecified,
    Realtime,
    Background,
}

/// Terminal status of a dispatched call: a closed set, decided exactly once
/// per call.
#[derive(Clone, Copy, Debug, PartialEq, Eq, Structural)]
pub enum ActionStatus {
    ActionOk,
    ActionError,
    ActionTimeout,
}

/// Immutable metadata under which a capability is discovered and invoked.
/// `name` is the routing key; `version` and `metadata` are carried for
/// introspection and are not used for routing.
#[derive(Debug)]
pub struct CapabilityDescriptor {
    pub name: String,
    pub version: String,
    pub provider: ProviderKind,
    pub metadata: Vec<(String, String)>,
}

impl CapabilityDescriptor {
    /// Field-for-field agreement, with the metadata pairs compared by
    /// contents. This is what a clone of a descriptor preserves.
    pub open spec fn equiv(self, other: Self) -> bool {
        &&& self.name == other.name
        &&& self.version == other.version
        &&& self.provider == other.provider
        &&& self.metadata@ == other.metadata@
    }
}

/// Clones a sequence of string pairs, preserving its contents exactly.
fn clone_string_pairs(v: &Vec<(String, String)>) -> (r: Vec<(String, String)>)
    ensures
        r@ == v@,
{
    let mut r: Vec<(String, String)> = Vec::new();
    let mut i: usize = 0;
    while i < v.len()
        invariant
            i <= v.len(),
            r@ =~= v@.subrange(0, i as int),
        decreases v.len() - i,
    {
        let pair = (v[i].0.clone(), v[i].1.clone());
        r.push(pair);
        i = i + 1;
    }
    assert(r@ =~= v@);
    r
}

impl Clone for CapabilityDescriptor {
    fn clone(&self) -> (r: Self)
        ensures
            r.equiv(*self),
    {
        CapabilityDescriptor {
            name: self.name.clone(),
            version: self.version.clone(),
            provider: self.provider,
            metadata: clone_string_pairs(&self.metadata),
        }
    }
}

/// A single typed call routed by the broker. `capability` is the registry key;
/// `id` and `correlation_id` are opaque correlation tokens; `payload` and
/// `headers` are provider-interpreted; `timeout_ms <= 0` selects the broker's
/// default deadline; `version` and `qos` are advisory.
#[derive(Debug)]
pub struct ActionCall {
    pub id: String,
    pub capability: String,
    pub version: String,
    pub payload: Vec<u8>,
    pub headers: Vec<(String, String)>,
    pub timeout_ms: i64,
    pub correlation_id: String,
    pub qos: QosLevel,
}

/// Structured error attached to a non-`ActionOk` result: a short
/// machine-readable `code`, a human-readable `message`, and free-form
/// `details`.
#[derive(Debug)]
pub struct ActionError {
    pub code: String,
    pub message: String,
    pub details: Vec<(String, String)>,
}

/// The one result shape every dispatched call settles into. `output` carries
/// data only on success; `error` is attached only to failures and timeouts.
#[derive(Debug)]
pub struct ActionResult {
    pub id: String,
    pub status: ActionStatus,
    pub output: Vec<u8>,
    pub error: Option<ActionError>,
}

impl ActionResult {
    /// The result invariant: the status is `ActionOk` exactly when no error is
    /// attached, and is a failure or timeout exactly when the output is empty.
    pub open spec fn status_error_consistent(self) -> bool {
        &&& self.status is ActionOk <==> self.error is None
        &&& !(self.status is ActionOk) <==> self.output@.len() == 0
    }
}

} // verus!
