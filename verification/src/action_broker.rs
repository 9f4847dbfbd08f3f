//! The capability broker: a registry mapping capability names to providers,
//! with replace-on-register semantics, and the settlement step that turns
//! every provider outcome into the closed `ActionResult` shape.
//!
//! The asynchronous race of a provider's execution against its deadline is the
//! embedding runtime's work; the runtime reports how the race ended as a
//! [`ProviderOutcome`], and [`settle`] decides the result returned to the
//! caller. Routing ([`ActionBroker::resolve`]) and registration are verified
//! against a `Map` view of the registry.

use vstd::pervasive::VecAdditionalExecFns;
use vstd::prelude::*;
use vstd::string::StringExecFns;

use crate::model::{ActionError, ActionResult, ActionStatus, CapabilityDescriptor};

verus! {

/// A concrete implementation backing a capability.
///
/// `descriptor` reports the metadata — in particular the routing name — under
/// which the provider registers. Implementations are expected to keep it cheap
/// and stable while registered. The provider's actual execution is
/// asynchronous and driven by the embedding runtime, which reports how it
/// ended as a [`ProviderOutcome`].
pub trait CapabilityProvider {
    fn descriptor(&self) -> CapabilityDescriptor;
}

/// Routing failure of a dispatch: the one condition reported to the caller of
/// a dispatch directly instead of being encoded into an `ActionResult`,
/// because no provider exists to attempt execution.
#[derive(Debug)]
pub enum BrokerError {
    CapabilityNotFound { capability: String },
}

impl BrokerError {
    /// Human-readable description of the failure, naming the capability that
    /// could not be routed.
    pub fn message(&self) -> (r: String)
        ensures
            self matches BrokerError::CapabilityNotFound { capability } ==> r@
                == "Capability not found: "@ + capability@,
    {
        match self {
            BrokerError::CapabilityNotFound { capability } => {
                let mut r = String::from_str("Capability not found: ");
                r.append(capability.as_str());
                r
            },
        }
    }
}

/// How the race between a provider's execution and its deadline ended, as
/// reported by the embedding runtime.
///
/// `Completed` carries a result the provider itself produced (successful or
/// not); `Faulted` carries the stringified failure of a provider whose
/// execution failed outside its own result channel; `TimedOut` means the
/// deadline elapsed first and the broker stopped waiting.
pub enum ProviderOutcome {
    Completed(ActionResult),
    Faulted(String),
    TimedOut,
}

/// No two entries share a capability name.
pub open spec fn unique_names<P>(s: Seq<(CapabilityDescriptor, P)>) -> bool {
    forall|i: int, j: int|
        0 <= i < j < s.len() ==> s[i].0.name@ != s[j].0.name@
}

/// The binding that a sequence of registry entries amounts to: later entries
/// shadow earlier ones of the same name.
pub open spec fn registry_map<P>(s: Seq<(CapabilityDescriptor, P)>) -> Map<
    Seq<char>,
    (CapabilityDescriptor, P),
> decreases s.len() {
    if s.len() == 0 {
        Map::empty()
    } else {
        registry_map(s.drop_last()).insert(s.last().0.name@, s.last())
    }
}

/// A name is bound exactly when some entry carries it.
proof fn lemma_registry_map_domain<P>(s: Seq<(CapabilityDescriptor, P)>, name: Seq<char>)
    ensures
        registry_map(s).contains_key(name) <==> exists|i: int|
            0 <= i < s.len() && s[i].0.name@ == name,
    decreases s.len(),
{
    if s.len() > 0 {
        lemma_registry_map_domain(s.drop_last(), name);
        if registry_map(s).contains_key(name) {
            if s.last().0.name@ != name {
                let i = choose|i: int| 0 <= i < s.drop_last().len() && s.drop_last()[i].0.name@ == name;
                assert(s[i].0.name@ == name);
            } else {
                assert(s[s.len() - 1].0.name@ == name);
            }
        }
        if exists|i: int| 0 <= i < s.len() && s[i].0.name@ == name {
            let i = choose|i: int| 0 <= i < s.len() && s[i].0.name@ == name;
            if i < s.len() - 1 {
                assert(s.drop_last()[i].0.name@ == name);
            }
        }
    }
}

/// With unique names, each entry is exactly the binding of its own name.
proof fn lemma_registry_map_index<P>(s: Seq<(CapabilityDescriptor, P)>, i: int)
    requires
        unique_names(s),
        0 <= i < s.len(),
    ensures
        registry_map(s).contains_key(s[i].0.name@),
        registry_map(s)[s[i].0.name@] == s[i],
    decreases s.len(),
{
    if i == s.len() - 1 {
    } else {
        assert(unique_names(s.drop_last())) by {
            assert(forall|x: int, y: int|
                0 <= x < y < s.drop_last().len() ==> s.drop_last()[x] == s[x] && s.drop_last()[y]
                    == s[y]);
        }
        assert(s.drop_last()[i] == s[i]);
        lemma_registry_map_index(s.drop_last(), i);
        assert(s[i].0.name@ != s.last().0.name@);
    }
}

/// Replacing the entry that holds a name rebinds that name and nothing else.
proof fn lemma_registry_map_update<P>(
    s: Seq<(CapabilityDescriptor, P)>,
    i: int,
    v: (CapabilityDescriptor, P),
)
    requires
        unique_names(s),
        0 <= i < s.len(),
        v.0.name@ == s[i].0.name@,
    ensures
        registry_map(s.update(i, v)) == registry_map(s).insert(v.0.name@, v),
    decreases s.len(),
{
    let t = s.update(i, v);
    if i == s.len() - 1 {
        assert(t.drop_last() =~= s.drop_last());
        assert(t.last() == v);
        assert(registry_map(t) =~= registry_map(s).insert(v.0.name@, v));
    } else {
        assert(unique_names(s.drop_last())) by {
            assert(forall|x: int, y: int|
                0 <= x < y < s.drop_last().len() ==> s.drop_last()[x] == s[x] && s.drop_last()[y]
                    == s[y]);
        }
        assert(s.drop_last()[i] == s[i]);
        lemma_registry_map_update(s.drop_last(), i, v);
        assert(t.drop_last() =~= s.drop_last().update(i, v));
        assert(t.last() == s.last());
        assert(s[i].0.name@ != s.last().0.name@);
        assert(registry_map(t) =~= registry_map(s).insert(v.0.name@, v));
    }
}

/// With unique names, the bound-name map has exactly one binding per entry.
proof fn lemma_registry_map_len<P>(s: Seq<(CapabilityDescriptor, P)>)
    requires
        unique_names(s),
    ensures
        registry_map(s).dom().finite(),
        registry_map(s).dom().len() == s.len(),
    decreases s.len(),
{
    if s.len() == 0 {
        broadcast use vstd::set::axiom_set_empty_finite, vstd::set::axiom_set_empty_len;

        assert(registry_map(s).dom() =~= Set::<Seq<char>>::empty());
    } else {
        let d = s.drop_last();
        assert(unique_names(d)) by {
            assert(forall|x: int, y: int|
                0 <= x < y < d.len() ==> d[x] == s[x] && d[y] == s[y]);
        }
        lemma_registry_map_len(d);
        lemma_registry_map_domain(d, s.last().0.name@);
        assert(forall|i: int| 0 <= i < d.len() ==> d[i] == s[i]);
        assert(!registry_map(d).contains_key(s.last().0.name@));
        assert(registry_map(s).dom() =~= registry_map(d).dom().insert(s.last().0.name@));
        vstd::set::axiom_set_insert_len(registry_map(d).dom(), s.last().0.name@);
    }
}

/// The broker: the one mutable structure of the dispatch core, binding each
/// capability name to the most recently registered provider for it.
///
/// Its view is the bound-name map; `wf` says no name is bound twice.
pub struct ActionBroker<P> {
    pub registry: Vec<(CapabilityDescriptor, P)>,
}

impl<P> View for ActionBroker<P> {
    type V = Map<Seq<char>, (CapabilityDescriptor, P)>;

    open spec fn view(&self) -> Map<Seq<char>, (CapabilityDescriptor, P)> {
        registry_map(self.registry@)
    }
}

impl<P: CapabilityProvider> ActionBroker<P> {
    /// No two registry entries share a capability name.
    pub open spec fn wf(self) -> bool {
        unique_names(self.registry@)
    }

    /// An empty broker: no capability is bound.
    pub fn new() -> (r: Self)
        ensures
            r.wf(),
            r@ == Map::<Seq<char>, (CapabilityDescriptor, P)>::empty(),
    {
        ActionBroker { registry: Vec::new() }
    }

    /// Index of the entry holding `name`, if any.
    fn find_index(&self, name: &String) -> (r: Option<usize>)
        ensures
            match r {
                Some(i) => i < self.registry@.len() && self.registry@[i as int].0.name@ == name@,
                None => forall|j: int|
                    0 <= j < self.registry@.len() ==> self.registry@[j].0.name@ != name@,
            },
    {
        let mut i: usize = 0;
        let n = self.registry.len();
        while i < n
            invariant
                i <= n,
                n == self.registry@.len(),
                forall|j: int| 0 <= j < i ==> self.registry@[j].0.name@ != name@,
            decreases n - i,
        {
            if self.registry[i].0.name == *name {
                return Some(i);
            }
            i = i + 1;
        }
        None
    }

    /// Stores `provider` under the name its descriptor reports, replacing any
    /// prior binding for that name, and returns that name.
    ///
    /// The new state is exactly the old binding map with this one name rebound
    /// to the new provider: no other binding is touched.
    pub fn register_provider(&mut self, provider: P) -> (name: String)
        requires
            old(self).wf(),
        ensures
            final(self).wf(),
            final(self)@.contains_key(name@),
            final(self)@[name@].0.name@ == name@,
            final(self)@[name@].1 == provider,
            final(self)@ == old(self)@.insert(name@, final(self)@[name@]),
    {
        let d = provider.descriptor();
        let name = d.name.clone();
        match self.find_index(&d.name) {
            Some(i) => {
                proof {
                    lemma_registry_map_update(self.registry@, i as int, (d, provider));
                    lemma_registry_map_index(old(self).registry@, i as int);
                    assert(unique_names(self.registry@.update(i as int, (d, provider))));
                }
                self.registry.set(i, (d, provider));
            },
            None => {
                proof {
                    let s = self.registry@;
                    let v = (d, provider);
                    assert(s.push(v).drop_last() =~= s);
                    assert(unique_names(s.push(v)));
                    lemma_registry_map_domain(s, d.name@);
                }
                self.registry.push((d, provider));
            },
        }
        name
    }

    /// A snapshot of the descriptors of all currently registered providers:
    /// one per bound name, in registration order.
    pub fn list_capabilities(&self) -> (r: Vec<CapabilityDescriptor>)
        ensures
            r@.len() == self.registry@.len(),
            forall|i: int| 0 <= i < r@.len() ==> #[trigger] r@[i].equiv(self.registry@[i].0),
            self.wf() ==> r@.len() == self@.dom().len(),
    {
        proof {
            if self.wf() {
                lemma_registry_map_len(self.registry@);
            }
        }
        let mut r: Vec<CapabilityDescriptor> = Vec::new();
        let mut i: usize = 0;
        let n = self.registry.len();
        while i < n
            invariant
                i <= n,
                n == self.registry@.len(),
                r@.len() == i,
                forall|j: int| 0 <= j < i ==> #[trigger] r@[j].equiv(self.registry@[j].0),
            decreases n - i,
        {
            r.push(self.registry[i].0.clone());
            i = i + 1;
        }
        r
    }

    /// Routing: the provider currently bound to `name`, or the one
    /// broker-level error when no provider is bound to it.
    pub fn resolve(&self, name: &String) -> (r: Result<&P, BrokerError>)
        requires
            self.wf(),
        ensures
            match r {
                Ok(p) => self@.contains_key(name@) && *p == self@[name@].1,
                Err(e) => {
                    &&& !self@.contains_key(name@)
                    &&& e matches BrokerError::CapabilityNotFound { capability } && capability@
                        == name@
                },
            },
    {
        match self.find_index(name) {
            Some(i) => {
                proof {
                    lemma_registry_map_index(self.registry@, i as int);
                }
                Ok(&self.registry[i].1)
            },
            None => {
                proof {
                    lemma_registry_map_domain(self.registry@, name@);
                }
                Err(BrokerError::CapabilityNotFound { capability: name.clone() })
            },
        }
    }
}

impl<P: CapabilityProvider> Default for ActionBroker<P> {
    /// Same as `new`: an empty broker.
    fn default() -> (r: Self)
        ensures
            r.wf(),
            r@ == Map::<Seq<char>, (CapabilityDescriptor, P)>::empty(),
    {
        ActionBroker::new()
    }
}

/// Exactly what `settle` returns for a call id and an outcome: a completed
/// result passes through unchanged; a fault is wrapped as an `ActionError`
/// status with code `CAPABILITY_ERROR` and the fault text as message; an
/// elapsed deadline becomes an `ActionTimeout` status with code `TIMEOUT`.
/// The two broker-built branches echo the call id, attach empty details, and
/// carry no output.
pub open spec fn settles_to(call_id: Seq<char>, outcome: ProviderOutcome, r: ActionResult) -> bool {
    match outcome {
        ProviderOutcome::Completed(res) => r == res,
        ProviderOutcome::Faulted(msg) => {
            &&& r.id@ == call_id
            &&& r.status is ActionError
            &&& r.output@.len() == 0
            &&& r.error matches Some(e) && e.code@ == "CAPABILITY_ERROR"@ && e.message@ == msg@
                && e.details@.len() == 0
        },
        ProviderOutcome::TimedOut => {
            &&& r.id@ == call_id
            &&& r.status is ActionTimeout
            &&& r.output@.len() == 0
            &&& r.error matches Some(e) && e.code@ == "TIMEOUT"@ && e.message@
                == "Action timed out"@ && e.details@.len() == 0
        },
    }
}

/// Settlement: turns the reported end of a provider race into the one result
/// returned to the caller. Every provider misbehavior is downgraded into data
/// here; nothing is propagated.
pub fn settle(call_id: String, outcome: ProviderOutcome) -> (r: ActionResult)
    ensures
        settles_to(call_id@, outcome, r),
{
    match outcome {
        ProviderOutcome::Completed(res) => res,
        ProviderOutcome::Faulted(msg) => ActionResult {
            id: call_id,
            status: ActionStatus::ActionError,
            output: Vec::new(),
            error: Some(
                ActionError {
                    code: String::from_str("CAPABILITY_ERROR"),
                    message: msg,
                    details: Vec::new(),
                },
            ),
        },
        ProviderOutcome::TimedOut => ActionResult {
            id: call_id,
            status: ActionStatus::ActionTimeout,
            output: Vec::new(),
            error: Some(
                ActionError {
                    code: String::from_str("TIMEOUT"),
                    message: String::from_str("Action timed out"),
                    details: Vec::new(),
                },
            ),
        },
    }
}

/// Routing determinism and replacement: registering a provider under a name
/// rebinds exactly that name — the name now resolves to the new binding, and
/// every other name's binding (present or absent) is untouched. In-flight
/// calls are unaffected: a dispatch holds the provider value it resolved, and
/// rebinding a name changes only the broker's map, never that value.
pub proof fn lemma_registration_replaces<P>(
    m: Map<Seq<char>, (CapabilityDescriptor, P)>,
    d: CapabilityDescriptor,
    p: P,
)
    ensures
        m.insert(d.name@, (d, p))[d.name@] == (d, p),
        forall|n: Seq<char>|
            n != d.name@ ==> (m.insert(d.name@, (d, p)).contains_key(n) <==> m.contains_key(n)),
        forall|n: Seq<char>|
            n != d.name@ && m.contains_key(n) ==> m.insert(d.name@, (d, p))[n] == m[n],
{
}

/// Id echo: a settled result carries the call's id in every status branch,
/// provided a result completed by the provider itself echoes the id (as the
/// result shape requires of providers).
pub proof fn lemma_settle_id_echo(call_id: Seq<char>, outcome: ProviderOutcome, r: ActionResult)
    requires
        settles_to(call_id, outcome, r),
        outcome matches ProviderOutcome::Completed(res) ==> res.id@ == call_id,
    ensures
        r.id@ == call_id,
{
}

/// Status/error/output invariant: a settled result has `ActionOk` status
/// exactly when no error is attached, and a non-`ActionOk` status exactly when
/// its output is empty — provided a result completed by the provider itself
/// satisfies that invariant. The broker-built failure and timeout branches
/// satisfy it unconditionally.
pub proof fn lemma_settle_status_invariant(
    call_id: Seq<char>,
    outcome: ProviderOutcome,
    r: ActionResult,
)
    requires
        settles_to(call_id, outcome, r),
        outcome matches ProviderOutcome::Completed(res) ==> res.status_error_consistent(),
    ensures
        r.status_error_consistent(),
{
}

} // verus!
