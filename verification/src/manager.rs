//! Where the daemon, the policy engine and the provider adapters meet.
//! Defines the `ProviderAdapter` contract that every credential provider
//! implements.
//!
//! An adapter never decides whether an operation is allowed: it only knows
//! how to carry it out once the policy engine has authorised it.
use vstd::prelude::*;
use crate::audit::{audit_entry, audit_line, decision_label, AuditSink, StdoutSink};
use crate::identity::CallerIdentity;
use crate::policy::{decide, Decision, PolicyEngine, RuleView};

verus! {

/// An operation that a caller asks a provider for.
#[derive(Debug, Clone)]
pub struct Operation {
    pub action: String,
    pub params: serde_json::Value,
}

/// Something an adapter knows how to do.
#[derive(Debug, Clone)]
pub struct Capability {
    pub name: String,
    pub description: String,
}

impl View for Capability {
    /// The name and the description.
    type V = (Seq<char>, Seq<char>);

    open spec fn view(&self) -> (Seq<char>, Seq<char>) {
        (self.name@, self.description@)
    }
}

/// The names and descriptions of a sequence of capabilities.
pub open spec fn capabilities_view(caps: Seq<Capability>) -> Seq<(Seq<char>, Seq<char>)> {
    caps.map_values(|c: Capability| c@)
}

/// Why an adapter could not carry out an operation.
#[derive(Debug)]
pub enum AdapterError {
    CredentialNotFound,
    Upstream(String),
    InvalidParams(String),
}

/// Why an operation was not carried out.
#[derive(Debug)]
pub enum DispatchError {
    /// The policy did not allow it.
    Denied,
    /// No adapter is registered under the provider's name.
    UnknownProvider(String),
    /// The adapter failed.
    Adapter(AdapterError),
}

impl From<AdapterError> for DispatchError {
    fn from(e: AdapterError) -> (r: DispatchError) {
        DispatchError::Adapter(e)
    }
}

impl vstd::std_specs::convert::FromSpecImpl<AdapterError> for DispatchError {
    open spec fn obeys_from_spec() -> bool {
        true
    }

    open spec fn from_spec(e: AdapterError) -> DispatchError {
        DispatchError::Adapter(e)
    }
}

/// A provider of credentials ("github", "ssh", "totp").
///
/// Every implementation states its name, its capabilities and what it
/// promises of the outcome of `execute` in the three spec functions, and
/// meets the contracts of `id`, `capabilities` and `execute` over them.
/// What the library proves of the credential manager assumes that every
/// adapter registered with it does so.
pub trait ProviderAdapter: Send + Sync {
    /// The provider's unique name.
    spec fn spec_id(&self) -> Seq<char>;

    /// The names and descriptions of what the adapter can do.
    spec fn spec_capabilities(&self) -> Seq<(Seq<char>, Seq<char>)>;

    /// The provider's unique name.
    fn id(&self) -> (r: &str)
        ensures
            r@ == self.spec_id(),
    ;

    /// What this adapter can do: the policy engine uses these to know what
    /// it may allow or deny.
    fn capabilities(&self) -> (r: Vec<Capability>)
        ensures
            capabilities_view(r@) == self.spec_capabilities(),
    ;

    /// What the adapter promises of the outcome `r` of carrying out
    /// `operation` for `caller`.
    spec fn execute_promise(
        &self,
        operation: Operation,
        caller: CallerIdentity,
        r: Result<serde_json::Value, AdapterError>,
    ) -> bool;

    /// Carries out an operation that the policy engine has already
    /// authorised.
    fn execute(&self, operation: &Operation, caller: &CallerIdentity) -> (r: Result<
        serde_json::Value,
        AdapterError,
    >)
        ensures
            self.execute_promise(*operation, *caller, r),
    ;
}

/// The capability that an action of a provider stands for:
/// `<provider>.<action>`.
pub open spec fn capability_of(provider: Seq<char>, action: Seq<char>) -> Seq<char> {
    provider + "."@ + action
}

/// The names of a sequence of adapters.
pub open spec fn adapter_ids<A: ProviderAdapter>(adapters: Seq<A>) -> Seq<Seq<char>> {
    adapters.map_values(|a: A| a.spec_id())
}

/// No two adapters share a name.
pub open spec fn distinct_ids<A: ProviderAdapter>(adapters: Seq<A>) -> bool {
    forall|i: int, j: int|
        0 <= i < adapters.len() && 0 <= j < adapters.len() && i != j ==> #[trigger] adapters[i].spec_id()
            != #[trigger] adapters[j].spec_id()
}

/// The capabilities of all the adapters, adapter by adapter.
pub open spec fn all_capabilities<A: ProviderAdapter>(adapters: Seq<A>) -> Seq<(Seq<char>, Seq<char>)> {
    adapters.map_values(|a: A| a.spec_capabilities()).flatten()
}

/// What an adapter's outcome becomes once dispatched: its value, or its
/// error wrapped as a dispatch error.
pub open spec fn dispatched(r: Result<serde_json::Value, AdapterError>) -> Result<
    serde_json::Value,
    DispatchError,
> {
    match r {
        Ok(v) => Ok(v),
        Err(e) => Err(DispatchError::Adapter(e)),
    }
}

/// Turns an adapter's outcome into the outcome of a dispatch.
pub fn adapter_outcome(r: Result<serde_json::Value, AdapterError>) -> (out: Result<
    serde_json::Value,
    DispatchError,
>)
    ensures
        out == dispatched(r),
{
    match r {
        Ok(v) => Ok(v),
        Err(e) => Err(DispatchError::from(e)),
    }
}

/// A boxed adapter is an adapter: it does what the adapter inside does.
impl<T: ProviderAdapter + ?Sized> ProviderAdapter for Box<T> {
    open spec fn spec_id(&self) -> Seq<char> {
        (**self).spec_id()
    }

    open spec fn spec_capabilities(&self) -> Seq<(Seq<char>, Seq<char>)> {
        (**self).spec_capabilities()
    }

    fn id(&self) -> (r: &str) {
        (**self).id()
    }

    fn capabilities(&self) -> (r: Vec<Capability>) {
        (**self).capabilities()
    }

    open spec fn execute_promise(
        &self,
        operation: Operation,
        caller: CallerIdentity,
        r: Result<serde_json::Value, AdapterError>,
    ) -> bool {
        (**self).execute_promise(operation, caller, r)
    }

    /// Whatever the adapter inside promises of its outcome.
    fn execute(&self, operation: &Operation, caller: &CallerIdentity) -> (r: Result<
        serde_json::Value,
        AdapterError,
    >) {
        (**self).execute(operation, caller)
    }
}

/// The registered adapters, at most one per provider name, the policy
/// engine that guards them, and the sink that audits every attempt.
/// Adapters of any kind can be registered side by side as
/// `Box<dyn ProviderAdapter>`, the default; by default, the audit goes to
/// standard output.
pub struct CredentialManager<
    A: ProviderAdapter = Box<dyn ProviderAdapter>,
    S: AuditSink = StdoutSink,
> {
    adapters: Vec<A>,
    policy: PolicyEngine,
    audit: S,
}

impl<A: ProviderAdapter> CredentialManager<A, StdoutSink> {
    /// A manager with no adapters, guarded by `policy`, that writes its
    /// audit entries to standard output.
    pub fn new(policy: PolicyEngine) -> (r: Self)
        ensures
            r.registered() == Seq::<A>::empty(),
            r.rules() == policy@,
            r.audit_sink() == StdoutSink,
    {
        CredentialManager { adapters: Vec::new(), policy, audit: StdoutSink }
    }
}

impl<A: ProviderAdapter, S: AuditSink> CredentialManager<A, S> {
    #[verifier::type_invariant]
    spec fn inv(self) -> bool {
        distinct_ids(self.adapters@)
    }

    /// The registered adapters, in the order they were first registered.
    pub closed spec fn registered(&self) -> Seq<A> {
        self.adapters@
    }

    /// The rules of the policy engine.
    pub closed spec fn rules(&self) -> Map<Seq<char>, RuleView> {
        self.policy@
    }

    /// The sink that audits every attempt.
    pub closed spec fn audit_sink(&self) -> S {
        self.audit
    }

    /// The names of the registered providers.
    pub open spec fn providers(&self) -> Seq<Seq<char>> {
        adapter_ids(self.registered())
    }

    /// The decision of the policy for `caller` carrying out `action` of
    /// `provider`.
    pub open spec fn decision(&self, provider: Seq<char>, action: Seq<char>, caller: CallerIdentity) -> Decision {
        decide(self.rules(), caller.spec_policy_key(), capability_of(provider, action))
    }

    /// A manager with no adapters, guarded by `policy`, that records its
    /// audit entries in `audit`.
    pub fn with_audit(policy: PolicyEngine, audit: S) -> (r: Self)
        ensures
            r.registered() == Seq::<A>::empty(),
            r.rules() == policy@,
            r.audit_sink() == audit,
    {
        CredentialManager { adapters: Vec::new(), policy, audit }
    }

    /// The index of the adapter named `provider`, if there is one.
    fn find(&self, provider: &str) -> (r: Option<usize>)
        ensures
            match r {
                Some(i) => i < self.adapters@.len() && self.adapters@[i as int].spec_id() == provider@,
                None => !self.providers().contains(provider@),
            },
    {
        let wanted = provider.to_owned();
        let mut i: usize = 0;
        while i < self.adapters.len()
            invariant
                i <= self.adapters@.len(),
                wanted@ == provider@,
                forall|j: int| 0 <= j < i ==> self.adapters@[j].spec_id() != provider@,
            decreases self.adapters@.len() - i,
        {
            let id = self.adapters[i].id().to_owned();
            if id == wanted {
                return Some(i);
            }
            i = i + 1;
        }
        assert forall|j: int| 0 <= j < self.providers().len() implies self.providers()[j]
            != provider@ by {
            assert(self.providers()[j] == self.adapters@[j].spec_id());
        }
        None
    }

    /// Registers `adapter` under its name, replacing any adapter registered
    /// under the same name.
    pub fn register(&mut self, adapter: A)
        ensures
            final(self).rules() == old(self).rules(),
            old(self).providers().contains(adapter.spec_id()) ==> final(self).registered()
                == old(self).registered().update(
                old(self).providers().index_of(adapter.spec_id()),
                adapter,
            ),
            !old(self).providers().contains(adapter.spec_id()) ==> final(self).registered()
                == old(self).registered().push(adapter),
    {
        proof {
            use_type_invariant(&*self);
        }
        let found = self.find(adapter.id());
        let ghost id = adapter.spec_id();
        let ghost old_adapters = self.adapters@;
        let mut adapters: Vec<A> = Vec::new();
        std::mem::swap(&mut adapters, &mut self.adapters);
        match found {
            Some(i) => {
                proof {
                    let k = adapter_ids(old_adapters).index_of(id);
                    assert(adapter_ids(old_adapters)[i as int] == id);
                    assert(old_adapters[k].spec_id() == id);
                }
                adapters.set(i, adapter);
                proof {
                    assert forall|a: int, b: int|
                        0 <= a < adapters@.len() && 0 <= b < adapters@.len() && a != b implies #[trigger] adapters@[a].spec_id()
                        != #[trigger] adapters@[b].spec_id() by {
                        if a != i && b != i {
                            assert(old_adapters[a].spec_id() != old_adapters[b].spec_id());
                        } else if a == i {
                            assert(old_adapters[b].spec_id() != old_adapters[a].spec_id());
                        } else {
                            assert(old_adapters[a].spec_id() != old_adapters[b].spec_id());
                        }
                    }
                }
            },
            None => {
                adapters.push(adapter);
                proof {
                    let n = old_adapters.len() as int;
                    assert forall|a: int, b: int|
                        0 <= a < adapters@.len() && 0 <= b < adapters@.len() && a != b implies #[trigger] adapters@[a].spec_id()
                        != #[trigger] adapters@[b].spec_id() by {
                        if a == n {
                            assert(adapter_ids(old_adapters)[b] == old_adapters[b].spec_id());
                        } else if b == n {
                            assert(adapter_ids(old_adapters)[a] == old_adapters[a].spec_id());
                        } else {
                            assert(old_adapters[a].spec_id() != old_adapters[b].spec_id());
                        }
                    }
                }
            },
        }
        self.adapters = adapters;
    }

    /// Everything the registered adapters can do, adapter by adapter.
    pub fn capabilities(&self) -> (r: Vec<Capability>)
        ensures
            capabilities_view(r@) == all_capabilities(self.registered()),
    {
        let mut out: Vec<Capability> = Vec::new();
        let mut i: usize = 0;
        while i < self.adapters.len()
            invariant
                i <= self.adapters@.len(),
                capabilities_view(out@) == all_capabilities(self.adapters@.take(i as int)),
            decreases self.adapters@.len() - i,
        {
            let mut caps = self.adapters[i].capabilities();
            let ghost before = out@;
            let ghost added = caps@;
            out.append(&mut caps);
            proof {
                let s = self.adapters@.take(i as int);
                let f = |a: A| a.spec_capabilities();
                assert(self.adapters@.take(i + 1) =~= s.push(self.adapters@[i as int]));
                assert(self.adapters@.take(i + 1).map_values(f) =~= s.map_values(f).push(
                    self.adapters@[i as int].spec_capabilities(),
                ));
                s.map_values(f).lemma_flatten_push(self.adapters@[i as int].spec_capabilities());
                assert(capabilities_view(before + added) =~= capabilities_view(before)
                    + capabilities_view(added));
            }
            i = i + 1;
        }
        assert(self.adapters@.take(self.adapters@.len() as int) =~= self.adapters@);
        out
    }

    /// Carries out `operation` of `provider` for `caller`, if the policy
    /// allows it: an unknown provider is refused first, then the policy
    /// decides on `<provider>.<action>` for the caller's policy key, the
    /// attempt is recorded in the audit sink (the entry that `audit_entry`
    /// builds), and only an allowed operation reaches the adapter. A
    /// decision to ask the user is, for now, a denial.
    pub fn dispatch(&self, provider: &str, operation: Operation, caller: &CallerIdentity) -> (r:
        Result<serde_json::Value, DispatchError>)
        ensures
            !self.providers().contains(provider@) ==> (r matches Err(
                DispatchError::UnknownProvider(p),
            ) && p@ == provider@),
            self.providers().contains(provider@) && self.decision(
                provider@,
                operation.action@,
                *caller,
            ) != Decision::Allow ==> r matches Err(DispatchError::Denied),
            self.providers().contains(provider@) && self.decision(
                provider@,
                operation.action@,
                *caller,
            ) == Decision::Allow ==> exists|res: Result<serde_json::Value, AdapterError>|
                self.registered()[self.providers().index_of(provider@)].execute_promise(
                    operation,
                    *caller,
                    res,
                ) && #[trigger] dispatched(res) == r,
            // every attempt on a registered provider is audited: the caller's
            // key, the provider, the action and what is done with it
            self.providers().contains(provider@) ==> self.audit_sink().recorded(
                audit_line(
                    caller.spec_policy_key(),
                    provider@,
                    operation.action@,
                    decision_label(self.decision(provider@, operation.action@, *caller)),
                ),
            ),
            // a denial comes from the policy alone, never from an adapter
            r matches Err(DispatchError::Denied) ==> self.providers().contains(provider@)
                && self.decision(provider@, operation.action@, *caller) != Decision::Allow,
            // only an operation that the policy allowed reaches an adapter
            (r is Ok || r matches Err(DispatchError::Adapter(_))) ==> self.providers().contains(
                provider@,
            ) && self.decision(provider@, operation.action@, *caller) == Decision::Allow,
    {
        let i = match self.find(provider) {
            Some(i) => i,
            None => {
                return Err(DispatchError::UnknownProvider(provider.to_owned()));
            },
        };
        proof {
            use_type_invariant(self);
            assert(self.providers()[i as int] == provider@);
            let k = self.providers().index_of(provider@);
            assert(self.adapters@[k].spec_id() == provider@);
            assert(k == i);
        }
        let mut capability = provider.to_owned();
        capability.append(".");
        capability.append(operation.action.as_str());
        let key = caller.policy_key();
        let decision = self.policy.evaluate(key.as_str(), capability.as_str());
        // every attempt on a registered provider is audited, denials
        // included, before the decision is acted on
        let entry = audit_entry(key.as_str(), provider, operation.action.as_str(), decision);
        self.audit.record(&entry);
        match decision {
            Decision::Allow => {
                let res = self.adapters[i].execute(&operation, caller);
                let out = adapter_outcome(res);
                assert(dispatched(res) == out);
                out
            },
            Decision::Deny => Err(DispatchError::Denied),
            Decision::AskUser => Err(DispatchError::Denied),
        }
    }
}

/// A caller whose policy key no rule names is denied every operation of
/// every provider, so none of its operations reaches an adapter.
pub proof fn lemma_unruled_caller_denied<A: ProviderAdapter, S: AuditSink>(
    m: CredentialManager<A, S>,
    provider: Seq<char>,
    action: Seq<char>,
    caller: CallerIdentity,
)
    requires
        !m.rules().contains_key(caller.spec_policy_key()),
    ensures
        m.decision(provider, action, caller) == Decision::Deny,
{
}

/// An adapter's outcome comes back from a dispatch unchanged: its value as
/// it is, and its error, whatever the variant, wrapped as an adapter error
/// and never turned into a denial or an unknown provider.
pub proof fn lemma_adapter_outcome_passed_back(r: Result<serde_json::Value, AdapterError>)
    ensures
        r matches Ok(v) ==> dispatched(r) == Ok::<serde_json::Value, DispatchError>(v),
        r matches Err(e) ==> dispatched(r) == Err::<serde_json::Value, DispatchError>(
            DispatchError::Adapter(e),
        ),
        !(dispatched(r) matches Err(DispatchError::Denied)),
        !(dispatched(r) matches Err(DispatchError::UnknownProvider(_))),
{
}

} // verus!
