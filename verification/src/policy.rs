//! Policy engine: decides Allow / Deny / AskUser for an operation that an
//! identified caller asks for.
//!
//! Rules are keyed by the caller's executable path. A caller without a rule
//! is denied; within a rule, an explicit deny wins over an explicit allow,
//! and a capability named by neither asks the user.
use vstd::prelude::*;
use crate::keyed::{
    distinct_keys, find_key, keyed_map, lemma_keyed_map_at, lemma_keyed_map_push,
    lemma_keyed_map_update, Keyed,
};

verus! {

/// Outcome of a policy evaluation.
#[derive(Debug, Clone, Copy, PartialEq, Eq, Structural)]
pub enum Decision {
    Allow,
    Deny,
    AskUser,
}

/// The rule that applies to one executable.
#[derive(Debug, Clone)]
pub struct Rule {
    pub executable: String,
    pub allow: Vec<String>,
    pub deny: Vec<String>,
}

/// A rule as plain values.
pub struct RuleView {
    pub executable: Seq<char>,
    pub allow: Seq<Seq<char>>,
    pub deny: Seq<Seq<char>>,
}

/// The characters of each string of a sequence.
pub open spec fn strings_view(v: Seq<String>) -> Seq<Seq<char>> {
    v.map_values(|s: String| s@)
}

impl View for Rule {
    type V = RuleView;

    open spec fn view(&self) -> RuleView {
        RuleView {
            executable: self.executable@,
            allow: strings_view(self.allow@),
            deny: strings_view(self.deny@),
        }
    }
}

/// What a single rule answers for `cap`: an explicit deny wins over an
/// explicit allow, and a capability named by neither asks the user.
pub open spec fn decide_by_rule(rule: RuleView, cap: Seq<char>) -> Decision {
    if rule.deny.contains(cap) {
        Decision::Deny
    } else if rule.allow.contains(cap) {
        Decision::Allow
    } else {
        Decision::AskUser
    }
}

/// What the engine answers for `exe` asking for `cap`, given its rules: a
/// caller without a rule is denied.
pub open spec fn decide(rules: Map<Seq<char>, RuleView>, exe: Seq<char>, cap: Seq<char>) -> Decision {
    if rules.contains_key(exe) {
        decide_by_rule(rules[exe], cap)
    } else {
        Decision::Deny
    }
}

/// The rules of an engine, keyed by executable. At most one rule is kept
/// per executable.
pub struct PolicyEngine {
    rules: Vec<Rule>,
}

impl Keyed for Rule {
    type V = RuleView;

    open spec fn key_view(&self) -> Seq<char> {
        self.executable@
    }

    open spec fn value_view(&self) -> RuleView {
        self@
    }

    fn key(&self) -> (r: &String) {
        &self.executable
    }
}

impl View for PolicyEngine {
    type V = Map<Seq<char>, RuleView>;

    closed spec fn view(&self) -> Map<Seq<char>, RuleView> {
        keyed_map(self.rules@)
    }
}

/// Whether `v` holds a string with the characters of `s`.
fn strings_contain(v: &Vec<String>, s: &String) -> (r: bool)
    ensures
        r == strings_view(v@).contains(s@),
{
    let mut i: usize = 0;
    while i < v.len()
        invariant
            i <= v.len(),
            forall|j: int| 0 <= j < i ==> v@[j]@ != s@,
        decreases v.len() - i,
    {
        if v[i] == *s {
            assert(strings_view(v@)[i as int] == s@);
            return true;
        }
        i = i + 1;
    }
    assert forall|j: int| 0 <= j < strings_view(v@).len() implies strings_view(v@)[j] != s@ by {
        assert(strings_view(v@)[j] == v@[j]@);
    }
    false
}

impl PolicyEngine {
    #[verifier::type_invariant]
    spec fn inv(self) -> bool {
        distinct_keys(self.rules@)
    }

    /// An engine with no rules.
    pub fn new() -> (r: Self)
        ensures
            r@ == Map::<Seq<char>, RuleView>::empty(),
    {
        let r = PolicyEngine { rules: Vec::new() };
        assert(r@ =~= Map::<Seq<char>, RuleView>::empty());
        r
    }

    /// Adds `rule`, replacing any rule for the same executable.
    pub fn add_rule(&mut self, rule: Rule)
        ensures
            final(self)@ == old(self)@.insert(rule.executable@, rule@),
    {
        proof {
            use_type_invariant(&*self);
        }
        let found = find_key(&self.rules, &rule.executable);
        let mut rules: Vec<Rule> = Vec::new();
        std::mem::swap(&mut rules, &mut self.rules);
        match found {
            Some(i) => {
                proof {
                    lemma_keyed_map_update(rules@, i as int, rule);
                }
                rules.set(i, rule);
            },
            None => {
                proof {
                    lemma_keyed_map_push(rules@, rule);
                }
                rules.push(rule);
            },
        }
        self.rules = rules;
    }

    /// Decides whether `capability` is allowed for the executable
    /// `caller_exe`.
    pub fn evaluate(&self, caller_exe: &str, capability: &str) -> (r: Decision)
        ensures
            r == decide(self@, caller_exe@, capability@),
    {
        proof {
            use_type_invariant(self);
        }
        let exe = caller_exe.to_owned();
        let cap = capability.to_owned();
        match find_key(&self.rules, &exe) {
            None => Decision::Deny,
            Some(i) => {
                proof {
                    lemma_keyed_map_at(self.rules@, i as int);
                }
                let rule = &self.rules[i];
                if strings_contain(&rule.deny, &cap) {
                    Decision::Deny
                } else if strings_contain(&rule.allow, &cap) {
                    Decision::Allow
                } else {
                    Decision::AskUser
                }
            },
        }
    }
}

impl Default for PolicyEngine {
    /// An engine with no rules.
    fn default() -> (r: Self)
        ensures
            r@ == Map::<Seq<char>, RuleView>::empty(),
    {
        PolicyEngine::new()
    }
}

/// A new engine denies every capability to every caller.
pub proof fn lemma_new_engine_denies_all(exe: Seq<char>, cap: Seq<char>)
    ensures
        decide(Map::<Seq<char>, RuleView>::empty(), exe, cap) == Decision::Deny,
{
}

/// A caller for whose executable no rule was added is denied, whatever it
/// asks for.
pub proof fn lemma_unknown_caller_denied(rules: Map<Seq<char>, RuleView>, exe: Seq<char>, cap: Seq<char>)
    requires
        !rules.contains_key(exe),
    ensures
        decide(rules, exe, cap) == Decision::Deny,
{
}

/// A capability that the caller's rule denies is denied, even where the
/// same rule also allows it.
pub proof fn lemma_deny_wins(rules: Map<Seq<char>, RuleView>, exe: Seq<char>, cap: Seq<char>)
    requires
        rules.contains_key(exe),
        rules[exe].deny.contains(cap),
    ensures
        decide(rules, exe, cap) == Decision::Deny,
{
}

/// After a rule is added, its executable is judged by that rule alone,
/// whatever rule it had before.
pub proof fn lemma_added_rule_governs(rules: Map<Seq<char>, RuleView>, rule: RuleView, cap: Seq<char>)
    ensures
        decide(rules.insert(rule.executable, rule), rule.executable, cap) == decide_by_rule(rule, cap),
{
}

/// Adding a rule leaves the decisions for every other executable as they
/// were.
pub proof fn lemma_add_rule_keeps_others(
    rules: Map<Seq<char>, RuleView>,
    rule: RuleView,
    exe: Seq<char>,
    cap: Seq<char>,
)
    requires
        exe != rule.executable,
    ensures
        decide(rules.insert(rule.executable, rule), exe, cap) == decide(rules, exe, cap),
{
}

/// A capability that is neither allowed nor denied by the caller's rule
/// asks the user.
pub proof fn lemma_unlisted_asks_user(rules: Map<Seq<char>, RuleView>, exe: Seq<char>, cap: Seq<char>)
    requires
        rules.contains_key(exe),
        !rules[exe].deny.contains(cap),
        !rules[exe].allow.contains(cap),
    ensures
        decide(rules, exe, cap) == Decision::AskUser,
{
}

/// A capability that the caller's rule allows, at any position of its
/// allow list, and does not deny, is allowed.
pub proof fn lemma_allowed_capability_allowed(
    rules: Map<Seq<char>, RuleView>,
    exe: Seq<char>,
    cap: Seq<char>,
    i: int,
)
    requires
        rules.contains_key(exe),
        !rules[exe].deny.contains(cap),
        0 <= i < rules[exe].allow.len(),
        rules[exe].allow[i] == cap,
    ensures
        decide(rules, exe, cap) == Decision::Allow,
{
    assert(rules[exe].allow.contains(cap));
}

/// Each decision, told by the caller's rule alone: Allow exactly when the
/// caller has a rule whose allow list names the capability and whose deny
/// list does not; AskUser exactly when it has a rule that names the
/// capability in neither list; Deny otherwise, that is, when it has no
/// rule or its rule denies the capability.
pub proof fn lemma_decisions_characterised(rules: Map<Seq<char>, RuleView>, exe: Seq<char>, cap: Seq<char>)
    ensures
        decide(rules, exe, cap) == Decision::Allow <==> (rules.contains_key(exe) && (exists|i: int|
            0 <= i < rules[exe].allow.len() && rules[exe].allow[i] == cap) && !(exists|j: int|
            0 <= j < rules[exe].deny.len() && rules[exe].deny[j] == cap)),
        decide(rules, exe, cap) == Decision::AskUser <==> (rules.contains_key(exe) && !(exists|i: int|
            0 <= i < rules[exe].allow.len() && rules[exe].allow[i] == cap) && !(exists|j: int|
            0 <= j < rules[exe].deny.len() && rules[exe].deny[j] == cap)),
        decide(rules, exe, cap) == Decision::Deny <==> (!rules.contains_key(exe) || (exists|j: int|
            0 <= j < rules[exe].deny.len() && rules[exe].deny[j] == cap)),
{
}

} // verus!
