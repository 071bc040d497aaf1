use std::sync::{Arc, Mutex};

use cred_broker::adapters::{GithubAdapter, SshAdapter, TotpAdapter};
use cred_broker::audit::{format_entry, AuditEntry, AuditSink};
use cred_broker::identity::CallerIdentity;
use cred_broker::manager::{
    adapter_outcome, AdapterError, CredentialManager, DispatchError, Operation, ProviderAdapter,
};
use cred_broker::policy::{PolicyEngine, Rule};

/// A sink that keeps the lines it is given, for the tests to read back.
struct MemorySink(Arc<Mutex<Vec<String>>>);

impl AuditSink for MemorySink {
    // The trait's spec function has no run-time use; this sink keeps every
    // line it is given, so every line it is given counts as recorded.
    fn recorded(&self, _line: vstd::seq::Seq<char>) -> bool {
        true
    }

    fn record(&self, entry: &AuditEntry) {
        self.0.lock().unwrap().push(format_entry(entry));
    }
}

fn op(action: &str) -> Operation {
    Operation { action: action.to_string(), params: serde_json::Value::Null }
}

fn demo_client() -> CallerIdentity {
    CallerIdentity::new(Some(42), Some(1000), Some("/opt/demo-client.exe".to_string()))
}

type Manager = CredentialManager<Box<dyn ProviderAdapter>, MemorySink>;

fn manager() -> (Manager, Arc<Mutex<Vec<String>>>) {
    let mut policy = PolicyEngine::new();
    policy.add_rule(Rule {
        executable: "/opt/demo-client.exe".into(),
        allow: vec!["ssh.sign".into(), "github.repos.read".into()],
        deny: vec!["github.repos.write".into()],
    });
    let log = Arc::new(Mutex::new(Vec::new()));
    let mut m: Manager = CredentialManager::with_audit(policy, MemorySink(log.clone()));
    m.register(Box::new(SshAdapter::new()));
    m.register(Box::new(TotpAdapter::new()));
    m.register(Box::new(GithubAdapter::new()));
    (m, log)
}

#[test]
fn allowed_operation_reaches_adapter() {
    let (m, log) = manager();
    let r = m.dispatch("ssh", op("sign"), &demo_client());
    assert!(matches!(r, Err(DispatchError::Adapter(AdapterError::Upstream(msg))) if msg == "adapter SSH aún no implementado"));
    assert_eq!(
        *log.lock().unwrap(),
        vec!["[audit] caller=/opt/demo-client.exe provider=ssh action=sign decision=ALLOW"]
    );
}

#[test]
fn denied_operation_is_denied_and_audited() {
    let (m, log) = manager();
    let r = m.dispatch("github", op("repos.write"), &demo_client());
    assert!(matches!(r, Err(DispatchError::Denied)));
    assert_eq!(
        *log.lock().unwrap(),
        vec!["[audit] caller=/opt/demo-client.exe provider=github action=repos.write decision=DENY"]
    );
}

#[test]
fn ask_user_is_denied_for_now() {
    let (m, log) = manager();
    let r = m.dispatch("github", op("repos.list"), &demo_client());
    assert!(matches!(r, Err(DispatchError::Denied)));
    assert_eq!(log.lock().unwrap().len(), 1);
    assert!(log.lock().unwrap()[0].ends_with("decision=DENY"));
}

#[test]
fn unknown_caller_is_denied() {
    let (m, log) = manager();
    let evil = CallerIdentity::new(Some(43), Some(1000), Some("/tmp/evil/evil-demo.exe".to_string()));
    assert!(matches!(m.dispatch("ssh", op("sign"), &evil), Err(DispatchError::Denied)));
    let no_path = CallerIdentity::new(Some(43), None, None);
    assert!(matches!(m.dispatch("ssh", op("sign"), &no_path), Err(DispatchError::Denied)));
    assert_eq!(
        *log.lock().unwrap(),
        vec![
            "[audit] caller=/tmp/evil/evil-demo.exe provider=ssh action=sign decision=DENY",
            "[audit] caller=pid:43 provider=ssh action=sign decision=DENY",
        ]
    );
}

#[test]
fn unknown_provider_is_reported() {
    let (m, log) = manager();
    let r = m.dispatch("gitlab", op("read"), &demo_client());
    assert!(matches!(r, Err(DispatchError::UnknownProvider(p)) if p == "gitlab"));
    assert!(log.lock().unwrap().is_empty());
}

#[test]
fn every_attempt_is_audited() {
    let (m, log) = manager();
    let _ = m.dispatch("ssh", op("sign"), &demo_client());
    let _ = m.dispatch("github", op("repos.write"), &demo_client());
    let _ = m.dispatch("totp", op("generate"), &demo_client());
    let _ = m.dispatch("nope", op("x"), &demo_client());
    assert_eq!(log.lock().unwrap().len(), 3);
}

#[test]
fn capabilities_of_all_adapters() {
    let (m, _) = manager();
    let caps: Vec<String> = m.capabilities().into_iter().map(|c| c.name).collect();
    assert_eq!(
        caps,
        vec![
            "ssh.sign",
            "totp.generate",
            "github.repos.read",
            "github.repos.write",
            "github.deployments.create",
        ]
    );
}

#[test]
fn registering_again_replaces() {
    let (mut m, _) = manager();
    m.register(Box::new(SshAdapter::new()));
    let caps = m.capabilities();
    assert_eq!(caps.len(), 5);
    assert_eq!(caps[0].name, "ssh.sign");
}

#[test]
fn empty_manager() {
    let m: CredentialManager = CredentialManager::new(PolicyEngine::new());
    assert!(m.capabilities().is_empty());
    assert!(matches!(m.dispatch("ssh", op("sign"), &demo_client()), Err(DispatchError::UnknownProvider(_))));
}

#[test]
fn default_sink_manager_denies() {
    let mut m: CredentialManager = CredentialManager::new(PolicyEngine::new());
    m.register(Box::new(TotpAdapter::new()));
    assert!(matches!(m.dispatch("totp", op("generate"), &demo_client()), Err(DispatchError::Denied)));
}

#[test]
fn outcome_mapping() {
    assert_eq!(adapter_outcome(Ok(serde_json::Value::Bool(true))).unwrap(), serde_json::Value::Bool(true));
    assert!(matches!(adapter_outcome(Err(AdapterError::CredentialNotFound)), Err(DispatchError::Adapter(AdapterError::CredentialNotFound))));
    let e: DispatchError = AdapterError::Upstream("x".into()).into();
    assert!(matches!(e, DispatchError::Adapter(AdapterError::Upstream(s)) if s == "x"));
}
