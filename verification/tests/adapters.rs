use cred_broker::adapters::{GithubAdapter, SshAdapter, TotpAdapter};
use cred_broker::audit::{audit_entry, decision_name, format_entry, AuditEntry, AuditSink, StdoutSink};
use cred_broker::policy::Decision;
use cred_broker::identity::CallerIdentity;
use cred_broker::manager::{AdapterError, Operation, ProviderAdapter};
use cred_broker::relay::HttpRelay;
use cred_broker::transport::{IpcError, IpcListener};

fn caller() -> CallerIdentity {
    CallerIdentity::new(None, None, None)
}

fn op() -> Operation {
    Operation { action: "x".into(), params: serde_json::Value::Null }
}

#[test]
fn github_adapter() {
    let a = GithubAdapter::new();
    assert_eq!(a.id(), "github");
    let caps = a.capabilities();
    let names: Vec<&str> = caps.iter().map(|c| c.name.as_str()).collect();
    assert_eq!(names, ["github.repos.read", "github.repos.write", "github.deployments.create"]);
    assert_eq!(caps[0].description, "Leer repositorios");
    assert_eq!(caps[1].description, "Escribir en repositorios");
    assert_eq!(caps[2].description, "Crear deployments");
    assert!(matches!(a.execute(&op(), &caller()), Err(AdapterError::Upstream(m)) if m == "adapter GitHub aún no implementado"));
}

#[test]
fn ssh_adapter() {
    let a = SshAdapter::default();
    assert_eq!(a.id(), "ssh");
    let caps = a.capabilities();
    assert_eq!(caps.len(), 1);
    assert_eq!(caps[0].name, "ssh.sign");
    assert_eq!(caps[0].description, "Firma un desafío con una clave gestionada por el broker");
    assert!(matches!(a.execute(&op(), &caller()), Err(AdapterError::Upstream(m)) if m == "adapter SSH aún no implementado"));
}

#[test]
fn totp_adapter() {
    let a = TotpAdapter::new();
    assert_eq!(a.id(), "totp");
    let caps = a.capabilities();
    assert_eq!(caps.len(), 1);
    assert_eq!(caps[0].name, "totp.generate");
    assert_eq!(caps[0].description, "Genera un código TOTP a partir del seed almacenado");
    assert!(matches!(a.execute(&op(), &caller()), Err(AdapterError::Upstream(m)) if m == "adapter TOTP aún no implementado"));
}

#[test]
fn audit_line_format() {
    let e = AuditEntry { caller_exe: "/bin/app", provider: "demo", action: "read", decision: "DENY" };
    assert_eq!(format_entry(&e), "[audit] caller=/bin/app provider=demo action=read decision=DENY");
    StdoutSink::default().record(&e);
}

#[test]
fn ipc_listener_not_implemented() {
    assert!(matches!(IpcListener::bind("/tmp/x.sock"), Err(IpcError::NotImplemented)));
}

#[test]
fn http_relay_new() {
    let _r = HttpRelay::new();
    let _d = HttpRelay::default();
}

#[test]
fn audit_entry_names_the_outcome() {
    assert_eq!(decision_name(Decision::Allow), "ALLOW");
    assert_eq!(decision_name(Decision::Deny), "DENY");
    assert_eq!(decision_name(Decision::AskUser), "DENY");
    let e = audit_entry("pid:7", "ssh", "sign", Decision::AskUser);
    assert_eq!(format_entry(&e), "[audit] caller=pid:7 provider=ssh action=sign decision=DENY");
}
