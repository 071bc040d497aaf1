use cred_broker::policy::{Decision, PolicyEngine, Rule};

fn rule(exe: &str, allow: &[&str], deny: &[&str]) -> Rule {
    Rule {
        executable: exe.to_string(),
        allow: allow.iter().map(|s| s.to_string()).collect(),
        deny: deny.iter().map(|s| s.to_string()).collect(),
    }
}

#[test]
fn new_engine_denies_everything() {
    let engine = PolicyEngine::new();
    assert_eq!(engine.evaluate("/usr/bin/demo-client", "demo.read"), Decision::Deny);
    assert_eq!(engine.evaluate("", ""), Decision::Deny);
}

#[test]
fn allowed_capability_is_allowed() {
    let mut engine = PolicyEngine::new();
    engine.add_rule(rule("/opt/demo-client.exe", &["demo.read"], &["demo.admin"]));
    assert_eq!(engine.evaluate("/opt/demo-client.exe", "demo.read"), Decision::Allow);
}

#[test]
fn denied_capability_is_denied() {
    let mut engine = PolicyEngine::new();
    engine.add_rule(rule("/opt/demo-client.exe", &["demo.read"], &["demo.admin"]));
    assert_eq!(engine.evaluate("/opt/demo-client.exe", "demo.admin"), Decision::Deny);
}

#[test]
fn unlisted_capability_asks_user() {
    let mut engine = PolicyEngine::new();
    engine.add_rule(rule("/opt/demo-client.exe", &["demo.read"], &["demo.admin"]));
    assert_eq!(engine.evaluate("/opt/demo-client.exe", "github.repos.list"), Decision::AskUser);
}

#[test]
fn same_binary_at_another_path_is_denied() {
    let mut engine = PolicyEngine::new();
    engine.add_rule(rule("/opt/demo-client.exe", &["demo.read"], &[]));
    assert_eq!(engine.evaluate("/tmp/evil/evil-demo.exe", "demo.read"), Decision::Deny);
}

#[test]
fn deny_wins_over_allow() {
    let mut engine = PolicyEngine::new();
    engine.add_rule(rule("/bin/app", &["x.y"], &["x.y"]));
    assert_eq!(engine.evaluate("/bin/app", "x.y"), Decision::Deny);
}

#[test]
fn later_rule_replaces_earlier_one() {
    let mut engine = PolicyEngine::new();
    engine.add_rule(rule("/bin/app", &["x.y"], &[]));
    engine.add_rule(rule("/bin/app", &[], &["x.y"]));
    assert_eq!(engine.evaluate("/bin/app", "x.y"), Decision::Deny);
    engine.add_rule(rule("/bin/app", &[], &[]));
    assert_eq!(engine.evaluate("/bin/app", "x.y"), Decision::AskUser);
}

#[test]
fn adding_a_rule_keeps_other_callers() {
    let mut engine = PolicyEngine::new();
    engine.add_rule(rule("/bin/a", &["p.read"], &[]));
    engine.add_rule(rule("/bin/b", &[], &["p.read"]));
    assert_eq!(engine.evaluate("/bin/a", "p.read"), Decision::Allow);
    assert_eq!(engine.evaluate("/bin/b", "p.read"), Decision::Deny);
}

#[test]
fn matching_is_exact() {
    let mut engine = PolicyEngine::new();
    engine.add_rule(rule("/bin/a", &["p.read"], &[]));
    assert_eq!(engine.evaluate("/bin/a", "p.rea"), Decision::AskUser);
    assert_eq!(engine.evaluate("/bin/a ", "p.read"), Decision::Deny);
    assert_eq!(engine.evaluate("/bin/A", "p.read"), Decision::Deny);
}

#[test]
fn default_engine_denies_everything() {
    let engine = PolicyEngine::default();
    assert_eq!(engine.evaluate("/bin/a", "p.read"), Decision::Deny);
}
