use cred_broker::identity::{decimal_string, CallerIdentity};

#[test]
fn key_prefers_executable_path() {
    let id = CallerIdentity::new(Some(4821), Some(1000), Some("/usr/bin/demo-client".to_string()));
    assert_eq!(id.policy_key(), "/usr/bin/demo-client");
}

#[test]
fn key_falls_back_to_pid() {
    let id = CallerIdentity::new(Some(4821), None, None);
    assert_eq!(id.policy_key(), "pid:4821");
}

#[test]
fn key_without_pid_is_unknown() {
    let id = CallerIdentity::new(None, Some(0), None);
    assert_eq!(id.policy_key(), "unknown");
}

#[test]
fn no_pid_means_no_path() {
    let id = CallerIdentity::new(None, Some(7), Some("/bin/x".to_string()));
    assert_eq!(id.pid, None);
    assert_eq!(id.uid, Some(7));
    assert_eq!(id.exe_path, None);
    assert_eq!(id.policy_key(), "unknown");
}

#[test]
fn new_keeps_pid_uid_and_path() {
    let id = CallerIdentity::new(Some(1), Some(2), Some("/p".to_string()));
    assert_eq!(id, CallerIdentity { pid: Some(1), uid: Some(2), exe_path: Some("/p".to_string()) });
}

#[test]
fn decimal_notation() {
    assert_eq!(decimal_string(0), "0");
    assert_eq!(decimal_string(7), "7");
    assert_eq!(decimal_string(10), "10");
    assert_eq!(decimal_string(4821), "4821");
    assert_eq!(decimal_string(u32::MAX), "4294967295");
    assert_eq!(CallerIdentity::new(Some(0), None, None).policy_key(), "pid:0");
}
