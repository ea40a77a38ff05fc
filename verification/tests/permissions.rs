use proc_spawn::errors::ProcessError;
use proc_spawn::permissions::{authorize, find_requires_allow_all_env_var, is_dangerous_key_str};

fn pairs(entries: &[(&str, &str)]) -> Vec<(String, String)> {
    entries.iter().map(|(k, v)| (k.to_string(), v.to_string())).collect()
}

#[test]
fn dangerous_key_predicate() {
    assert!(is_dangerous_key_str("LD_PRELOAD"));
    assert!(is_dangerous_key_str("LD_LIBRARY_PATH"));
    assert!(is_dangerous_key_str("DYLD_INSERT_LIBRARIES"));
    assert!(is_dangerous_key_str("  LD_PRELOAD"));
    assert!(is_dangerous_key_str("\tDYLD_X "));
    assert!(is_dangerous_key_str("LD_"));
    assert!(!is_dangerous_key_str("XLD_PRELOAD"));
    assert!(!is_dangerous_key_str("LD"));
    assert!(!is_dangerous_key_str("PATH"));
    assert!(!is_dangerous_key_str(""));
    assert!(!is_dangerous_key_str("  LD "));
}

#[test]
fn declared_dangerous_nonempty_is_denied_regardless_of_clear_env() {
    let declared = pairs(&[("PATH", "/bin"), ("LD_PRELOAD", "/tmp/evil.so")]);
    let inherited = pairs(&[]);
    for clear_env in [false, true] {
        let prog = "ls".to_string();
        let r = authorize(&prog, true, false, clear_env, &declared, &inherited);
        match r {
            Err(ProcessError::DangerousEnvVar { key }) => assert_eq!(key, "LD_PRELOAD"),
            other => panic!("expected a dangerous-env denial, got {:?}", other),
        }
    }
}

#[test]
fn declared_dangerous_empty_value_is_not_denied() {
    let declared = pairs(&[("LD_PRELOAD", ""), ("DYLD_FOO", "   ")]);
    let inherited = pairs(&[]);
    let prog = "ls".to_string();
    let r = authorize(&prog, true, false, true, &declared, &inherited);
    assert!(r.is_ok());
}

#[test]
fn allow_all_permits_dangerous_env() {
    let declared = pairs(&[("LD_PRELOAD", "/tmp/evil.so")]);
    let inherited = pairs(&[("DYLD_INSERT_LIBRARIES", "x")]);
    let prog = "ls".to_string();
    assert!(authorize(&prog, true, true, false, &declared, &inherited).is_ok());
}

#[test]
fn missing_run_permission_is_denied_first() {
    let declared = pairs(&[]);
    let inherited = pairs(&[]);
    let prog = "nmap".to_string();
    match authorize(&prog, false, true, false, &declared, &inherited) {
        Err(ProcessError::RunPermissionDenied { program }) => assert_eq!(program, "nmap"),
        other => panic!("expected a run-permission denial, got {:?}", other),
    }
}

#[test]
fn inherited_dangerous_is_denied_without_clear_env() {
    let declared = pairs(&[]);
    let inherited = pairs(&[("HOME", "/root"), ("LD_PRELOAD", "/tmp/evil.so")]);
    let prog = "ls".to_string();
    match authorize(&prog, true, false, false, &declared, &inherited) {
        Err(ProcessError::DangerousEnvVar { key }) => assert_eq!(key, "LD_PRELOAD"),
        other => panic!("expected a dangerous-env denial, got {:?}", other),
    }
}

#[test]
fn inherited_dangerous_is_allowed_with_clear_env() {
    let declared = pairs(&[]);
    let inherited = pairs(&[("LD_PRELOAD", "/tmp/evil.so")]);
    let prog = "ls".to_string();
    assert!(authorize(&prog, true, false, true, &declared, &inherited).is_ok());
}

#[test]
fn inherited_dangerous_neutralized_by_empty_override() {
    let declared = pairs(&[("LD_PRELOAD", "  ")]);
    let inherited = pairs(&[("LD_PRELOAD", "/tmp/evil.so")]);
    let prog = "ls".to_string();
    assert!(authorize(&prog, true, false, false, &declared, &inherited).is_ok());
}

#[test]
fn inherited_dangerous_not_neutralized_by_other_override() {
    let declared = pairs(&[("DYLD_OTHER", "")]);
    let inherited = pairs(&[("LD_PRELOAD", "/tmp/evil.so")]);
    match find_requires_allow_all_env_var(false, &declared, &inherited) {
        Some(key) => assert_eq!(key, "LD_PRELOAD"),
        None => panic!("expected the inherited dangerous key"),
    }
}

#[test]
fn declared_scan_reports_first_offender() {
    let declared = pairs(&[("LD_A", ""), ("DYLD_B", "x"), ("LD_C", "y")]);
    let inherited = pairs(&[]);
    assert_eq!(find_requires_allow_all_env_var(true, &declared, &inherited).as_deref(), Some("DYLD_B"));
}

#[test]
fn blank_values_are_treated_as_empty() {
    let declared = pairs(&[("LD_PRELOAD", " \t\n ")]);
    let inherited = pairs(&[("LD_X", "\u{a0}")]);
    assert_eq!(find_requires_allow_all_env_var(false, &declared, &inherited), None);
}
