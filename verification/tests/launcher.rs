use proc_spawn::errors::ProcessError;
use proc_spawn::launcher::classify_spawn_failure;

#[test]
fn missing_cwd_is_its_own_condition() {
    let prog = "ls".to_string();
    let cwd = Some("/no/such/dir".to_string());
    match classify_spawn_failure(&prog, &cwd, false, false) {
        ProcessError::CwdNotFound { program, cwd } => {
            assert_eq!(program, "ls");
            assert_eq!(cwd, "/no/such/dir");
        },
        other => panic!("expected a missing-cwd condition, got {:?}", other),
    }
}

#[test]
fn cwd_that_is_no_directory_is_distinct() {
    let prog = "ls".to_string();
    let cwd = Some("/etc/passwd".to_string());
    match classify_spawn_failure(&prog, &cwd, true, false) {
        ProcessError::CwdNotADirectory { program, cwd } => {
            assert_eq!(program, "ls");
            assert_eq!(cwd, "/etc/passwd");
        },
        other => panic!("expected a not-a-directory condition, got {:?}", other),
    }
}

#[test]
fn valid_cwd_or_no_cwd_is_a_generic_spawn_failure() {
    let prog = "nosuchbin".to_string();
    match classify_spawn_failure(&prog, &Some("/tmp".to_string()), true, true) {
        ProcessError::SpawnFailed { program } => assert_eq!(program, "nosuchbin"),
        other => panic!("expected a generic spawn failure, got {:?}", other),
    }
    match classify_spawn_failure(&prog, &None, false, false) {
        ProcessError::SpawnFailed { program } => assert_eq!(program, "nosuchbin"),
        other => panic!("expected a generic spawn failure, got {:?}", other),
    }
}

#[test]
fn the_three_conditions_are_distinguishable() {
    let prog = "p".to_string();
    let cwd = Some("/x".to_string());
    let a = classify_spawn_failure(&prog, &cwd, false, false);
    let b = classify_spawn_failure(&prog, &cwd, true, false);
    let c = classify_spawn_failure(&prog, &cwd, true, true);
    assert_ne!(a, b);
    assert_ne!(b, c);
    assert_ne!(a, c);
}
