use proc_spawn::command::{create_command, effective_env, SpawnArgs};
use proc_spawn::errors::ProcessError;
use proc_spawn::legacy::{build_run_command, windows_kill_precheck, RunArgs};
use proc_spawn::stdio::{ChildStdio, ResolvedStdio, Stdio, StdioOrRid};

fn pairs(entries: &[(&str, &str)]) -> Vec<(String, String)> {
    entries.iter().map(|(k, v)| (k.to_string(), v.to_string())).collect()
}

fn plain_args() -> SpawnArgs {
    SpawnArgs {
        cmd: "echo".to_string(),
        args: vec!["hi".to_string()],
        cwd: None,
        clear_env: false,
        env: vec![],
        gid: None,
        uid: None,
        windows_raw_arguments: false,
        ipc: None,
        stdio: ChildStdio {
            stdin: StdioOrRid::Stdio(Stdio::Null),
            stdout: StdioOrRid::Stdio(Stdio::Piped),
            stderr: StdioOrRid::Stdio(Stdio::Inherit),
        },
        extra_stdio: vec![],
    }
}

#[test]
fn later_env_duplicates_win() {
    let env = pairs(&[("A", "1"), ("B", "2"), ("A", "3"), ("C", "4"), ("B", "5")]);
    let eff = effective_env(&env);
    assert_eq!(eff, pairs(&[("A", "3"), ("B", "5"), ("C", "4")]));
}

#[test]
fn effective_env_keeps_distinct_entries() {
    let env = pairs(&[("X", "1"), ("Y", "2")]);
    assert_eq!(effective_env(&env), env);
    let empty: Vec<(String, String)> = vec![];
    assert_eq!(effective_env(&empty), empty);
}

#[test]
fn create_command_builds_the_full_plan() {
    let mut args = plain_args();
    args.extra_stdio = vec![Stdio::Piped, Stdio::Inherit];
    args.ipc = Some(4);
    let inherited = pairs(&[]);
    let plan = create_command(args, &inherited, true, true).unwrap();
    assert_eq!(plan.command.program, "echo");
    assert_eq!(plan.command.args, vec!["hi".to_string()]);
    assert_eq!(plan.stdio.stdin, Some(ResolvedStdio::Null));
    assert_eq!(plan.stdio.stdout, ResolvedStdio::Piped);
    assert_eq!(plan.stdio.stderr, ResolvedStdio::FromRid(2));
    assert_eq!(plan.ipc_child_fd, Some(4));
    assert_eq!(
        plan.ipc_env,
        Some(("NODE_CHANNEL_FD".to_string(), "4".to_string()))
    );
    assert_eq!(plan.extra_child_fds, vec![Some(3), None]);
}

#[test]
fn ipc_stdin_reserves_slot_zero() {
    let mut args = plain_args();
    args.stdio.stdin = StdioOrRid::Stdio(Stdio::IpcForInternalUse);
    args.ipc = Some(7);
    let inherited = pairs(&[]);
    let plan = create_command(args, &inherited, true, true).unwrap();
    assert_eq!(plan.stdio.stdin, None);
    assert_eq!(plan.ipc_child_fd, Some(0));
    assert_eq!(
        plan.ipc_env,
        Some(("NODE_CHANNEL_FD".to_string(), "0".to_string()))
    );
}

#[test]
fn create_command_enforces_the_gate() {
    let args = plain_args();
    let inherited = pairs(&[]);
    match create_command(args, &inherited, false, false) {
        Err(ProcessError::RunPermissionDenied { program }) => assert_eq!(program, "echo"),
        other => panic!("expected a run-permission denial, got {:?}", other),
    }
    let mut args = plain_args();
    args.env = pairs(&[("LD_PRELOAD", "/e.so")]);
    match create_command(args, &inherited, true, false) {
        Err(ProcessError::DangerousEnvVar { key }) => assert_eq!(key, "LD_PRELOAD"),
        other => panic!("expected a dangerous-env denial, got {:?}", other),
    }
}

#[test]
fn create_command_checks_inherited_env_too() {
    let args = plain_args();
    let inherited = pairs(&[("DYLD_INSERT_LIBRARIES", "/e.dylib")]);
    match create_command(args, &inherited, true, false) {
        Err(ProcessError::DangerousEnvVar { key }) => {
            assert_eq!(key, "DYLD_INSERT_LIBRARIES")
        },
        other => panic!("expected a dangerous-env denial, got {:?}", other),
    }
    let mut args = plain_args();
    args.clear_env = true;
    assert!(create_command(args, &inherited, true, false).is_ok());
}

#[test]
fn legacy_run_splits_program_and_args() {
    let args = RunArgs {
        cmd: vec!["cat".to_string(), "-n".to_string(), "f".to_string()],
        cwd: Some("/tmp".to_string()),
        env: pairs(&[("K", "V")]),
        stdin: StdioOrRid::Stdio(Stdio::Inherit),
        stdout: StdioOrRid::Stdio(Stdio::Inherit),
        stderr: StdioOrRid::Stdio(Stdio::Piped),
    };
    let plan = build_run_command(args, true).unwrap();
    assert_eq!(plan.command.program, "cat");
    assert_eq!(plan.command.args, vec!["-n".to_string(), "f".to_string()]);
    assert_eq!(plan.command.cwd.as_deref(), Some("/tmp"));
    assert!(!plan.command.clear_env);
    assert_eq!(plan.stdin, ResolvedStdio::Inherit);
    assert_eq!(plan.stdout, ResolvedStdio::FromRid(1));
    assert_eq!(plan.stderr, ResolvedStdio::Piped);
}

#[test]
fn legacy_run_denies_the_program() {
    let args = RunArgs {
        cmd: vec!["rm".to_string()],
        cwd: None,
        env: vec![],
        stdin: StdioOrRid::Stdio(Stdio::Null),
        stdout: StdioOrRid::Stdio(Stdio::Null),
        stderr: StdioOrRid::Stdio(Stdio::Null),
    };
    match build_run_command(args, false) {
        Err(ProcessError::RunPermissionDenied { program }) => assert_eq!(program, "rm"),
        other => panic!("expected a run-permission denial, got {:?}", other),
    }
}

#[test]
fn kill_precheck_accepts_only_forced_signals_and_positive_pids() {
    assert!(windows_kill_precheck("SIGKILL", 1).is_ok());
    assert!(windows_kill_precheck("SIGTERM", 99999).is_ok());
    match windows_kill_precheck("SIGINT", 1) {
        Err(ProcessError::InvalidSignal { name }) => assert_eq!(name, "SIGINT"),
        other => panic!("expected an invalid-signal error, got {:?}", other),
    }
    match windows_kill_precheck("SIGTERM", 0) {
        Err(ProcessError::InvalidPid { pid }) => assert_eq!(pid, 0),
        other => panic!("expected an invalid-pid error, got {:?}", other),
    }
    match windows_kill_precheck("SIGKILL", -4) {
        Err(ProcessError::InvalidPid { pid }) => assert_eq!(pid, -4),
        other => panic!("expected an invalid-pid error, got {:?}", other),
    }
}
