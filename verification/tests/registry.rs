use proc_spawn::errors::ProcessError;
use proc_spawn::registry::{conclude_wait, prepare_kill, ChildRegistry};

#[test]
fn register_issues_fresh_ids() {
    let mut reg = ChildRegistry::new();
    let a = reg.register(100);
    let b = reg.register(200);
    assert_ne!(a, b);
    assert_eq!(reg.get_pid(a), Some(100));
    assert_eq!(reg.get_pid(b), Some(200));
}

#[test]
fn wait_then_wait_or_kill_fails_already_terminated() {
    let mut reg = ChildRegistry::new();
    let id = reg.register(4242);
    assert_eq!(reg.begin_wait(id), Ok(4242));
    reg.finish_wait(id);
    assert_eq!(reg.begin_wait(id), Err(ProcessError::AlreadyTerminated { id }));
    assert_eq!(reg.pid_for_kill(id), Err(ProcessError::AlreadyTerminated { id }));
    assert_eq!(reg.get_pid(id), None);
}

#[test]
fn second_concurrent_wait_is_busy() {
    let mut reg = ChildRegistry::new();
    let id = reg.register(7);
    assert_eq!(reg.begin_wait(id), Ok(7));
    assert_eq!(reg.begin_wait(id), Err(ProcessError::Busy { id }));
}

#[test]
fn kill_proceeds_while_wait_is_in_flight() {
    let mut reg = ChildRegistry::new();
    let id = reg.register(55);
    assert_eq!(reg.begin_wait(id), Ok(55));
    assert_eq!(reg.pid_for_kill(id), Ok(55));
}

#[test]
fn aborted_wait_releases_the_handle() {
    let mut reg = ChildRegistry::new();
    let id = reg.register(9);
    assert_eq!(reg.begin_wait(id), Ok(9));
    reg.abort_wait(id);
    assert_eq!(reg.begin_wait(id), Ok(9));
}

#[test]
fn unknown_or_removed_ids_fail_cleanly() {
    let mut reg = ChildRegistry::new();
    assert_eq!(reg.begin_wait(3), Err(ProcessError::AlreadyTerminated { id: 3 }));
    assert_eq!(reg.pid_for_kill(3), Err(ProcessError::AlreadyTerminated { id: 3 }));
    let id = reg.register(1);
    reg.remove(id);
    assert_eq!(reg.begin_wait(id), Err(ProcessError::AlreadyTerminated { id }));
}

#[test]
fn operations_on_one_handle_leave_others_alone() {
    let mut reg = ChildRegistry::new();
    let a = reg.register(10);
    let b = reg.register(20);
    assert_eq!(reg.begin_wait(a), Ok(10));
    reg.finish_wait(a);
    assert_eq!(reg.get_pid(b), Some(20));
    assert_eq!(reg.begin_wait(b), Ok(20));
}

#[test]
fn conclude_wait_reaps_and_translates() {
    let mut reg = ChildRegistry::new();
    let id = reg.register(11);
    assert_eq!(reg.begin_wait(id), Ok(11));
    let st = conclude_wait(&mut reg, id, Some(0), None).unwrap();
    assert!(st.success);
    assert_eq!(reg.get_pid(id), None);
    assert_eq!(reg.begin_wait(id), Err(ProcessError::AlreadyTerminated { id }));
}

#[test]
fn prepare_kill_validates_handle_then_signal() {
    let mut reg = ChildRegistry::new();
    let id = reg.register(77);
    assert_eq!(prepare_kill(&reg, id, "SIGTERM"), Ok((77, 15)));
    assert_eq!(
        prepare_kill(&reg, id, "SIGWHAT"),
        Err(ProcessError::InvalidSignal { name: "SIGWHAT".to_string() })
    );
    assert_eq!(reg.begin_wait(id), Ok(77));
    assert_eq!(prepare_kill(&reg, id, "SIGKILL"), Ok((77, 9)));
    reg.finish_wait(id);
    assert_eq!(
        prepare_kill(&reg, id, "SIGWHAT"),
        Err(ProcessError::AlreadyTerminated { id })
    );
}
