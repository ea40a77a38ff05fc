use proc_spawn::errors::ProcessError;
use proc_spawn::exit_status::{run_status_from_exit, translate_exit};
use proc_spawn::signals::{signal_int_to_str, signal_str_to_int};

fn signal_table() -> Vec<(i32, &'static str)> {
    vec![
    (1, "SIGHUP"),
    (2, "SIGINT"),
    (3, "SIGQUIT"),
    (4, "SIGILL"),
    (5, "SIGTRAP"),
    (6, "SIGABRT"),
    (7, "SIGBUS"),
    (8, "SIGFPE"),
    (9, "SIGKILL"),
    (10, "SIGUSR1"),
    (11, "SIGSEGV"),
    (12, "SIGUSR2"),
    (13, "SIGPIPE"),
    (14, "SIGALRM"),
    (15, "SIGTERM"),
    (16, "SIGSTKFLT"),
    (17, "SIGCHLD"),
    (18, "SIGCONT"),
    (19, "SIGSTOP"),
    (20, "SIGTSTP"),
    (21, "SIGTTIN"),
    (22, "SIGTTOU"),
    (23, "SIGURG"),
    (24, "SIGXCPU"),
    (25, "SIGXFSZ"),
    (26, "SIGVTALRM"),
    (27, "SIGPROF"),
    (28, "SIGWINCH"),
    (29, "SIGIO"),
    (30, "SIGPWR"),
    (31, "SIGSYS"),
    ]
}

#[test]
fn all_plain_exit_codes_translate() {
    for code in 0..=255i32 {
        let st = translate_exit(Some(code), None).unwrap();
        assert_eq!(st.success, code == 0);
        assert_eq!(st.code, code);
        assert_eq!(st.signal, None);
    }
}

#[test]
fn all_supported_signals_translate() {
    for (signo, name) in signal_table() {
        let st = translate_exit(None, Some(signo)).unwrap();
        assert!(!st.success);
        assert_eq!(st.code, 128 + signo);
        assert_eq!(st.signal.as_deref(), Some(name));
    }
}

#[test]
fn signal_with_code_still_reports_signal() {
    let st = translate_exit(Some(0), Some(15)).unwrap();
    assert!(!st.success);
    assert_eq!(st.code, 143);
    assert_eq!(st.signal.as_deref(), Some("SIGTERM"));
}

#[test]
fn unsupported_signal_number_is_invalid() {
    for signo in [0, 32, 64, -1] {
        match translate_exit(None, Some(signo)) {
            Err(ProcessError::InvalidSignalNumber { signo: s }) => assert_eq!(s, signo),
            other => panic!("expected an invalid-signal error, got {:?}", other),
        }
    }
}

#[test]
fn signal_name_round_trip() {
    for (signo, name) in signal_table() {
        assert_eq!(signal_int_to_str(signo).unwrap(), name);
        assert_eq!(signal_str_to_int(name).unwrap(), signo);
    }
}

#[test]
fn unknown_signal_name_is_invalid() {
    match signal_str_to_int("SIGBOGUS") {
        Err(ProcessError::InvalidSignal { name }) => assert_eq!(name, "SIGBOGUS"),
        other => panic!("expected an invalid-signal error, got {:?}", other),
    }
}

#[test]
fn run_status_reports_raw_numbers() {
    let st = run_status_from_exit(Some(3), None);
    assert!(!st.got_signal);
    assert_eq!(st.exit_code, 3);
    assert_eq!(st.exit_signal, -1);

    let st = run_status_from_exit(None, Some(9));
    assert!(st.got_signal);
    assert_eq!(st.exit_code, -1);
    assert_eq!(st.exit_signal, 9);

    let st = run_status_from_exit(Some(0), Some(2));
    assert!(st.got_signal);
    assert_eq!(st.exit_code, 0);
    assert_eq!(st.exit_signal, 2);
}
