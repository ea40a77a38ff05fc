use vstd::prelude::*;
use vstd::string::*;

use crate::errors::ProcessError;
use crate::strutil::str_eq;

verus! {

/// The canonical name of each supported signal number, the fixed table a
/// terminating signal is rendered with.
pub open spec fn spec_signal_name(signo: i32) -> Option<Seq<char>> {
    if signo == 1 {
        Some("SIGHUP"@)
    } else if signo == 2 {
        Some("SIGINT"@)
    } else if signo == 3 {
        Some("SIGQUIT"@)
    } else if signo == 4 {
        Some("SIGILL"@)
    } else if signo == 5 {
        Some("SIGTRAP"@)
    } else if signo == 6 {
        Some("SIGABRT"@)
    } else if signo == 7 {
        Some("SIGBUS"@)
    } else if signo == 8 {
        Some("SIGFPE"@)
    } else if signo == 9 {
        Some("SIGKILL"@)
    } else if signo == 10 {
        Some("SIGUSR1"@)
    } else if signo == 11 {
        Some("SIGSEGV"@)
    } else if signo == 12 {
        Some("SIGUSR2"@)
    } else if signo == 13 {
        Some("SIGPIPE"@)
    } else if signo == 14 {
        Some("SIGALRM"@)
    } else if signo == 15 {
        Some("SIGTERM"@)
    } else if signo == 16 {
        Some("SIGSTKFLT"@)
    } else if signo == 17 {
        Some("SIGCHLD"@)
    } else if signo == 18 {
        Some("SIGCONT"@)
    } else if signo == 19 {
        Some("SIGSTOP"@)
    } else if signo == 20 {
        Some("SIGTSTP"@)
    } else if signo == 21 {
        Some("SIGTTIN"@)
    } else if signo == 22 {
        Some("SIGTTOU"@)
    } else if signo == 23 {
        Some("SIGURG"@)
    } else if signo == 24 {
        Some("SIGXCPU"@)
    } else if signo == 25 {
        Some("SIGXFSZ"@)
    } else if signo == 26 {
        Some("SIGVTALRM"@)
    } else if signo == 27 {
        Some("SIGPROF"@)
    } else if signo == 28 {
        Some("SIGWINCH"@)
    } else if signo == 29 {
        Some("SIGIO"@)
    } else if signo == 30 {
        Some("SIGPWR"@)
    } else if signo == 31 {
        Some("SIGSYS"@)
    } else {
        None
    }
}

/// The signal number a canonical name stands for: the inverse direction of
/// the same fixed table.
pub open spec fn spec_signal_number(name: Seq<char>) -> Option<i32> {
    if name == "SIGHUP"@ {
        Some(1)
    } else if name == "SIGINT"@ {
        Some(2)
    } else if name == "SIGQUIT"@ {
        Some(3)
    } else if name == "SIGILL"@ {
        Some(4)
    } else if name == "SIGTRAP"@ {
        Some(5)
    } else if name == "SIGABRT"@ {
        Some(6)
    } else if name == "SIGBUS"@ {
        Some(7)
    } else if name == "SIGFPE"@ {
        Some(8)
    } else if name == "SIGKILL"@ {
        Some(9)
    } else if name == "SIGUSR1"@ {
        Some(10)
    } else if name == "SIGSEGV"@ {
        Some(11)
    } else if name == "SIGUSR2"@ {
        Some(12)
    } else if name == "SIGPIPE"@ {
        Some(13)
    } else if name == "SIGALRM"@ {
        Some(14)
    } else if name == "SIGTERM"@ {
        Some(15)
    } else if name == "SIGSTKFLT"@ {
        Some(16)
    } else if name == "SIGCHLD"@ {
        Some(17)
    } else if name == "SIGCONT"@ {
        Some(18)
    } else if name == "SIGSTOP"@ {
        Some(19)
    } else if name == "SIGTSTP"@ {
        Some(20)
    } else if name == "SIGTTIN"@ {
        Some(21)
    } else if name == "SIGTTOU"@ {
        Some(22)
    } else if name == "SIGURG"@ {
        Some(23)
    } else if name == "SIGXCPU"@ {
        Some(24)
    } else if name == "SIGXFSZ"@ {
        Some(25)
    } else if name == "SIGVTALRM"@ {
        Some(26)
    } else if name == "SIGPROF"@ {
        Some(27)
    } else if name == "SIGWINCH"@ {
        Some(28)
    } else if name == "SIGIO"@ {
        Some(29)
    } else if name == "SIGPWR"@ {
        Some(30)
    } else if name == "SIGSYS"@ {
        Some(31)
    } else {
        None
    }
}

/// Supported signal numbers are exactly 1 through 31.
pub proof fn lemma_signal_name_range(signo: i32)
    ensures
        spec_signal_name(signo) is Some <==> 1 <= signo <= 31,
{
}

/// Renders a signal number to its canonical name; an unsupported number is
/// an invalid-signal error.
pub fn signal_int_to_str(signo: i32) -> (r: Result<String, ProcessError>)
    ensures
        match r {
            Ok(name) => spec_signal_name(signo) == Some(name@),
            Err(e) => spec_signal_name(signo) is None && (e matches ProcessError::InvalidSignalNumber { signo: s } && s == signo),
        },
{
    match signo {
        1 => Ok(String::from_str("SIGHUP")),
        2 => Ok(String::from_str("SIGINT")),
        3 => Ok(String::from_str("SIGQUIT")),
        4 => Ok(String::from_str("SIGILL")),
        5 => Ok(String::from_str("SIGTRAP")),
        6 => Ok(String::from_str("SIGABRT")),
        7 => Ok(String::from_str("SIGBUS")),
        8 => Ok(String::from_str("SIGFPE")),
        9 => Ok(String::from_str("SIGKILL")),
        10 => Ok(String::from_str("SIGUSR1")),
        11 => Ok(String::from_str("SIGSEGV")),
        12 => Ok(String::from_str("SIGUSR2")),
        13 => Ok(String::from_str("SIGPIPE")),
        14 => Ok(String::from_str("SIGALRM")),
        15 => Ok(String::from_str("SIGTERM")),
        16 => Ok(String::from_str("SIGSTKFLT")),
        17 => Ok(String::from_str("SIGCHLD")),
        18 => Ok(String::from_str("SIGCONT")),
        19 => Ok(String::from_str("SIGSTOP")),
        20 => Ok(String::from_str("SIGTSTP")),
        21 => Ok(String::from_str("SIGTTIN")),
        22 => Ok(String::from_str("SIGTTOU")),
        23 => Ok(String::from_str("SIGURG")),
        24 => Ok(String::from_str("SIGXCPU")),
        25 => Ok(String::from_str("SIGXFSZ")),
        26 => Ok(String::from_str("SIGVTALRM")),
        27 => Ok(String::from_str("SIGPROF")),
        28 => Ok(String::from_str("SIGWINCH")),
        29 => Ok(String::from_str("SIGIO")),
        30 => Ok(String::from_str("SIGPWR")),
        31 => Ok(String::from_str("SIGSYS")),
        _ => Err(ProcessError::InvalidSignalNumber { signo }),
    }
}

/// Parses a canonical signal name to its number; an unknown name is an
/// invalid-signal error carrying that name.
pub fn signal_str_to_int(name: &str) -> (r: Result<i32, ProcessError>)
    ensures
        match r {
            Ok(n) => spec_signal_number(name@) == Some(n),
            Err(e) => spec_signal_number(name@) is None && (e matches ProcessError::InvalidSignal { name: n } && n@ == name@),
        },
{
    if str_eq(name, "SIGHUP") {
        Ok(1)
    } else if str_eq(name, "SIGINT") {
        Ok(2)
    } else if str_eq(name, "SIGQUIT") {
        Ok(3)
    } else if str_eq(name, "SIGILL") {
        Ok(4)
    } else if str_eq(name, "SIGTRAP") {
        Ok(5)
    } else if str_eq(name, "SIGABRT") {
        Ok(6)
    } else if str_eq(name, "SIGBUS") {
        Ok(7)
    } else if str_eq(name, "SIGFPE") {
        Ok(8)
    } else if str_eq(name, "SIGKILL") {
        Ok(9)
    } else if str_eq(name, "SIGUSR1") {
        Ok(10)
    } else if str_eq(name, "SIGSEGV") {
        Ok(11)
    } else if str_eq(name, "SIGUSR2") {
        Ok(12)
    } else if str_eq(name, "SIGPIPE") {
        Ok(13)
    } else if str_eq(name, "SIGALRM") {
        Ok(14)
    } else if str_eq(name, "SIGTERM") {
        Ok(15)
    } else if str_eq(name, "SIGSTKFLT") {
        Ok(16)
    } else if str_eq(name, "SIGCHLD") {
        Ok(17)
    } else if str_eq(name, "SIGCONT") {
        Ok(18)
    } else if str_eq(name, "SIGSTOP") {
        Ok(19)
    } else if str_eq(name, "SIGTSTP") {
        Ok(20)
    } else if str_eq(name, "SIGTTIN") {
        Ok(21)
    } else if str_eq(name, "SIGTTOU") {
        Ok(22)
    } else if str_eq(name, "SIGURG") {
        Ok(23)
    } else if str_eq(name, "SIGXCPU") {
        Ok(24)
    } else if str_eq(name, "SIGXFSZ") {
        Ok(25)
    } else if str_eq(name, "SIGVTALRM") {
        Ok(26)
    } else if str_eq(name, "SIGPROF") {
        Ok(27)
    } else if str_eq(name, "SIGWINCH") {
        Ok(28)
    } else if str_eq(name, "SIGIO") {
        Ok(29)
    } else if str_eq(name, "SIGPWR") {
        Ok(30)
    } else if str_eq(name, "SIGSYS") {
        Ok(31)
    } else {
        Err(ProcessError::InvalidSignal { name: String::from_str(name) })
    }
}


/// Law: the two directions of the fixed signal table agree: rendering a
/// supported number to its canonical name and parsing that name gives the
/// number back, and a name the table knows renders back to itself.
#[verifier::rlimit(100)]
pub proof fn lemma_signal_table_round_trip(signo: i32, name: Seq<char>)
    ensures
        spec_signal_name(signo) matches Some(n) ==> spec_signal_number(n) == Some(signo),
        spec_signal_number(name) matches Some(s) ==> spec_signal_name(s) == Some(name),
{
    reveal_strlit("SIGHUP");
    reveal_strlit("SIGINT");
    reveal_strlit("SIGQUIT");
    reveal_strlit("SIGILL");
    reveal_strlit("SIGTRAP");
    reveal_strlit("SIGABRT");
    reveal_strlit("SIGBUS");
    reveal_strlit("SIGFPE");
    reveal_strlit("SIGKILL");
    reveal_strlit("SIGUSR1");
    reveal_strlit("SIGSEGV");
    reveal_strlit("SIGUSR2");
    reveal_strlit("SIGPIPE");
    reveal_strlit("SIGALRM");
    reveal_strlit("SIGTERM");
    reveal_strlit("SIGSTKFLT");
    reveal_strlit("SIGCHLD");
    reveal_strlit("SIGCONT");
    reveal_strlit("SIGSTOP");
    reveal_strlit("SIGTSTP");
    reveal_strlit("SIGTTIN");
    reveal_strlit("SIGTTOU");
    reveal_strlit("SIGURG");
    reveal_strlit("SIGXCPU");
    reveal_strlit("SIGXFSZ");
    reveal_strlit("SIGVTALRM");
    reveal_strlit("SIGPROF");
    reveal_strlit("SIGWINCH");
    reveal_strlit("SIGIO");
    reveal_strlit("SIGPWR");
    reveal_strlit("SIGSYS");
    assert("SIGHUP"@.len() == 6 && "SIGHUP"@[0] == 'S' && "SIGHUP"@[1] == 'I' && "SIGHUP"@[2] == 'G' && "SIGHUP"@[3] == 'H' && "SIGHUP"@[4] == 'U' && "SIGHUP"@[5] == 'P');
    assert("SIGINT"@.len() == 6 && "SIGINT"@[0] == 'S' && "SIGINT"@[1] == 'I' && "SIGINT"@[2] == 'G' && "SIGINT"@[3] == 'I' && "SIGINT"@[4] == 'N' && "SIGINT"@[5] == 'T');
    assert("SIGQUIT"@.len() == 7 && "SIGQUIT"@[0] == 'S' && "SIGQUIT"@[1] == 'I' && "SIGQUIT"@[2] == 'G' && "SIGQUIT"@[3] == 'Q' && "SIGQUIT"@[4] == 'U' && "SIGQUIT"@[5] == 'I' && "SIGQUIT"@[6] == 'T');
    assert("SIGILL"@.len() == 6 && "SIGILL"@[0] == 'S' && "SIGILL"@[1] == 'I' && "SIGILL"@[2] == 'G' && "SIGILL"@[3] == 'I' && "SIGILL"@[4] == 'L' && "SIGILL"@[5] == 'L');
    assert("SIGTRAP"@.len() == 7 && "SIGTRAP"@[0] == 'S' && "SIGTRAP"@[1] == 'I' && "SIGTRAP"@[2] == 'G' && "SIGTRAP"@[3] == 'T' && "SIGTRAP"@[4] == 'R' && "SIGTRAP"@[5] == 'A' && "SIGTRAP"@[6] == 'P');
    assert("SIGABRT"@.len() == 7 && "SIGABRT"@[0] == 'S' && "SIGABRT"@[1] == 'I' && "SIGABRT"@[2] == 'G' && "SIGABRT"@[3] == 'A' && "SIGABRT"@[4] == 'B' && "SIGABRT"@[5] == 'R' && "SIGABRT"@[6] == 'T');
    assert("SIGBUS"@.len() == 6 && "SIGBUS"@[0] == 'S' && "SIGBUS"@[1] == 'I' && "SIGBUS"@[2] == 'G' && "SIGBUS"@[3] == 'B' && "SIGBUS"@[4] == 'U' && "SIGBUS"@[5] == 'S');
    assert("SIGFPE"@.len() == 6 && "SIGFPE"@[0] == 'S' && "SIGFPE"@[1] == 'I' && "SIGFPE"@[2] == 'G' && "SIGFPE"@[3] == 'F' && "SIGFPE"@[4] == 'P' && "SIGFPE"@[5] == 'E');
    assert("SIGKILL"@.len() == 7 && "SIGKILL"@[0] == 'S' && "SIGKILL"@[1] == 'I' && "SIGKILL"@[2] == 'G' && "SIGKILL"@[3] == 'K' && "SIGKILL"@[4] == 'I' && "SIGKILL"@[5] == 'L' && "SIGKILL"@[6] == 'L');
    assert("SIGUSR1"@.len() == 7 && "SIGUSR1"@[0] == 'S' && "SIGUSR1"@[1] == 'I' && "SIGUSR1"@[2] == 'G' && "SIGUSR1"@[3] == 'U' && "SIGUSR1"@[4] == 'S' && "SIGUSR1"@[5] == 'R' && "SIGUSR1"@[6] == '1');
    assert("SIGSEGV"@.len() == 7 && "SIGSEGV"@[0] == 'S' && "SIGSEGV"@[1] == 'I' && "SIGSEGV"@[2] == 'G' && "SIGSEGV"@[3] == 'S' && "SIGSEGV"@[4] == 'E' && "SIGSEGV"@[5] == 'G' && "SIGSEGV"@[6] == 'V');
    assert("SIGUSR2"@.len() == 7 && "SIGUSR2"@[0] == 'S' && "SIGUSR2"@[1] == 'I' && "SIGUSR2"@[2] == 'G' && "SIGUSR2"@[3] == 'U' && "SIGUSR2"@[4] == 'S' && "SIGUSR2"@[5] == 'R' && "SIGUSR2"@[6] == '2');
    assert("SIGPIPE"@.len() == 7 && "SIGPIPE"@[0] == 'S' && "SIGPIPE"@[1] == 'I' && "SIGPIPE"@[2] == 'G' && "SIGPIPE"@[3] == 'P' && "SIGPIPE"@[4] == 'I' && "SIGPIPE"@[5] == 'P' && "SIGPIPE"@[6] == 'E');
    assert("SIGALRM"@.len() == 7 && "SIGALRM"@[0] == 'S' && "SIGALRM"@[1] == 'I' && "SIGALRM"@[2] == 'G' && "SIGALRM"@[3] == 'A' && "SIGALRM"@[4] == 'L' && "SIGALRM"@[5] == 'R' && "SIGALRM"@[6] == 'M');
    assert("SIGTERM"@.len() == 7 && "SIGTERM"@[0] == 'S' && "SIGTERM"@[1] == 'I' && "SIGTERM"@[2] == 'G' && "SIGTERM"@[3] == 'T' && "SIGTERM"@[4] == 'E' && "SIGTERM"@[5] == 'R' && "SIGTERM"@[6] == 'M');
    assert("SIGSTKFLT"@.len() == 9 && "SIGSTKFLT"@[0] == 'S' && "SIGSTKFLT"@[1] == 'I' && "SIGSTKFLT"@[2] == 'G' && "SIGSTKFLT"@[3] == 'S' && "SIGSTKFLT"@[4] == 'T' && "SIGSTKFLT"@[5] == 'K' && "SIGSTKFLT"@[6] == 'F' && "SIGSTKFLT"@[7] == 'L' && "SIGSTKFLT"@[8] == 'T');
    assert("SIGCHLD"@.len() == 7 && "SIGCHLD"@[0] == 'S' && "SIGCHLD"@[1] == 'I' && "SIGCHLD"@[2] == 'G' && "SIGCHLD"@[3] == 'C' && "SIGCHLD"@[4] == 'H' && "SIGCHLD"@[5] == 'L' && "SIGCHLD"@[6] == 'D');
    assert("SIGCONT"@.len() == 7 && "SIGCONT"@[0] == 'S' && "SIGCONT"@[1] == 'I' && "SIGCONT"@[2] == 'G' && "SIGCONT"@[3] == 'C' && "SIGCONT"@[4] == 'O' && "SIGCONT"@[5] == 'N' && "SIGCONT"@[6] == 'T');
    assert("SIGSTOP"@.len() == 7 && "SIGSTOP"@[0] == 'S' && "SIGSTOP"@[1] == 'I' && "SIGSTOP"@[2] == 'G' && "SIGSTOP"@[3] == 'S' && "SIGSTOP"@[4] == 'T' && "SIGSTOP"@[5] == 'O' && "SIGSTOP"@[6] == 'P');
    assert("SIGTSTP"@.len() == 7 && "SIGTSTP"@[0] == 'S' && "SIGTSTP"@[1] == 'I' && "SIGTSTP"@[2] == 'G' && "SIGTSTP"@[3] == 'T' && "SIGTSTP"@[4] == 'S' && "SIGTSTP"@[5] == 'T' && "SIGTSTP"@[6] == 'P');
    assert("SIGTTIN"@.len() == 7 && "SIGTTIN"@[0] == 'S' && "SIGTTIN"@[1] == 'I' && "SIGTTIN"@[2] == 'G' && "SIGTTIN"@[3] == 'T' && "SIGTTIN"@[4] == 'T' && "SIGTTIN"@[5] == 'I' && "SIGTTIN"@[6] == 'N');
    assert("SIGTTOU"@.len() == 7 && "SIGTTOU"@[0] == 'S' && "SIGTTOU"@[1] == 'I' && "SIGTTOU"@[2] == 'G' && "SIGTTOU"@[3] == 'T' && "SIGTTOU"@[4] == 'T' && "SIGTTOU"@[5] == 'O' && "SIGTTOU"@[6] == 'U');
    assert("SIGURG"@.len() == 6 && "SIGURG"@[0] == 'S' && "SIGURG"@[1] == 'I' && "SIGURG"@[2] == 'G' && "SIGURG"@[3] == 'U' && "SIGURG"@[4] == 'R' && "SIGURG"@[5] == 'G');
    assert("SIGXCPU"@.len() == 7 && "SIGXCPU"@[0] == 'S' && "SIGXCPU"@[1] == 'I' && "SIGXCPU"@[2] == 'G' && "SIGXCPU"@[3] == 'X' && "SIGXCPU"@[4] == 'C' && "SIGXCPU"@[5] == 'P' && "SIGXCPU"@[6] == 'U');
    assert("SIGXFSZ"@.len() == 7 && "SIGXFSZ"@[0] == 'S' && "SIGXFSZ"@[1] == 'I' && "SIGXFSZ"@[2] == 'G' && "SIGXFSZ"@[3] == 'X' && "SIGXFSZ"@[4] == 'F' && "SIGXFSZ"@[5] == 'S' && "SIGXFSZ"@[6] == 'Z');
    assert("SIGVTALRM"@.len() == 9 && "SIGVTALRM"@[0] == 'S' && "SIGVTALRM"@[1] == 'I' && "SIGVTALRM"@[2] == 'G' && "SIGVTALRM"@[3] == 'V' && "SIGVTALRM"@[4] == 'T' && "SIGVTALRM"@[5] == 'A' && "SIGVTALRM"@[6] == 'L' && "SIGVTALRM"@[7] == 'R' && "SIGVTALRM"@[8] == 'M');
    assert("SIGPROF"@.len() == 7 && "SIGPROF"@[0] == 'S' && "SIGPROF"@[1] == 'I' && "SIGPROF"@[2] == 'G' && "SIGPROF"@[3] == 'P' && "SIGPROF"@[4] == 'R' && "SIGPROF"@[5] == 'O' && "SIGPROF"@[6] == 'F');
    assert("SIGWINCH"@.len() == 8 && "SIGWINCH"@[0] == 'S' && "SIGWINCH"@[1] == 'I' && "SIGWINCH"@[2] == 'G' && "SIGWINCH"@[3] == 'W' && "SIGWINCH"@[4] == 'I' && "SIGWINCH"@[5] == 'N' && "SIGWINCH"@[6] == 'C' && "SIGWINCH"@[7] == 'H');
    assert("SIGIO"@.len() == 5 && "SIGIO"@[0] == 'S' && "SIGIO"@[1] == 'I' && "SIGIO"@[2] == 'G' && "SIGIO"@[3] == 'I' && "SIGIO"@[4] == 'O');
    assert("SIGPWR"@.len() == 6 && "SIGPWR"@[0] == 'S' && "SIGPWR"@[1] == 'I' && "SIGPWR"@[2] == 'G' && "SIGPWR"@[3] == 'P' && "SIGPWR"@[4] == 'W' && "SIGPWR"@[5] == 'R');
    assert("SIGSYS"@.len() == 6 && "SIGSYS"@[0] == 'S' && "SIGSYS"@[1] == 'I' && "SIGSYS"@[2] == 'G' && "SIGSYS"@[3] == 'S' && "SIGSYS"@[4] == 'Y' && "SIGSYS"@[5] == 'S');
}

} // verus!
