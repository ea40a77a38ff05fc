use vstd::prelude::*;

use crate::errors::ProcessError;
use crate::signals::{signal_int_to_str, spec_signal_name};

verus! {

/// The portable exit status handed back to callers: `success` is true
/// exactly when the process exited normally with code zero; a process
/// terminated by a signal reports `128 + signal number` as its code and
/// carries the canonical signal name.
#[derive(Debug, Clone, PartialEq, Eq)]
pub struct ChildStatus {
    pub success: bool,
    pub code: i32,
    pub signal: Option<String>,
}

/// Legacy status record: the raw code and signal numbers, with `-1`
/// standing in for whichever of the two is absent.
#[derive(Debug, Clone, PartialEq, Eq)]
pub struct ProcessStatus {
    pub got_signal: bool,
    pub exit_code: i32,
    pub exit_signal: i32,
}

/// What normalizing a raw OS exit status — its exit code and terminating
/// signal — must yield: with a signal, a failure whose code is synthesized
/// as 128 plus the signal number and whose name comes from the fixed
/// table (an unsupported number is an invalid-signal error); without one,
/// the exit code decides success.
pub open spec fn translated_status(
    code: Option<i32>,
    signal: Option<i32>,
    r: Result<ChildStatus, ProcessError>,
) -> bool {
    match signal {
        Some(signo) => match r {
            Ok(st) => spec_signal_name(signo) matches Some(name) && st.success == false && st.code
                == 128 + signo && (st.signal matches Some(s) && s@ == name),
            Err(e) => spec_signal_name(signo) is None && (
            e matches ProcessError::InvalidSignalNumber { signo: s } && s == signo),
        },
        None => r matches Ok(st) && st.success == (code->Some_0 == 0) && st.code == code->Some_0
            && st.signal is None,
    }
}

/// Normalizes a raw OS exit status, given as its exit code and terminating
/// signal (the OS guarantees at least one of the two; a status with
/// neither would be an unrecoverable invariant violation, so it is ruled
/// out here rather than handled).
pub fn translate_exit(code: Option<i32>, signal: Option<i32>) -> (r: Result<
    ChildStatus,
    ProcessError,
>)
    requires
        signal is None ==> code is Some,
    ensures
        translated_status(code, signal, r),
{
    match signal {
        Some(signo) => {
            let name = signal_int_to_str(signo)?;
            proof {
                crate::signals::lemma_signal_name_range(signo);
            }
            Ok(ChildStatus { success: false, code: 128 + signo, signal: Some(name) })
        },
        None => {
            let c = match code {
                Some(c) => c,
                None => {
                    proof {
                        assert(false);
                    }
                    0
                },
            };
            Ok(ChildStatus { success: c == 0, code: c, signal: None })
        },
    }
}

/// Legacy normalization: reports whether a signal arrived and hands the
/// raw numbers through, `-1` for an absent one. As above, a status with
/// neither a code nor a signal is ruled out.
pub fn run_status_from_exit(code: Option<i32>, signal: Option<i32>) -> (r: ProcessStatus)
    requires
        code is Some || signal is Some,
    ensures
        r.got_signal == (signal is Some),
        r.exit_code == (if code is Some {
            code->Some_0
        } else {
            -1i32
        }),
        r.exit_signal == (if signal is Some {
            signal->Some_0
        } else {
            -1i32
        }),
{
    let exit_code = match code {
        Some(c) => c,
        None => -1,
    };
    let exit_signal = match signal {
        Some(s) => s,
        None => -1,
    };
    ProcessStatus { got_signal: signal.is_some(), exit_code, exit_signal }
}

} // verus!
