use vstd::prelude::*;

use crate::errors::ProcessError;

verus! {

/// The spawn result handed back to the caller: the opaque registry handle,
/// the child's process id, and the resource id of each stream that was
/// actually opened — a stream a caller inherits or discards gets none.
#[derive(Debug, Clone, PartialEq, Eq)]
pub struct Child {
    pub rid: usize,
    pub pid: u32,
    pub stdin_rid: Option<u32>,
    pub stdout_rid: Option<u32>,
    pub stderr_rid: Option<u32>,
    pub ipc_pipe_rid: Option<u32>,
    pub extra_pipe_rids: Vec<Option<u32>>,
}

/// Enriches an OS spawn failure with actionable diagnostics: when a
/// working directory was requested, a missing directory and a path that is
/// no directory are reported as their own conditions, distinguishable from
/// a generic spawn failure; every variant carries the program name.
/// `cwd_exists` and `cwd_is_dir` report what the file system said about
/// the requested directory.
pub fn classify_spawn_failure(
    program: &String,
    cwd: &Option<String>,
    cwd_exists: bool,
    cwd_is_dir: bool,
) -> (e: ProcessError)
    ensures
        match cwd {
            Some(d) => if !cwd_exists {
                e matches ProcessError::CwdNotFound { program: p, cwd: c } && p@ == program@ && c@
                    == d@
            } else if !cwd_is_dir {
                e matches ProcessError::CwdNotADirectory { program: p, cwd: c } && p@ == program@
                    && c@ == d@
            } else {
                e matches ProcessError::SpawnFailed { program: p } && p@ == program@
            },
            None => e matches ProcessError::SpawnFailed { program: p } && p@ == program@,
        },
{
    match cwd {
        Some(d) => {
            if !cwd_exists {
                ProcessError::CwdNotFound { program: program.clone(), cwd: d.clone() }
            } else if !cwd_is_dir {
                ProcessError::CwdNotADirectory { program: program.clone(), cwd: d.clone() }
            } else {
                ProcessError::SpawnFailed { program: program.clone() }
            }
        },
        None => ProcessError::SpawnFailed { program: program.clone() },
    }
}

} // verus!
