use vstd::prelude::*;

verus! {

/// Every failure this library can report. Each variant carries the
/// responsible program name, environment key, signal name or handle id.
#[derive(Debug, Clone, PartialEq, Eq)]
pub enum ProcessError {
    /// Running this specific program is not allowed by policy.
    RunPermissionDenied { program: String },
    /// Spawning with this dangerous environment variable needs the
    /// unrestricted-run permission.
    DangerousEnvVar { key: String },
    /// The requested working directory does not exist.
    CwdNotFound { program: String, cwd: String },
    /// The requested working directory exists but is not a directory.
    CwdNotADirectory { program: String, cwd: String },
    /// The OS could not create the process for some other reason.
    SpawnFailed { program: String },
    /// The handle is no longer present in the registry: the child was
    /// already waited on or removed.
    AlreadyTerminated { id: usize },
    /// A wait is already in flight on this handle.
    Busy { id: usize },
    /// The signal name is not recognized (or not deliverable here).
    InvalidSignal { name: String },
    /// The signal number has no canonical name in the table.
    InvalidSignalNumber { signo: i32 },
    /// A process id must be positive.
    InvalidPid { pid: i32 },
}

} // verus!
