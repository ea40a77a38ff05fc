use vstd::prelude::*;

use crate::exit_status::ChildStatus;
use crate::stdio::{ChildStdio, Stdio, StdioOrRid};

verus! {

/// Result of a blocking spawn: the translated exit status and, for each of
/// stdout and stderr, a captured buffer where — and only where — the
/// stream was requested as symbolically piped.
#[derive(Debug, Clone, PartialEq, Eq)]
pub struct SpawnOutput {
    pub status: ChildStatus,
    pub stdout: Option<Vec<u8>>,
    pub stderr: Option<Vec<u8>>,
}

/// Was this stream requested as symbolically piped? Only that request
/// makes the blocking spawn buffer the stream; an inherited, discarded or
/// borrowed stream is never buffered.
pub open spec fn wants_capture(m: StdioOrRid) -> bool {
    m == StdioOrRid::Stdio(Stdio::Piped)
}

/// Decides, before the spawn, which of stdout and stderr the blocking
/// variant must capture.
pub fn capture_flags(stdio: &ChildStdio) -> (r: (bool, bool))
    ensures
        r.0 == wants_capture(stdio.stdout),
        r.1 == wants_capture(stdio.stderr),
{
    (stdio.stdout == StdioOrRid::Stdio(Stdio::Piped), stdio.stderr == StdioOrRid::Stdio(
        Stdio::Piped,
    ))
}

/// Assembles the blocking-spawn result from the translated status and the
/// bytes the OS handed back: a stream's buffer is present exactly when
/// that stream was requested as piped, each stream independently of the
/// other.
pub fn assemble_sync_output(
    stdio: &ChildStdio,
    status: ChildStatus,
    stdout: Vec<u8>,
    stderr: Vec<u8>,
) -> (r: SpawnOutput)
    ensures
        r.status == status,
        r.stdout is Some <==> wants_capture(stdio.stdout),
        r.stderr is Some <==> wants_capture(stdio.stderr),
        wants_capture(stdio.stdout) ==> (r.stdout matches Some(b) && b@ == stdout@),
        wants_capture(stdio.stderr) ==> (r.stderr matches Some(b) && b@ == stderr@),
{
    let (want_out, want_err) = capture_flags(stdio);
    SpawnOutput {
        status,
        stdout: if want_out {
            Some(stdout)
        } else {
            None
        },
        stderr: if want_err {
            Some(stderr)
        } else {
            None
        },
    }
}

} // verus!
