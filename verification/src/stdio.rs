use vstd::prelude::*;

verus! {

/// A symbolic standard-stream mode. `IpcForInternalUse` is only valid for
/// stdin and marks the slot as reserved for the control channel; it never
/// resolves to a real stdio stream.
#[derive(Copy, Clone, Eq, PartialEq, Structural, Debug)]
pub enum Stdio {
    Inherit,
    Piped,
    Null,
    IpcForInternalUse,
}

/// A standard-stream request: either a symbolic mode or a reference to an
/// already-open stream resource by its id.
#[derive(Copy, Clone, Eq, PartialEq, Structural, Debug)]
pub enum StdioOrRid {
    Stdio(Stdio),
    Rid(u32),
}

/// A concrete stdio source or sink: inherit the parent stream, create a
/// pipe, discard, or borrow the OS-level descriptor of the stream resource
/// with this id (without taking ownership of it).
#[derive(Copy, Clone, Eq, PartialEq, Structural, Debug)]
pub enum ResolvedStdio {
    Inherit,
    Piped,
    Null,
    FromRid(u32),
}

/// The three standard-stream requests of a spawn.
#[derive(Copy, Clone, Eq, PartialEq, Structural, Debug)]
pub struct ChildStdio {
    pub stdin: StdioOrRid,
    pub stdout: StdioOrRid,
    pub stderr: StdioOrRid,
}

/// How the three standard streams are to be wired. `stdin` is absent when
/// slot 0 is reserved for the control channel instead.
#[derive(Copy, Clone, Eq, PartialEq, Structural, Debug)]
pub struct ResolvedChildStdio {
    pub stdin: Option<ResolvedStdio>,
    pub stdout: ResolvedStdio,
    pub stderr: ResolvedStdio,
}

impl Stdio {
    /// Maps a symbolic mode to its concrete equivalent. The control-channel
    /// marker is no real stream and must not reach this point.
    pub fn as_stdio(&self) -> (r: ResolvedStdio)
        requires
            !(*self is IpcForInternalUse),
        ensures
            r == (match self {
                Stdio::Inherit => ResolvedStdio::Inherit,
                Stdio::Piped => ResolvedStdio::Piped,
                Stdio::Null => ResolvedStdio::Null,
                Stdio::IpcForInternalUse => ResolvedStdio::Null,
            }),
    {
        match self {
            Stdio::Inherit => ResolvedStdio::Inherit,
            Stdio::Piped => ResolvedStdio::Piped,
            Stdio::Null => ResolvedStdio::Null,
            Stdio::IpcForInternalUse => ResolvedStdio::Null,
        }
    }
}

impl StdioOrRid {
    /// Resolves a request: a symbolic mode maps directly, a resource id
    /// borrows that resource's descriptor.
    pub fn as_stdio(&self) -> (r: ResolvedStdio)
        requires
            !self.is_ipc_spec(),
        ensures
            r == spec_resolve_plain(*self),
    {
        match self {
            StdioOrRid::Stdio(val) => val.as_stdio(),
            StdioOrRid::Rid(rid) => ResolvedStdio::FromRid(*rid),
        }
    }

    pub open spec fn is_ipc_spec(&self) -> bool {
        *self == StdioOrRid::Stdio(Stdio::IpcForInternalUse)
    }

    pub fn is_ipc(&self) -> (r: bool)
        ensures
            r == self.is_ipc_spec(),
    {
        match self {
            StdioOrRid::Stdio(Stdio::IpcForInternalUse) => true,
            _ => false,
        }
    }
}

/// Direct resolution of a non-control-channel request.
pub open spec fn spec_resolve_plain(m: StdioOrRid) -> ResolvedStdio {
    match m {
        StdioOrRid::Stdio(Stdio::Inherit) => ResolvedStdio::Inherit,
        StdioOrRid::Stdio(Stdio::Piped) => ResolvedStdio::Piped,
        StdioOrRid::Stdio(Stdio::Null) => ResolvedStdio::Null,
        StdioOrRid::Stdio(Stdio::IpcForInternalUse) => ResolvedStdio::Null,
        StdioOrRid::Rid(rid) => ResolvedStdio::FromRid(rid),
    }
}

/// Resolution of stdout or stderr, which sits on descriptor `fd` (1 or 2):
/// an explicit inherit goes through the stream resource registered for
/// that descriptor, so any wrapping the host performs on its own standard
/// streams is respected; anything else resolves directly.
pub open spec fn spec_resolve_out(m: StdioOrRid, fd: u32) -> ResolvedStdio {
    if m == StdioOrRid::Stdio(Stdio::Inherit) {
        ResolvedStdio::FromRid(fd)
    } else {
        spec_resolve_plain(m)
    }
}

/// Resolves the three standard streams. A control-channel stdin yields no
/// stdio wiring for slot 0; stdout and stderr may not ask for the control
/// channel at all, and an explicit inherit of either goes through the
/// stream resource for descriptor 1 or 2.
pub fn resolve_child_stdio(stdio: &ChildStdio) -> (r: ResolvedChildStdio)
    requires
        !stdio.stdout.is_ipc_spec(),
        !stdio.stderr.is_ipc_spec(),
    ensures
        r.stdin == (if stdio.stdin.is_ipc_spec() {
            None::<ResolvedStdio>
        } else {
            Some(spec_resolve_plain(stdio.stdin))
        }),
        r.stdout == spec_resolve_out(stdio.stdout, 1),
        r.stderr == spec_resolve_out(stdio.stderr, 2),
{
    let stdin = if stdio.stdin.is_ipc() {
        None
    } else {
        Some(stdio.stdin.as_stdio())
    };
    let stdout = if stdio.stdout == StdioOrRid::Stdio(Stdio::Inherit) {
        ResolvedStdio::FromRid(1)
    } else {
        stdio.stdout.as_stdio()
    };
    let stderr = if stdio.stderr == StdioOrRid::Stdio(Stdio::Inherit) {
        ResolvedStdio::FromRid(2)
    } else {
        stdio.stderr.as_stdio()
    };
    ResolvedChildStdio { stdin, stdout, stderr }
}

} // verus!
