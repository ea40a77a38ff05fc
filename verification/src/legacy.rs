use vstd::prelude::*;
use vstd::string::*;

use crate::command::CommandDescriptor;
use crate::errors::ProcessError;
use crate::stdio::{spec_resolve_out, spec_resolve_plain, ResolvedStdio, StdioOrRid};
use crate::strutil::str_eq;

verus! {

/// A request on the older combined run surface: a full argument vector
/// whose first element is the program, plain stdio modes only — no
/// auxiliary pipes and no control channel.
#[derive(Debug, Clone, PartialEq, Eq)]
pub struct RunArgs {
    pub cmd: Vec<String>,
    pub cwd: Option<String>,
    pub env: Vec<(String, String)>,
    pub stdin: StdioOrRid,
    pub stdout: StdioOrRid,
    pub stderr: StdioOrRid,
}

/// What the older run surface reports about a started child.
#[derive(Debug, Clone, PartialEq, Eq)]
pub struct RunInfo {
    pub rid: usize,
    pub pid: Option<u32>,
    pub stdin_rid: Option<u32>,
    pub stdout_rid: Option<u32>,
    pub stderr_rid: Option<u32>,
}

/// The OS work one legacy run asks for: the command descriptor and the
/// three resolved standard streams.
#[derive(Debug, Clone, PartialEq, Eq)]
pub struct RunPlan {
    pub command: CommandDescriptor,
    pub stdin: ResolvedStdio,
    pub stdout: ResolvedStdio,
    pub stderr: ResolvedStdio,
}

/// Builds the legacy run plan: the first argument is the program and must
/// be allowed by policy; the rest are its arguments. The environment is
/// never cleared here, no identity is set, and an explicit inherit of
/// stdout or stderr goes through the stream resource for descriptor 1
/// or 2, as on the newer surface.
pub fn build_run_command(args: RunArgs, program_allowed: bool) -> (r: Result<
    RunPlan,
    ProcessError,
>)
    requires
        args.cmd@.len() >= 1,
        !args.stdin.is_ipc_spec(),
        !args.stdout.is_ipc_spec(),
        !args.stderr.is_ipc_spec(),
    ensures
        !program_allowed ==> (r matches Err(ProcessError::RunPermissionDenied { program })
            && program@ == args.cmd@[0]@),
        program_allowed ==> (r matches Ok(plan) && ({
            &&& plan.command.program == args.cmd@[0]
            &&& plan.command.args@ == args.cmd@.skip(1)
            &&& plan.command.cwd == args.cwd
            &&& plan.command.clear_env == false
            &&& plan.command.env == args.env
            &&& plan.command.uid is None
            &&& plan.command.gid is None
            &&& plan.command.windows_raw_arguments == false
            &&& plan.stdin == spec_resolve_plain(args.stdin)
            &&& plan.stdout == spec_resolve_out(args.stdout, 1)
            &&& plan.stderr == spec_resolve_out(args.stderr, 2)
        })),
{
    let mut cmd = args.cmd;
    let program = cmd.remove(0);
    if !program_allowed {
        return Err(ProcessError::RunPermissionDenied { program });
    }
    proof {
        assert(cmd@ =~= args.cmd@.skip(1));
    }
    let stdin = args.stdin.as_stdio();
    let stdout = if args.stdout == StdioOrRid::Stdio(crate::stdio::Stdio::Inherit) {
        ResolvedStdio::FromRid(1)
    } else {
        args.stdout.as_stdio()
    };
    let stderr = if args.stderr == StdioOrRid::Stdio(crate::stdio::Stdio::Inherit) {
        ResolvedStdio::FromRid(2)
    } else {
        args.stderr.as_stdio()
    };
    let command = CommandDescriptor {
        program,
        args: cmd,
        cwd: args.cwd,
        clear_env: false,
        env: args.env,
        uid: None,
        gid: None,
        windows_raw_arguments: false,
    };
    Ok(RunPlan { command, stdin, stdout, stderr })
}

/// Validation the platform without general signal delivery performs before
/// touching the OS: only the two forcibly supported terminate signals are
/// accepted, and the pid must be positive.
pub fn windows_kill_precheck(signal: &str, pid: i32) -> (r: Result<(), ProcessError>)
    ensures
        r is Ok <==> ((signal@ == "SIGKILL"@ || signal@ == "SIGTERM"@) && pid > 0),
        !(signal@ == "SIGKILL"@ || signal@ == "SIGTERM"@) ==> (
        r matches Err(ProcessError::InvalidSignal { name }) && name@ == signal@),
        (signal@ == "SIGKILL"@ || signal@ == "SIGTERM"@) && pid <= 0 ==> (
        r matches Err(ProcessError::InvalidPid { pid: p }) && p == pid),
{
    if !(str_eq(signal, "SIGKILL") || str_eq(signal, "SIGTERM")) {
        Err(ProcessError::InvalidSignal { name: String::from_str(signal) })
    } else if pid <= 0 {
        Err(ProcessError::InvalidPid { pid })
    } else {
        Ok(())
    }
}

} // verus!
