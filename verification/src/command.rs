use vstd::prelude::*;
use vstd::pervasive::VecAdditionalExecFns;

use crate::errors::ProcessError;
use crate::permissions::{authorize, denied_env_key};
use crate::stdio::{
    spec_resolve_out, spec_resolve_plain, ChildStdio, ResolvedChildStdio, ResolvedStdio, Stdio,
    StdioOrRid,
};
use crate::strutil::spec_decimal;
use crate::wiring::{ipc_env_entry, plan_wiring, WiringPlan};

verus! {

/// A spawn request: everything a caller declares about the child to be.
#[derive(Debug, Clone, PartialEq, Eq)]
pub struct SpawnArgs {
    pub cmd: String,
    pub args: Vec<String>,
    pub cwd: Option<String>,
    pub clear_env: bool,
    pub env: Vec<(String, String)>,
    pub gid: Option<u32>,
    pub uid: Option<u32>,
    pub windows_raw_arguments: bool,
    pub ipc: Option<i32>,
    pub stdio: ChildStdio,
    pub extra_stdio: Vec<Stdio>,
}

/// A platform process-creation descriptor: what the OS is asked to run,
/// with no stdio or channel concerns. The environment overrides stay in
/// declaration order; on duplicate keys the later entry wins when they are
/// applied.
#[derive(Debug, Clone, PartialEq, Eq)]
pub struct CommandDescriptor {
    pub program: String,
    pub args: Vec<String>,
    pub cwd: Option<String>,
    pub clear_env: bool,
    pub env: Vec<(String, String)>,
    pub uid: Option<u32>,
    pub gid: Option<u32>,
    pub windows_raw_arguments: bool,
}

/// The environment an ordered override list denotes: applied left to
/// right, a later duplicate key overwrites an earlier one.
pub open spec fn env_map(env: Seq<(String, String)>) -> Map<Seq<char>, Seq<char>>
    decreases env.len(),
{
    if env.len() == 0 {
        Map::empty()
    } else {
        env_map(env.drop_last()).insert(env.last().0@, env.last().1@)
    }
}

pub open spec fn distinct_keys(env: Seq<(String, String)>) -> bool {
    forall|i: int, j: int| 0 <= i < j < env.len() ==> env[i].0@ != env[j].0@
}

proof fn lemma_env_map_update(s: Seq<(String, String)>, idx: int, p: (String, String))
    requires
        0 <= idx < s.len(),
        s[idx].0@ == p.0@,
        distinct_keys(s),
    ensures
        env_map(s.update(idx, p)) == env_map(s).insert(p.0@, p.1@),
    decreases s.len(),
{
    let u = s.update(idx, p);
    if idx == s.len() - 1 {
        assert(u.drop_last() =~= s.drop_last());
        assert(env_map(u) =~= env_map(s).insert(p.0@, p.1@));
    } else {
        assert(u.drop_last() =~= s.drop_last().update(idx, p));
        assert(distinct_keys(s.drop_last()));
        lemma_env_map_update(s.drop_last(), idx, p);
        assert(s.last().0@ != p.0@);
        assert(env_map(u) =~= env_map(s).insert(p.0@, p.1@));
    }
}

/// The position of the entry with this key, if the list has one.
fn find_key(r: &Vec<(String, String)>, k: &String) -> (res: Option<usize>)
    ensures
        match res {
            Some(idx) => idx < r@.len() && r@[idx as int].0@ == k@,
            None => forall|j: int| 0 <= j < r@.len() ==> r@[j].0@ != k@,
        },
{
    let mut idx: usize = 0;
    while idx < r.len()
        invariant
            0 <= idx <= r@.len(),
            forall|j: int| 0 <= j < idx ==> r@[j].0@ != k@,
        decreases r@.len() - idx,
    {
        if r[idx].0.eq(k) {
            return Some(idx);
        }
        idx = idx + 1;
    }
    None
}

/// The override list reduced to one entry per key: the later value of each
/// duplicate key replaces the earlier, so the list denotes the same
/// environment and can be applied in any order.
pub fn effective_env(overrides: &Vec<(String, String)>) -> (r: Vec<(String, String)>)
    ensures
        env_map(r@) == env_map(overrides@),
        distinct_keys(r@),
{
    let mut r: Vec<(String, String)> = Vec::new();
    let mut i: usize = 0;
    while i < overrides.len()
        invariant
            0 <= i <= overrides@.len(),
            env_map(r@) == env_map(overrides@.take(i as int)),
            distinct_keys(r@),
        decreases overrides@.len() - i,
    {
        let ghost prefix = overrides@.take(i as int);
        let k = overrides[i].0.clone();
        let v = overrides[i].1.clone();
        proof {
            assert(overrides@.take(i + 1).drop_last() =~= prefix);
            assert(overrides@.take(i + 1).last() == overrides@[i as int]);
        }
        if let Some(idx) = find_key(&r, &k) {
            proof {
                lemma_env_map_update(r@, idx as int, (k, v));
            }
            let ghost old_r = r@;
            r.set(idx, (k, v));
            proof {
                assert(distinct_keys(r@)) by {
                    assert(forall|j: int|
                        0 <= j < r@.len() ==> r@[j].0@ == old_r[j].0@);
                }
            }
        } else {
            let ghost old_r = r@;
            r.push((k, v));
            proof {
                assert(r@.drop_last() =~= old_r);
                assert(distinct_keys(r@)) by {
                    assert(forall|j: int| 0 <= j < old_r.len() ==> old_r[j].0@ != k@);
                }
            }
        }
        i = i + 1;
    }
    proof {
        assert(overrides@.take(overrides@.len() as int) =~= overrides@);
    }
    r
}

/// Everything the OS layer needs to perform one spawn: the command
/// descriptor, the resolved standard streams, the control-channel and
/// auxiliary-pipe wiring, and the environment entry advertising the
/// control channel to the child.
#[derive(Debug, Clone, PartialEq, Eq)]
pub struct SpawnPlan {
    pub command: CommandDescriptor,
    pub stdio: ResolvedChildStdio,
    pub ipc_child_fd: Option<i32>,
    pub ipc_env: Option<(String, String)>,
    pub extra_child_fds: Vec<Option<i32>>,
}

/// The control-channel slot a request effectively asks for: a stdin
/// reserved for the control channel forces slot 0 (stdin's descriptor is
/// repurposed), otherwise the declared slot stands.
pub open spec fn effective_ipc_slot(args: SpawnArgs) -> Option<i32> {
    if args.stdio.stdin.is_ipc_spec() {
        Some(0)
    } else {
        args.ipc
    }
}

/// Turns an authorized spawn request into a complete spawn plan: the
/// permission gate runs first, before anything is allocated; then the
/// command descriptor is assembled, the standard streams are resolved, and
/// the control channel and auxiliary pipes are planned. `inherited_env` is
/// the parent's environment; `program_allowed` and `all_allowed` are the
/// policy store's answers for this program and for unrestricted execution.
pub fn create_command(
    args: SpawnArgs,
    inherited_env: &Vec<(String, String)>,
    program_allowed: bool,
    all_allowed: bool,
) -> (r: Result<SpawnPlan, ProcessError>)
    requires
        !args.stdio.stdout.is_ipc_spec(),
        !args.stdio.stderr.is_ipc_spec(),
        args.extra_stdio@.len() + 3 <= i32::MAX,
    ensures
        !program_allowed ==> (r matches Err(ProcessError::RunPermissionDenied { program })
            && program@ == args.cmd@),
        program_allowed && !all_allowed ==> (match denied_env_key(
            args.clear_env,
            args.env@,
            inherited_env@,
        ) {
            Some(k) => r matches Err(ProcessError::DangerousEnvVar { key }) && key@ == k,
            None => r is Ok,
        }),
        program_allowed && all_allowed ==> r is Ok,
        r matches Ok(plan) ==> ({
            &&& plan.command.program == args.cmd
            &&& plan.command.args == args.args
            &&& plan.command.cwd == args.cwd
            &&& plan.command.clear_env == args.clear_env
            &&& plan.command.env == args.env
            &&& plan.command.uid == args.uid
            &&& plan.command.gid == args.gid
            &&& plan.command.windows_raw_arguments == args.windows_raw_arguments
            &&& plan.stdio.stdin == (if args.stdio.stdin.is_ipc_spec() {
                None::<ResolvedStdio>
            } else {
                Some(spec_resolve_plain(args.stdio.stdin))
            })
            &&& plan.stdio.stdout == spec_resolve_out(args.stdio.stdout, 1)
            &&& plan.stdio.stderr == spec_resolve_out(args.stdio.stderr, 2)
            &&& plan.ipc_child_fd == (match effective_ipc_slot(args) {
                Some(slot) => if slot >= 0 {
                    Some(slot)
                } else {
                    None::<i32>
                },
                None => None::<i32>,
            })
            &&& plan.extra_child_fds@.len() == args.extra_stdio@.len()
            &&& (forall|i: int|
                0 <= i < args.extra_stdio@.len() ==> plan.extra_child_fds@[i] == (
                if args.extra_stdio@[i] is Piped {
                    Some((i + 3) as i32)
                } else {
                    None::<i32>
                }))
            &&& (plan.ipc_env is Some <==> plan.ipc_child_fd is Some)
            &&& (plan.ipc_child_fd matches Some(fd) ==> (plan.ipc_env matches Some(kv) && kv.0@
                == "NODE_CHANNEL_FD"@ && kv.1@ == spec_decimal(fd as nat)))
        }),
{
    authorize(
        &args.cmd,
        program_allowed,
        all_allowed,
        args.clear_env,
        &args.env,
        inherited_env,
    )?;
    let ipc = if args.stdio.stdin.is_ipc() {
        Some(0)
    } else {
        args.ipc
    };
    let stdio = crate::stdio::resolve_child_stdio(&args.stdio);
    let wiring: WiringPlan = plan_wiring(ipc, &args.extra_stdio);
    let ipc_env = match wiring.ipc_child_fd {
        Some(fd) => Some(ipc_env_entry(fd)),
        None => None,
    };
    let command = CommandDescriptor {
        program: args.cmd,
        args: args.args,
        cwd: args.cwd,
        clear_env: args.clear_env,
        env: args.env,
        uid: args.uid,
        gid: args.gid,
        windows_raw_arguments: args.windows_raw_arguments,
    };
    Ok(
        SpawnPlan {
            command,
            stdio,
            ipc_child_fd: wiring.ipc_child_fd,
            ipc_env,
            extra_child_fds: wiring.extra_child_fds,
        },
    )
}

} // verus!
