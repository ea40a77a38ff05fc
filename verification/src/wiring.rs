use vstd::prelude::*;
use vstd::string::*;

use crate::stdio::Stdio;
use crate::strutil::{decimal_string_u32, spec_decimal};

verus! {

/// Name of the environment variable through which the child discovers the
/// descriptor number of its control channel.
pub fn ipc_env_key() -> (r: &'static str)
    ensures
        r@ == "NODE_CHANNEL_FD"@,
{
    "NODE_CHANNEL_FD"
}

/// The duplications the channel allocator must perform in the child's
/// descriptor space: the child-side descriptor of the control channel, if
/// one was requested, and for each auxiliary slot the child-side
/// descriptor of its pipe, or nothing where the requested mode is not
/// supported for auxiliary slots.
#[derive(Debug, Clone, PartialEq, Eq)]
pub struct WiringPlan {
    pub ipc_child_fd: Option<i32>,
    pub extra_child_fds: Vec<Option<i32>>,
}

/// Plans the control channel and the auxiliary pipes. A control channel is
/// allocated only for a non-negative requested slot. Auxiliary slot `i`
/// sits on child descriptor `i + 3` (the first three descriptors are the
/// standard streams); only a symbolically piped auxiliary mode opens a
/// pipe — any other auxiliary mode yields no opened descriptor, a known
/// platform limitation rather than an error.
pub fn plan_wiring(ipc: Option<i32>, extra_stdio: &Vec<Stdio>) -> (plan: WiringPlan)
    requires
        extra_stdio@.len() + 3 <= i32::MAX,
    ensures
        plan.ipc_child_fd == (match ipc {
            Some(slot) => if slot >= 0 {
                Some(slot)
            } else {
                None::<i32>
            },
            None => None::<i32>,
        }),
        plan.extra_child_fds@.len() == extra_stdio@.len(),
        forall|i: int|
            0 <= i < extra_stdio@.len() ==> plan.extra_child_fds@[i] == (
            if extra_stdio@[i] is Piped {
                Some((i + 3) as i32)
            } else {
                None::<i32>
            }),
{
    let ipc_child_fd = match ipc {
        Some(slot) => if slot >= 0 {
            Some(slot)
        } else {
            None
        },
        None => None,
    };
    let mut extra: Vec<Option<i32>> = Vec::new();
    let mut i: usize = 0;
    while i < extra_stdio.len()
        invariant
            0 <= i <= extra_stdio@.len(),
            extra_stdio@.len() + 3 <= i32::MAX,
            extra@.len() == i,
            forall|j: int|
                0 <= j < i ==> extra@[j] == (if extra_stdio@[j] is Piped {
                    Some((j + 3) as i32)
                } else {
                    None::<i32>
                }),
        decreases extra_stdio@.len() - i,
    {
        let fd = match extra_stdio[i] {
            Stdio::Piped => Some((i as i32) + 3),
            _ => None,
        };
        extra.push(fd);
        i = i + 1;
    }
    WiringPlan { ipc_child_fd, extra_child_fds: extra }
}

/// The environment entry advertising the control-channel descriptor: the
/// fixed variable name carrying the slot number in decimal.
pub fn ipc_env_entry(slot: i32) -> (r: (String, String))
    requires
        slot >= 0,
    ensures
        r.0@ == "NODE_CHANNEL_FD"@,
        r.1@ == spec_decimal(slot as nat),
{
    (String::from_str("NODE_CHANNEL_FD"), decimal_string_u32(slot as u32))
}

} // verus!
