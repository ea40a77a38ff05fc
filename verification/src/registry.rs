use vstd::prelude::*;
use vstd::pervasive::VecAdditionalExecFns;

use crate::errors::ProcessError;
use crate::exit_status::{translate_exit, translated_status, ChildStatus};
use crate::signals::{signal_str_to_int, spec_signal_number};

verus! {

/// One live child. The process id is cached here, outside the exclusive
/// process handle the host holds, so that a kill — which needs only the
/// pid — can proceed even while a wait holds the handle; `waiting` records
/// that a wait is in flight.
#[derive(Copy, Clone, PartialEq, Eq, Structural, Debug)]
pub struct RegistryEntry {
    pub pid: u32,
    pub waiting: bool,
}

/// What a wait request decides, as a function of the table alone.
#[derive(Copy, Clone, PartialEq, Eq, Structural, Debug)]
pub enum WaitDecision {
    Proceed { pid: u32 },
    RejectBusy,
    RejectTerminated,
}

/// What a kill request decides, as a function of the table alone.
#[derive(Copy, Clone, PartialEq, Eq, Structural, Debug)]
pub enum KillDecision {
    Proceed { pid: u32 },
    RejectTerminated,
}

/// The shared table of live children: an arena of slots indexed by the
/// opaque handle id. A slot is issued once, tombstoned on removal and
/// never resurrected, so operations on a reaped id fail cleanly.
pub struct ChildRegistry {
    entries: Vec<Option<RegistryEntry>>,
}

impl View for ChildRegistry {
    type V = Seq<Option<RegistryEntry>>;

    closed spec fn view(&self) -> Seq<Option<RegistryEntry>> {
        self.entries@
    }
}

pub open spec fn spec_lookup(r: Seq<Option<RegistryEntry>>, id: int) -> Option<RegistryEntry> {
    if 0 <= id < r.len() {
        r[id]
    } else {
        None
    }
}

/// A wait proceeds only on a present entry no other wait holds: exclusive,
/// non-reentrant access, failing immediately instead of queueing.
pub open spec fn spec_wait_decision(r: Seq<Option<RegistryEntry>>, id: int) -> WaitDecision {
    match spec_lookup(r, id) {
        None => WaitDecision::RejectTerminated,
        Some(en) => if en.waiting {
            WaitDecision::RejectBusy
        } else {
            WaitDecision::Proceed { pid: en.pid }
        },
    }
}

/// The table after a wait request: a proceeding wait marks the entry as
/// held; a rejected one changes nothing.
pub open spec fn spec_wait_next(r: Seq<Option<RegistryEntry>>, id: int) -> Seq<
    Option<RegistryEntry>,
> {
    match spec_lookup(r, id) {
        Some(en) => if !en.waiting {
            r.update(id, Some(RegistryEntry { pid: en.pid, waiting: true }))
        } else {
            r
        },
        None => r,
    }
}

/// A kill proceeds on any present entry — waiting or not — since it needs
/// only the cached pid.
pub open spec fn spec_kill_decision(r: Seq<Option<RegistryEntry>>, id: int) -> KillDecision {
    match spec_lookup(r, id) {
        None => KillDecision::RejectTerminated,
        Some(en) => KillDecision::Proceed { pid: en.pid },
    }
}

impl ChildRegistry {
    pub fn new() -> (r: Self)
        ensures
            r@ == Seq::<Option<RegistryEntry>>::empty(),
    {
        ChildRegistry { entries: Vec::new() }
    }

    /// Registers a freshly spawned child and issues its opaque handle id.
    pub fn register(&mut self, pid: u32) -> (id: usize)
        ensures
            final(self)@ == old(self)@.push(Some(RegistryEntry { pid, waiting: false })),
            id == old(self)@.len(),
    {
        let id = self.entries.len();
        self.entries.push(Some(RegistryEntry { pid, waiting: false }));
        id
    }

    /// The pid under this handle, if the child has not been reaped.
    pub fn get_pid(&self, id: usize) -> (r: Option<u32>)
        ensures
            r == (match spec_lookup(self@, id as int) {
                Some(en) => Some(en.pid),
                None => None::<u32>,
            }),
    {
        if id < self.entries.len() {
            match self.entries[id] {
                Some(en) => Some(en.pid),
                None => None,
            }
        } else {
            None
        }
    }

    /// The pid a kill must signal. A kill needs no exclusive access, only
    /// the cached pid, so it is answered even while a wait is in flight;
    /// a reaped handle is rejected as already terminated.
    pub fn pid_for_kill(&self, id: usize) -> (r: Result<u32, ProcessError>)
        ensures
            match spec_kill_decision(self@, id as int) {
                KillDecision::Proceed { pid } => r == Ok::<u32, ProcessError>(pid),
                KillDecision::RejectTerminated => r matches Err(e) && (
                e matches ProcessError::AlreadyTerminated { id: i } && i == id),
            },
    {
        if id < self.entries.len() {
            match self.entries[id] {
                Some(en) => Ok(en.pid),
                None => Err(ProcessError::AlreadyTerminated { id }),
            }
        } else {
            Err(ProcessError::AlreadyTerminated { id })
        }
    }

    /// Takes the exclusive right to wait on this handle. A second
    /// concurrent wait is rejected busy rather than queued; a reaped
    /// handle is rejected as already terminated.
    pub fn begin_wait(&mut self, id: usize) -> (r: Result<u32, ProcessError>)
        ensures
            final(self)@ == spec_wait_next(old(self)@, id as int),
            match spec_wait_decision(old(self)@, id as int) {
                WaitDecision::Proceed { pid } => r == Ok::<u32, ProcessError>(pid),
                WaitDecision::RejectBusy => r matches Err(e) && (
                e matches ProcessError::Busy { id: i } && i == id),
                WaitDecision::RejectTerminated => r matches Err(e) && (
                e matches ProcessError::AlreadyTerminated { id: i } && i == id),
            },
    {
        if id < self.entries.len() {
            match self.entries[id] {
                Some(en) => {
                    if en.waiting {
                        Err(ProcessError::Busy { id })
                    } else {
                        self.entries.set(id, Some(RegistryEntry { pid: en.pid, waiting: true }));
                        Ok(en.pid)
                    }
                },
                None => Err(ProcessError::AlreadyTerminated { id }),
            }
        } else {
            Err(ProcessError::AlreadyTerminated { id })
        }
    }

    /// Ends a successful wait: the handle is removed exactly once, its
    /// slot tombstoned so later operations on this id fail cleanly.
    pub fn finish_wait(&mut self, id: usize)
        requires
            spec_lookup(old(self)@, id as int) matches Some(en) && en.waiting,
        ensures
            final(self)@ == old(self)@.update(id as int, None),
    {
        self.entries.set(id, None);
    }

    /// Ends a failed wait: the entry stays, released for a later attempt.
    pub fn abort_wait(&mut self, id: usize)
        requires
            spec_lookup(old(self)@, id as int) matches Some(en) && en.waiting,
        ensures
            final(self)@ == old(self)@.update(
                id as int,
                Some(
                    RegistryEntry {
                        pid: spec_lookup(old(self)@, id as int)->Some_0.pid,
                        waiting: false,
                    },
                ),
            ),
    {
        match self.entries[id] {
            Some(en) => {
                self.entries.set(id, Some(RegistryEntry { pid: en.pid, waiting: false }));
            },
            None => (),
        }
    }

    /// External forced reclamation: drops the entry, if any, without a
    /// wait; the slot is tombstoned just as a successful wait leaves it.
    pub fn remove(&mut self, id: usize)
        ensures
            final(self)@ == (if 0 <= id < old(self)@.len() {
                old(self)@.update(id as int, None)
            } else {
                old(self)@
            }),
    {
        if id < self.entries.len() {
            self.entries.set(id, None);
        }
    }
}

/// Concludes a wait whose OS part succeeded: the handle is reaped exactly
/// once — its slot tombstoned and its resources released by the caller —
/// and the raw status is normalized, whatever the translation says.
pub fn conclude_wait(
    reg: &mut ChildRegistry,
    id: usize,
    code: Option<i32>,
    signal: Option<i32>,
) -> (r: Result<ChildStatus, ProcessError>)
    requires
        spec_lookup(old(reg)@, id as int) matches Some(en) && en.waiting,
        signal is None ==> code is Some,
    ensures
        final(reg)@ == old(reg)@.update(id as int, None),
        translated_status(code, signal, r),
{
    reg.finish_wait(id);
    translate_exit(code, signal)
}

/// Decides a kill without touching the OS: the pid comes from the
/// registry's cached copy — available even while a wait is in flight —
/// and the signal name must be in the table. A reaped handle is rejected
/// before the signal is looked at, as an already-terminated child.
pub fn prepare_kill(reg: &ChildRegistry, id: usize, signal: &str) -> (r: Result<
    (u32, i32),
    ProcessError,
>)
    ensures
        match spec_kill_decision(reg@, id as int) {
            KillDecision::Proceed { pid } => match spec_signal_number(signal@) {
                Some(signo) => r == Ok::<(u32, i32), ProcessError>((pid, signo)),
                None => r matches Err(ProcessError::InvalidSignal { name }) && name@ == signal@,
            },
            KillDecision::RejectTerminated => r matches Err(
                ProcessError::AlreadyTerminated { id: i },
            ) && i == id,
        },
{
    let pid = reg.pid_for_kill(id)?;
    let signo = signal_str_to_int(signal)?;
    Ok((pid, signo))
}

/// Law: after a successful wait tombstones a handle, a second wait and a
/// kill on the same id are both rejected as already terminated.
pub proof fn lemma_wait_exactly_once(r: Seq<Option<RegistryEntry>>, id: int)
    requires
        0 <= id < r.len(),
    ensures
        spec_wait_decision(r.update(id, None), id) == WaitDecision::RejectTerminated,
        spec_kill_decision(r.update(id, None), id) == KillDecision::RejectTerminated,
{
}

/// Law: beginning a wait leaves the handle busy for a second wait, yet a
/// kill on the same handle still proceeds with the same pid — kill is
/// never blocked behind a pending wait.
pub proof fn lemma_kill_unblocked_by_wait(r: Seq<Option<RegistryEntry>>, id: int)
    requires
        spec_wait_decision(r, id) is Proceed,
    ensures
        spec_wait_decision(spec_wait_next(r, id), id) == WaitDecision::RejectBusy,
        spec_kill_decision(spec_wait_next(r, id), id) == spec_kill_decision(r, id),
{
}

/// Law: an operation on one handle never disturbs another: waiting on or
/// removing `id` leaves every other slot as it was.
pub proof fn lemma_handles_independent(r: Seq<Option<RegistryEntry>>, id: int, other: int)
    requires
        0 <= other < r.len(),
        other != id,
    ensures
        spec_wait_next(r, id)[other] == r[other],
        0 <= id < r.len() ==> r.update(id, None)[other] == r[other],
{
}

} // verus!
