//! The worker handle's shared slot. The spawned process group's handle
//! lives in an optional slot; termination consumes it and is defined as
//! success also when the slot is already empty or the group already gone,
//! so a cancellation racing with normal exit never double-kills.

use vstd::prelude::*;

verus! {

#[verifier::external_type_specification]
#[verifier::external_body]
pub struct ExGroupChild(command_group::GroupChild);

/// Relies on `command_group::GroupChild::kill`: asks the operating system
/// to end the whole process group; best-effort, a target already gone
/// reports an error that callers may ignore.
#[verifier::external_body]
fn kill_group(child: &mut command_group::GroupChild) -> (r: bool) {
    child.kill().is_ok()
}

/// One poll of the worker's exit state.
pub enum WaitPoll {
    /// The worker exited, with success flag and exit code when the
    /// platform reports one.
    Exited(bool, Option<i32>),
    /// The worker is still running.
    StillRunning,
    /// The handle is already consumed: nothing left to wait for.
    Gone,
    /// The poll itself failed.
    PollFailed(String),
}

/// Relies on `command_group::GroupChild::try_wait`: a non-blocking poll;
/// an exited worker reports its status, a running one reports nothing
/// yet. Whatever the poll found, it never reports the handle consumed.
#[verifier::external_body]
fn try_wait_group(child: &mut command_group::GroupChild) -> (r: WaitPoll)
    ensures
        !(r is Gone),
{
    match child.try_wait() {
        Ok(Some(status)) => WaitPoll::Exited(status.success(), status.code()),
        Ok(None) => WaitPoll::StillRunning,
        Err(e) => WaitPoll::PollFailed(e.to_string()),
    }
}

/// The mutable slot holding the worker's handle, shared between the wait
/// loop and the cancellation handler.
pub struct WorkerSlot {
    child: Option<command_group::GroupChild>,
}

impl WorkerSlot {
    /// The slot still holds a handle.
    pub closed spec fn armed(&self) -> bool {
        self.child is Some
    }

    /// An empty slot.
    pub fn empty() -> (r: Self)
        ensures
            !r.armed(),
    {
        WorkerSlot { child: None }
    }

    /// Puts a freshly spawned worker's handle into the slot.
    pub fn arm(&mut self, child: command_group::GroupChild)
        ensures
            final(self).armed(),
    {
        self.child = Some(child);
    }

    /// Ends the worker's whole process group and consumes the handle.
    /// Termination always reports success: an empty or consumed slot, and
    /// a group that is already gone, are no-ops, not errors, so a second
    /// terminate — or one racing a normal exit — is harmless.
    pub fn terminate(&mut self) -> (r: bool)
        ensures
            r == true,
            !final(self).armed(),
    {
        match self.child.take() {
            Some(mut c) => {
                let _ = kill_group(&mut c);
                true
            },
            None => true,
        }
    }

    /// Polls the worker for exit without blocking, so an external
    /// cancellation can interleave; exactly a consumed slot reports
    /// `Gone`.
    pub fn poll_exit(&mut self) -> (r: WaitPoll)
        ensures
            final(self).armed() == old(self).armed(),
            (r is Gone) == !old(self).armed(),
    {
        match &mut self.child {
            Some(c) => try_wait_group(c),
            None => WaitPoll::Gone,
        }
    }
}

} // verus!
