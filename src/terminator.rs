use vstd::prelude::*;

verus! {

/// Seconds that a child is given to exit after SIGTERM before it is sent
/// SIGKILL.
pub const SIGTERM_TIMEOUT_SECS: u64 = 5;

/// The largest process id the kernel hands out fits a signed 32-bit `pid_t`.
pub const PID_MAX: u32 = 0x7fff_ffff;

/// The process to send SIGTERM to, given the id that the child handle reports
/// (`None` once the child has been reaped). Nothing is signalled for a reaped
/// child, nor for an id beyond the range of `pid_t`, which as a negative
/// number would name a process group instead.
pub fn signal_target(pid: Option<u32>) -> (r: Option<i32>)
    ensures
        pid is None ==> r is None,
        pid matches Some(p) ==> (p <= PID_MAX ==> r == Some(p as i32)) && (p > PID_MAX ==> r is None),
{
    match pid {
        Some(p) => if p <= PID_MAX {
            Some(p as i32)
        } else {
            None
        },
        None => None,
    }
}

/// What to do once the grace period after SIGTERM is over.
#[derive(Clone, Copy, Debug, PartialEq, Eq, Structural)]
pub enum Escalation {
    /// The child exited within the grace period: termination is complete.
    Done,
    /// The child outlived the grace period: send SIGKILL and reap it.
    Kill,
}

/// A child that has not exited within the grace period is killed.
pub fn escalate(exited_in_time: bool) -> (r: Escalation)
    ensures
        exited_in_time ==> r == Escalation::Done,
        !exited_in_time ==> r == Escalation::Kill,
{
    if exited_in_time {
        Escalation::Done
    } else {
        Escalation::Kill
    }
}

} // verus!
