//! Decisions of the blocking-style net adapters.
//!
//! Each adapter operation runs a non-blocking syscall in a loop: a result
//! of would-block parks the fiber on the descriptor's readiness and retries
//! after the wakeup; anything else — success or a real error — ends the
//! loop. The decision is verified here; the embedding performs the syscall,
//! the registration (`Processor::wait_event`) and the park
//! (`Processor::block`) around it.

use vstd::prelude::*;

use crate::io_handler::IoInterest;

verus! {

/// Outcome of one non-blocking syscall attempt, as the embedding reports
/// it: completion with a byte count, would-block, or an OS error number.
#[derive(Clone, Copy, Debug, PartialEq, Eq, Structural)]
pub enum SysResult {
    Done(usize),
    WouldBlock,
    Fail(i32),
}

/// What a blocking-style operation does after one attempt.
#[derive(Clone, Copy, Debug, PartialEq, Eq)]
pub enum IoAction {
    /// Return this result to the caller: `Ok` bytes or an unchanged OS
    /// error.
    Complete(Result<usize, i32>),
    /// Park on the descriptor with this interest and try again after the
    /// wakeup.
    Park(IoInterest),
}

/// Decide the next step of a blocking-style operation. Would-block is never
/// surfaced: it turns into a park under the operation's interest. Every
/// other outcome completes the operation, errors passing through unchanged.
pub fn io_step(r: SysResult, interest: IoInterest) -> (a: IoAction)
    ensures
        r matches SysResult::Done(n) ==> a == IoAction::Complete(Result::<usize, i32>::Ok(n)),
        r is WouldBlock ==> a == IoAction::Park(interest),
        r matches SysResult::Fail(e) ==> a == IoAction::Complete(Result::<usize, i32>::Err(e)),
        a is Park <==> r is WouldBlock,
{
    match r {
        SysResult::Done(n) => IoAction::Complete(Ok(n)),
        SysResult::WouldBlock => IoAction::Park(interest),
        SysResult::Fail(e) => IoAction::Complete(Err(e)),
    }
}

/// Decide whether a parked `connect` succeeded: on wakeup the adapter reads
/// the socket's pending error; zero means the connection is established and
/// any other value is the OS error the connect failed with.
pub fn connect_check(so_error: i32) -> (r: Result<(), i32>)
    ensures
        so_error == 0 <==> r is Ok,
        r matches Err(e) ==> e == so_error,
{
    if so_error == 0 {
        Ok(())
    } else {
        Err(so_error)
    }
}

} // verus!
