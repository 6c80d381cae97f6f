//! Core fiber data: lifecycle states, handles, and the outstanding-fiber
//! accounting that the scheduler maintains.

use vstd::prelude::*;

verus! {

/// Lifecycle state of a fiber.
///
/// The only permitted transitions are:
/// `Suspended -> Running` (a worker resumes the fiber),
/// `Running -> Suspended` (voluntary yield),
/// `Running -> Blocked` (park on I/O readiness),
/// `Running -> Finished` (the entry closure returned),
/// `Running -> Panicked` (the entry closure unwound),
/// `Blocked -> Suspended` (readiness wakeup).
/// `Finished` and `Panicked` are terminal.
#[derive(Clone, Copy, Debug, PartialEq, Eq, Structural)]
pub enum State {
    Suspended,
    Running,
    Blocked,
    Finished,
    Panicked,
}

impl State {
    /// A terminal state is never left again.
    pub open spec fn is_terminal(self) -> bool {
        self == State::Finished || self == State::Panicked
    }
}

/// The fiber lifecycle machine: which single-step transitions are allowed.
pub open spec fn can_transition(from: State, to: State) -> bool {
    match from {
        State::Suspended => to == State::Running,
        State::Running => to != State::Running,
        State::Blocked => to == State::Suspended,
        State::Finished => false,
        State::Panicked => false,
    }
}

/// Failures surfaced by the runtime itself (as opposed to ordinary I/O
/// errors, which pass through the net adapters unchanged).
#[derive(Clone, Copy, Debug, PartialEq, Eq, Structural)]
pub enum SchedError {
    /// The per-worker token slab has no free slot left.
    TokenExhausted,
    /// A context switch into a fiber failed; the fiber is given up on.
    ResumeFailed,
}

/// What a resumed fiber reports back to its worker: the state it yielded
/// with, or a resume failure.
pub type ResumeOutcome = Result<State, SchedError>;

/// The fiber state implied by a resume outcome. A failed resume is treated
/// as `Finished`: the worker reaps the fiber and moves on.
pub open spec fn outcome_state(r: ResumeOutcome) -> State {
    match r {
        Ok(st) => st,
        Err(_) => State::Finished,
    }
}

/// A handle to a fiber. The fiber itself (stack, saved machine context,
/// entry closure) lives outside the scheduler core; the handle names it by
/// its slot in the scheduler's fiber table.
#[derive(Clone, Copy, Debug, PartialEq, Eq, Structural)]
pub struct CoroutineRefMut {
    pub coro_ptr: usize,
}

impl CoroutineRefMut {
    pub fn new(coro: usize) -> (r: CoroutineRefMut)
        ensures
            r.coro_ptr == coro,
    {
        CoroutineRefMut { coro_ptr: coro }
    }
}

/// One fiber as the scheduler tracks it. `reaped` is set when a worker has
/// observed a terminal state and released the fiber's resources; the
/// outstanding count is the number of unreaped fibers.
#[derive(Clone, Copy, Debug, PartialEq, Eq, Structural)]
pub struct FiberRecord {
    pub state: State,
    pub reaped: bool,
    pub stack_size: usize,
}

/// The number of fibers that have been spawned and not yet reaped: the
/// scheduler's outstanding-fiber count.
pub open spec fn count_unreaped(s: Seq<FiberRecord>) -> nat
    decreases s.len(),
{
    if s.len() == 0 {
        0
    } else {
        count_unreaped(s.drop_last()) + if !s.last().reaped {
            1nat
        } else {
            0nat
        }
    }
}

/// Appending a record changes the outstanding count by exactly its own
/// contribution.
pub proof fn lemma_count_unreaped_push(s: Seq<FiberRecord>, r: FiberRecord)
    ensures
        count_unreaped(s.push(r)) == count_unreaped(s) + if !r.reaped {
            1nat
        } else {
            0nat
        },
{
    assert(s.push(r).drop_last() =~= s);
}

/// The outstanding count never exceeds the number of fibers ever spawned.
pub proof fn lemma_count_unreaped_le_len(s: Seq<FiberRecord>)
    ensures
        count_unreaped(s) <= s.len(),
    decreases s.len(),
{
    if s.len() > 0 {
        lemma_count_unreaped_le_len(s.drop_last());
    }
}

/// Replacing one record changes the outstanding count by the difference of
/// the two records' contributions, and nothing else.
pub proof fn lemma_count_unreaped_update(s: Seq<FiberRecord>, i: int, r: FiberRecord)
    requires
        0 <= i < s.len(),
    ensures
        count_unreaped(s.update(i, r)) + (if !s[i].reaped {
            1nat
        } else {
            0nat
        }) == count_unreaped(s) + (if !r.reaped {
            1nat
        } else {
            0nat
        }),
    decreases s.len(),
{
    if i == s.len() - 1 {
        assert(s.update(i, r).drop_last() =~= s.drop_last());
    } else {
        assert(s.update(i, r).drop_last() =~= s.drop_last().update(i, r));
        lemma_count_unreaped_update(s.drop_last(), i, r);
    }
}

} // verus!
