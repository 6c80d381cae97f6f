//! The per-worker processing unit: the fiber it is currently resuming, the
//! result the fiber reported when it last yielded, and the worker's own
//! readiness registry.
//!
//! A worker's loop alternates decisions with outside work (the actual stack
//! switch into a fiber, the blocking poll of the readiness facility, a short
//! idle sleep). The decisions are verified here; the embedding performs the
//! outside work between them:
//!
//! - `schedule_decide` picks the next step of the loop;
//! - `begin_resume` hands the worker to a fiber, `end_resume` takes it back;
//! - a running fiber yields through `sched`, `block` or `yield_with`, and
//!   parks through `wait_event` followed by `block`;
//! - `io_ready` turns a readiness event back into a runnable fiber;
//! - `handle_resume_result` disposes of a fiber after it yielded.

use vstd::prelude::*;

use crate::coroutine::{outcome_state, CoroutineRefMut, FiberRecord, ResumeOutcome, SchedError, State};
use crate::io_handler::{count_parked, IoHandler, IoInterest, ParkedEntry};
use crate::scheduler::Scheduler;

verus! {

/// Some pending registration of `slab` is for fiber `h`.
pub open spec fn slab_contains(slab: Seq<Option<ParkedEntry>>, h: CoroutineRefMut) -> bool {
    exists|t: int| 0 <= t < slab.len() && (#[trigger] slab[t] matches Some(e) && e.coro == h)
}

pub struct Processor {
    /// This worker's readiness registry.
    pub handler: IoHandler,
    /// The fiber this worker is inside `resume` for, if any.
    pub cur_running: Option<CoroutineRefMut>,
    /// What the fiber reported when it last yielded back to the worker.
    pub last_result: Option<ResumeOutcome>,
}

/// The invariant tying a worker to the scheduler it serves.
///
/// Every pending registration is for a live, unreaped fiber that is either
/// blocked or just about to block (it is the fiber this worker is resuming);
/// no registered fiber is also in the run queue, and no fiber is registered
/// twice. The fiber being resumed — and only it — is running.
pub open spec fn rt_inv(s: Scheduler, p: Processor) -> bool {
    &&& s.wf()
    &&& p.handler.wf()
    &&& forall|t: int|
        0 <= t < p.handler@.len() ==> match #[trigger] p.handler@[t] {
            Some(e) => {
                &&& s.valid(e.coro)
                &&& !s.fiber_reaped(e.coro)
                &&& !s.queue_view().contains(e.coro)
                &&& (s.fiber_state(e.coro) == State::Blocked || p.cur_running == Some(e.coro))
            },
            None => true,
        }
    &&& forall|t1: int, t2: int|
        0 <= t1 < p.handler@.len() && 0 <= t2 < p.handler@.len() && t1 != t2
            && #[trigger] p.handler@[t1] is Some && #[trigger] p.handler@[t2] is Some
            ==> p.handler@[t1]->Some_0.coro != p.handler@[t2]->Some_0.coro
    &&& match p.cur_running {
        Some(h) => {
            &&& s.valid(h)
            &&& s.fiber_state(h) == State::Running
            &&& !s.fiber_reaped(h)
            &&& !s.queue_view().contains(h)
        },
        None => true,
    }
    &&& forall|i: int|
        0 <= i < s.fibers@.len() && (#[trigger] s.fibers@[i]).state == State::Running
            ==> (p.cur_running matches Some(h) && h.coro_ptr == i)
}

/// What the worker chooses to do next.
#[derive(Clone, Copy, Debug, PartialEq, Eq, Structural)]
pub enum SchedAction {
    /// Resume this fiber (it came off the front of the run queue).
    Resume(CoroutineRefMut),
    /// Nothing is runnable but fibers are parked: poll for readiness.
    PollIo,
    /// Nothing is runnable, nothing is parked, nothing is outstanding: done.
    Exit,
    /// Nothing is runnable here, but other workers still hold live fibers:
    /// back off briefly and look again.
    Idle,
}

impl Processor {
    pub fn new() -> (p: Processor)
        ensures
            p.handler@ == Seq::<Option<ParkedEntry>>::empty(),
            p.handler.wf(),
            p.cur_running is None,
            p.last_result is None,
    {
        Processor { handler: IoHandler::new(), cur_running: None, last_result: None }
    }

    /// The fiber this worker is currently inside `resume` for.
    pub fn running(&mut self) -> (r: Option<CoroutineRefMut>)
        ensures
            r == old(self).cur_running,
            *final(self) == *old(self),
    {
        self.cur_running
    }

    /// Record what the current fiber reports as it yields.
    pub fn set_last_result(&mut self, r: ResumeOutcome)
        ensures
            final(self).last_result == Some(r),
            final(self).cur_running == old(self).cur_running,
            final(self).handler == old(self).handler,
    {
        self.last_result = Some(r);
    }

    /// The current fiber yields back to the worker, leaving it in the state
    /// `r` implies. A fiber with a pending registration may only yield
    /// `Blocked` — anything else would let a readiness event wake a fiber
    /// that is not parked.
    pub fn yield_with(&mut self, s: &mut Scheduler, r: ResumeOutcome)
        requires
            rt_inv(*old(s), *old(self)),
            r != Result::<State, SchedError>::Ok(State::Running),
            old(self).cur_running matches Some(h) && slab_contains(old(self).handler@, h)
                ==> outcome_state(r) == State::Blocked,
        ensures
            rt_inv(*final(s), *final(self)),
            old(self).cur_running is None ==> *final(s) == *old(s) && *final(self) == *old(self),
            old(self).cur_running matches Some(h) ==> {
                &&& crate::coroutine::can_transition(old(s).fiber_state(h), outcome_state(r))
                &&& final(self).cur_running is None
                &&& final(self).last_result == Some(r)
                &&& final(self).handler == old(self).handler
                &&& final(s).fibers@ == old(s).fibers@.update(
                    h.coro_ptr as int,
                    FiberRecord {
                        state: outcome_state(r),
                        reaped: false,
                        stack_size: old(s).fibers@[h.coro_ptr as int].stack_size,
                    },
                )
                &&& final(s).names == old(s).names
                &&& final(s).global_queue == old(s).global_queue
                &&& final(s).work_counts == old(s).work_counts
            },
    {
        match self.cur_running {
            None => {},
            Some(coro_ref) => {
                let idx = coro_ref.coro_ptr;
                let st = match r {
                    Ok(st) => st,
                    Err(_) => State::Finished,
                };
                let rec = s.fibers[idx];
                let updated = FiberRecord { state: st, reaped: false, stack_size: rec.stack_size };
                s.fibers[idx] = updated;
                proof {
                    crate::coroutine::lemma_count_unreaped_update(
                        old(s).fibers@,
                        idx as int,
                        updated,
                    );
                    assert forall|i: int| 0 <= i < s.queue_view().len() implies {
                        &&& (#[trigger] s.queue_view()[i]).coro_ptr < s.fibers@.len()
                        &&& s.fiber_state(s.queue_view()[i]) == State::Suspended
                        &&& !s.fiber_reaped(s.queue_view()[i])
                    } by {
                        assert(!old(s).queue_view().contains(coro_ref));
                        assert(old(s).queue_view()[i] != coro_ref);
                    }
                }
                self.last_result = Some(r);
                self.cur_running = None;
                proof {
                    assert forall|t: int|
                        0 <= t < self.handler@.len() && #[trigger] self.handler@[t] is Some implies {
                        let e = self.handler@[t]->Some_0;
                        &&& s.valid(e.coro)
                        &&& !s.fiber_reaped(e.coro)
                        &&& !s.queue_view().contains(e.coro)
                        &&& s.fiber_state(e.coro) == State::Blocked
                    } by {
                        let e = self.handler@[t]->Some_0;
                        if e.coro == coro_ref {
                            assert(slab_contains(old(self).handler@, coro_ref));
                            assert(outcome_state(r) == State::Blocked);
                        } else {
                            assert(e.coro.coro_ptr != idx as int);
                        }
                    }
                    assert forall|i: int|
                        0 <= i < s.fibers@.len() && (#[trigger] s.fibers@[i]).state
                            == State::Running implies false by {
                        if i != idx as int {
                            assert(old(s).fibers@[i].state == State::Running);
                        } else {
                            assert(s.fibers@[i].state == st);
                            match r {
                                Ok(st2) => assert(st2 != State::Running),
                                Err(_) => assert(st == State::Finished),
                            }
                        }
                    }
                }
            },
        }
    }

    /// Voluntary yield: the current fiber goes back to `Suspended` and the
    /// worker gets the control back.
    pub fn sched(&mut self, s: &mut Scheduler)
        requires
            rt_inv(*old(s), *old(self)),
            old(self).cur_running matches Some(h) ==> !slab_contains(old(self).handler@, h),
        ensures
            rt_inv(*final(s), *final(self)),
            old(self).cur_running is None ==> *final(s) == *old(s) && *final(self) == *old(self),
            old(self).cur_running matches Some(h) ==> {
                &&& final(self).cur_running is None
                &&& final(self).last_result == Some(Result::<State, SchedError>::Ok(State::Suspended))
                &&& final(self).handler == old(self).handler
                &&& final(s).fibers@ == old(s).fibers@.update(
                    h.coro_ptr as int,
                    FiberRecord {
                        state: State::Suspended,
                        reaped: false,
                        stack_size: old(s).fibers@[h.coro_ptr as int].stack_size,
                    },
                )
                &&& final(s).names == old(s).names
                &&& final(s).global_queue == old(s).global_queue
                &&& final(s).work_counts == old(s).work_counts
            },
    {
        self.yield_with(s, Ok(State::Suspended));
    }

    /// Park: the current fiber becomes `Blocked` and the worker gets the
    /// control back. The caller has arranged (via `wait_event`) that some
    /// readiness event will re-enqueue the fiber.
    pub fn block(&mut self, s: &mut Scheduler)
        requires
            rt_inv(*old(s), *old(self)),
        ensures
            rt_inv(*final(s), *final(self)),
            old(self).cur_running is None ==> *final(s) == *old(s) && *final(self) == *old(self),
            old(self).cur_running matches Some(h) ==> {
                &&& final(self).cur_running is None
                &&& final(self).last_result == Some(Result::<State, SchedError>::Ok(State::Blocked))
                &&& final(self).handler == old(self).handler
                &&& final(s).fibers@ == old(s).fibers@.update(
                    h.coro_ptr as int,
                    FiberRecord {
                        state: State::Blocked,
                        reaped: false,
                        stack_size: old(s).fibers@[h.coro_ptr as int].stack_size,
                    },
                )
                &&& final(s).names == old(s).names
                &&& final(s).global_queue == old(s).global_queue
                &&& final(s).work_counts == old(s).work_counts
            },
    {
        self.yield_with(s, Ok(State::Blocked));
    }

    /// The worker hands itself to a suspended fiber: record it as the one
    /// being resumed and mark it running. Requiring that no fiber is being
    /// resumed already is what keeps any fiber inside at most one `resume`
    /// at a time. The embedding then switches stacks into the fiber.
    pub fn begin_resume(&mut self, s: &mut Scheduler, coro_ref: CoroutineRefMut)
        requires
            rt_inv(*old(s), *old(self)),
            old(self).cur_running is None,
            old(s).valid(coro_ref),
            old(s).fiber_state(coro_ref) == State::Suspended,
            !old(s).fiber_reaped(coro_ref),
            !old(s).queue_view().contains(coro_ref),
            !slab_contains(old(self).handler@, coro_ref),
        ensures
            rt_inv(*final(s), *final(self)),
            crate::coroutine::can_transition(old(s).fiber_state(coro_ref), State::Running),
            final(self).cur_running == Some(coro_ref),
            final(self).last_result is None,
            final(self).handler == old(self).handler,
            final(s).fibers@ == old(s).fibers@.update(
                coro_ref.coro_ptr as int,
                FiberRecord {
                    state: State::Running,
                    reaped: false,
                    stack_size: old(s).fibers@[coro_ref.coro_ptr as int].stack_size,
                },
            ),
            final(s).names == old(s).names,
            final(s).global_queue == old(s).global_queue,
            final(s).work_counts == old(s).work_counts,
    {
        let idx = coro_ref.coro_ptr;
        let rec = s.fibers[idx];
        let updated = FiberRecord { state: State::Running, reaped: false, stack_size: rec.stack_size };
        s.fibers[idx] = updated;
        proof {
            crate::coroutine::lemma_count_unreaped_update(old(s).fibers@, idx as int, updated);
            assert forall|i: int| 0 <= i < s.queue_view().len() implies {
                &&& (#[trigger] s.queue_view()[i]).coro_ptr < s.fibers@.len()
                &&& s.fiber_state(s.queue_view()[i]) == State::Suspended
                &&& !s.fiber_reaped(s.queue_view()[i])
            } by {
                assert(old(s).queue_view()[i] != coro_ref);
            }
        }
        self.cur_running = Some(coro_ref);
        self.last_result = None;
    }

    /// The fiber yielded in a way the worker can see after the stack switch
    /// back: either it reported an outcome as it yielded, or it reported
    /// nothing, in which case it is still marked running and is treated as
    /// having yielded voluntarily.
    pub open spec fn post_switch(s: Scheduler, p: Processor, coro_ref: CoroutineRefMut) -> bool {
        &&& s.valid(coro_ref)
        &&& !s.fiber_reaped(coro_ref)
        &&& !s.queue_view().contains(coro_ref)
        &&& match p.last_result {
            None => p.cur_running == Some(coro_ref),
            Some(out) => p.cur_running is None && s.fiber_state(coro_ref) == outcome_state(out)
                && out != Result::<State, SchedError>::Ok(State::Running),
        }
    }

    /// The worker takes control back after the fiber it resumed yielded.
    /// Returns the outcome the fiber reported; a fiber that yielded without
    /// reporting counts as suspended. Afterwards no fiber is being resumed
    /// and the reported outcome matches the fiber's recorded state.
    pub fn end_resume(&mut self, s: &mut Scheduler, coro_ref: CoroutineRefMut) -> (r: ResumeOutcome)
        requires
            rt_inv(*old(s), *old(self)),
            Processor::post_switch(*old(s), *old(self), coro_ref),
            old(self).last_result is None && slab_contains(old(self).handler@, coro_ref)
                ==> false,
        ensures
            rt_inv(*final(s), *final(self)),
            final(self).cur_running is None,
            final(self).last_result is None,
            final(self).handler == old(self).handler,
            final(s).fiber_state(coro_ref) == outcome_state(r),
            !final(s).fiber_reaped(coro_ref),
            !final(s).queue_view().contains(coro_ref),
            r != Result::<State, SchedError>::Ok(State::Running),
            match old(self).last_result {
                Some(out) => r == out && *final(s) == *old(s),
                None => r == Result::<State, SchedError>::Ok(State::Suspended) && final(s).fibers@
                    == old(s).fibers@.update(
                    coro_ref.coro_ptr as int,
                    FiberRecord {
                        state: State::Suspended,
                        reaped: false,
                        stack_size: old(s).fibers@[coro_ref.coro_ptr as int].stack_size,
                    },
                ),
            },
            final(s).names == old(s).names,
            final(s).global_queue == old(s).global_queue,
            final(s).work_counts == old(s).work_counts,
    {
        let out = self.last_result;
        match out {
            Some(r) => {
                self.last_result = None;
                r
            },
            None => {
                // The fiber switched back without reporting: a voluntary
                // cooperative yield.
                self.yield_with(s, Ok(State::Suspended));
                self.last_result = None;
                Ok(State::Suspended)
            },
        }
    }

    /// Register the currently running fiber to be woken when `fd` shows the
    /// given readiness. Returns the registration's token; fails only when
    /// the slab is out of tokens. The embedding then tells the polling
    /// facility to watch `fd` (edge-triggered, one-shot) under that token,
    /// and the fiber parks via `block`; on a registration error it takes the
    /// entry back out via `cancel_wait` and surfaces the error instead.
    pub fn wait_event(&mut self, s: &Scheduler, fd: i32, interest: IoInterest) -> (r: Result<
        usize,
        SchedError,
    >)
        requires
            rt_inv(*s, *old(self)),
            old(self).cur_running is Some,
            !slab_contains(old(self).handler@, old(self).cur_running->Some_0),
        ensures
            rt_inv(*s, *final(self)),
            final(self).cur_running == old(self).cur_running,
            final(self).last_result == old(self).last_result,
            match r {
                Ok(tok) => {
                    &&& tok < final(self).handler@.len()
                    &&& final(self).handler@[tok as int] == Some(
                        ParkedEntry { coro: old(self).cur_running->Some_0, fd, interest },
                    )
                    &&& count_parked(final(self).handler@) == count_parked(old(self).handler@) + 1
                    &&& forall|t: int|
                        0 <= t < old(self).handler@.len() && t != tok ==> final(self).handler@[t]
                            == old(self).handler@[t]
                    &&& final(self).handler@.len() >= old(self).handler@.len()
                    &&& slab_contains(final(self).handler@, old(self).cur_running->Some_0)
                },
                Err(e) => {
                    &&& e == SchedError::TokenExhausted
                    &&& *final(self) == *old(self)
                    &&& count_parked(old(self).handler@) == crate::io_handler::MAX_TOKEN_NUM
                },
            },
    {
        let coro = match self.cur_running {
            Some(c) => c,
            None => {
                return Err(SchedError::TokenExhausted);
            },
        };
        let entry = ParkedEntry { coro, fd, interest };
        match self.handler.insert(entry) {
            Ok(tok) => {
                proof {
                    assert(self.handler@[tok as int] matches Some(e) && e.coro == coro);
                    assert forall|t: int|
                        0 <= t < self.handler@.len() && #[trigger] self.handler@[t] is Some
                            implies {
                        let e = self.handler@[t]->Some_0;
                        &&& s.valid(e.coro)
                        &&& !s.fiber_reaped(e.coro)
                        &&& !s.queue_view().contains(e.coro)
                        &&& (s.fiber_state(e.coro) == State::Blocked || self.cur_running == Some(
                            e.coro,
                        ))
                    } by {
                        if t != tok as int {
                            assert(self.handler@[t] == old(self).handler@[t]);
                        }
                    }
                    assert forall|t1: int, t2: int|
                        0 <= t1 < self.handler@.len() && 0 <= t2 < self.handler@.len() && t1 != t2
                            && #[trigger] self.handler@[t1] is Some && #[trigger] self.handler@[t2]
                            is Some implies self.handler@[t1]->Some_0.coro
                        != self.handler@[t2]->Some_0.coro by {
                        if t1 == tok as int {
                            assert(old(self).handler@[t2] is Some);
                            assert(!(old(self).handler@[t2] matches Some(e) && e.coro == coro));
                        } else if t2 == tok as int {
                            assert(old(self).handler@[t1] is Some);
                            assert(!(old(self).handler@[t1] matches Some(e) && e.coro == coro));
                        } else {
                            assert(self.handler@[t1] == old(self).handler@[t1]);
                            assert(self.handler@[t2] == old(self).handler@[t2]);
                        }
                    }
                }
                Ok(tok)
            },
            Err(_) => Err(SchedError::TokenExhausted),
        }
    }

    /// Take a registration back out before it was ever polled (the polling
    /// facility refused it). The entry's fiber is woken by nobody.
    pub fn cancel_wait(&mut self, s: &Scheduler, token: usize) -> (r: Option<ParkedEntry>)
        requires
            rt_inv(*s, *old(self)),
        ensures
            rt_inv(*s, *final(self)),
            final(self).cur_running == old(self).cur_running,
            final(self).last_result == old(self).last_result,
            token < old(self).handler@.len() && old(self).handler@[token as int] is Some ==> {
                &&& r == old(self).handler@[token as int]
                &&& final(self).handler@ == old(self).handler@.update(token as int, None)
                &&& count_parked(final(self).handler@) + 1 == count_parked(old(self).handler@)
            },
            !(token < old(self).handler@.len() && old(self).handler@[token as int] is Some)
                ==> r is None && *final(self) == *old(self),
    {
        self.handler.remove(token)
    }

    /// The polling facility reported readiness for `token`: take the
    /// registration out, mark its fiber suspended, and put the fiber at the
    /// tail of the run queue. Returns the registered descriptor so the
    /// embedding can tell the poller to forget it (without closing it); a
    /// token with no pending registration wakes nothing and returns `None`,
    /// which is what makes each registration worth at most one wakeup.
    pub fn io_ready(&mut self, s: &mut Scheduler, token: usize) -> (r: Option<i32>)
        requires
            rt_inv(*old(s), *old(self)),
            old(self).cur_running is None,
            token < old(self).handler@.len() && old(self).handler@[token as int] is Some
                ==> old(s).queue_view().len() < old(s).global_queue.capacity(),
        ensures
            rt_inv(*final(s), *final(self)),
            final(self).cur_running is None,
            final(self).last_result == old(self).last_result,
            token < old(self).handler@.len() && old(self).handler@[token as int] is Some ==> {
                let e = old(self).handler@[token as int]->Some_0;
                &&& crate::coroutine::can_transition(old(s).fiber_state(e.coro), State::Suspended)
                &&& r == Some(e.fd)
                &&& final(self).handler@ == old(self).handler@.update(token as int, None)
                &&& count_parked(final(self).handler@) + 1 == count_parked(old(self).handler@)
                &&& final(s).fibers@ == old(s).fibers@.update(
                    e.coro.coro_ptr as int,
                    FiberRecord {
                        state: State::Suspended,
                        reaped: false,
                        stack_size: old(s).fibers@[e.coro.coro_ptr as int].stack_size,
                    },
                )
                &&& final(s).queue_view() == old(s).queue_view().push(e.coro)
                &&& final(s).names == old(s).names
                &&& final(s).work_counts == old(s).work_counts
            },
            !(token < old(self).handler@.len() && old(self).handler@[token as int] is Some) ==> r
                is None && *final(self) == *old(self) && *final(s) == *old(s),
    {
        match self.handler.remove(token) {
            None => None,
            Some(e) => {
                let idx = e.coro.coro_ptr;
                let rec = s.fibers[idx];
                let updated = FiberRecord {
                    state: State::Suspended,
                    reaped: false,
                    stack_size: rec.stack_size,
                };
                s.fibers[idx] = updated;
                proof {
                    crate::coroutine::lemma_count_unreaped_update(old(s).fibers@, idx as int, updated);
                    assert forall|i: int| 0 <= i < s.queue_view().len() implies {
                        &&& (#[trigger] s.queue_view()[i]).coro_ptr < s.fibers@.len()
                        &&& s.fiber_state(s.queue_view()[i]) == State::Suspended
                        &&& !s.fiber_reaped(s.queue_view()[i])
                    } by {
                        assert(old(s).queue_view()[i] != e.coro);
                    }
                }
                s.ready(e.coro);
                proof {
                    assert forall|t: int|
                        0 <= t < self.handler@.len() && #[trigger] self.handler@[t] is Some
                            implies {
                        let e2 = self.handler@[t]->Some_0;
                        &&& s.valid(e2.coro)
                        &&& !s.fiber_reaped(e2.coro)
                        &&& !s.queue_view().contains(e2.coro)
                        &&& (s.fiber_state(e2.coro) == State::Blocked || self.cur_running == Some(
                            e2.coro,
                        ))
                    } by {
                        assert(self.handler@[t] == old(self).handler@[t]);
                        let e2 = self.handler@[t]->Some_0;
                        assert(e2.coro != e.coro);
                        assert forall|k: int|
                            0 <= k < s.queue_view().len() implies s.queue_view()[k] != e2.coro by {
                            if k < old(s).queue_view().len() {
                                assert(old(s).queue_view()[k] != e2.coro);
                            }
                        }
                        if s.queue_view().contains(e2.coro) {
                            let k = choose|k: int|
                                0 <= k < s.queue_view().len() && s.queue_view()[k] == e2.coro;
                            assert(false);
                        }
                    }
                }
                Some(e.fd)
            },
        }
    }

    /// One decision of the worker loop: resume the fiber at the front of the
    /// run queue if there is one; otherwise poll for readiness if any fiber
    /// is parked here; otherwise exit if no fiber is outstanding anywhere;
    /// otherwise idle briefly and decide again.
    pub fn schedule_decide(&mut self, s: &mut Scheduler) -> (a: SchedAction)
        requires
            rt_inv(*old(s), *old(self)),
            old(self).cur_running is None,
        ensures
            rt_inv(*final(s), *final(self)),
            *final(self) == *old(self),
            final(s).fibers == old(s).fibers,
            final(s).names == old(s).names,
            final(s).work_counts == old(s).work_counts,
            final(s).global_queue.capacity() == old(s).global_queue.capacity(),
            match a {
                SchedAction::Resume(h) => {
                    &&& old(s).queue_view().len() > 0
                    &&& h == old(s).queue_view()[0]
                    &&& final(s).queue_view() == old(s).queue_view().drop_first()
                    &&& final(s).valid(h)
                    &&& final(s).fiber_state(h) == State::Suspended
                    &&& !final(s).fiber_reaped(h)
                    &&& !final(s).queue_view().contains(h)
                    &&& !slab_contains(final(self).handler@, h)
                },
                SchedAction::PollIo => {
                    &&& *final(s) == *old(s)
                    &&& old(s).queue_view().len() == 0
                    &&& count_parked(final(self).handler@) > 0
                },
                SchedAction::Exit => {
                    &&& *final(s) == *old(s)
                    &&& old(s).queue_view().len() == 0
                    &&& count_parked(final(self).handler@) == 0
                    &&& final(s).work_counts == 0
                },
                SchedAction::Idle => {
                    &&& *final(s) == *old(s)
                    &&& old(s).queue_view().len() == 0
                    &&& count_parked(final(self).handler@) == 0
                    &&& final(s).work_counts != 0
                },
            },
    {
        match s.dequeue() {
            Some(h) => {
                proof {
                    if slab_contains(self.handler@, h) {
                        let t = choose|t: int|
                            0 <= t < self.handler@.len() && (#[trigger] self.handler@[t]
                                matches Some(e) && e.coro == h);
                        assert(!old(s).queue_view().contains(h));
                        assert(old(s).queue_view()[0] == h);
                        assert(false);
                    }
                }
                SchedAction::Resume(h)
            },
            None => {
                if self.handler.has_parked() {
                    SchedAction::PollIo
                } else if s.work_count() == 0 {
                    SchedAction::Exit
                } else {
                    SchedAction::Idle
                }
            },
        }
    }

    /// Dispose of a fiber after it yielded back: re-enqueue it if it merely
    /// yielded, leave it to its readiness registration if it blocked, and
    /// reap it if it finished, panicked, or failed to resume.
    pub fn handle_resume_result(&self, s: &mut Scheduler, h: CoroutineRefMut, outcome: ResumeOutcome)
        requires
            rt_inv(*old(s), *self),
            self.cur_running is None,
            old(s).valid(h),
            !old(s).fiber_reaped(h),
            old(s).fiber_state(h) == outcome_state(outcome),
            outcome != Result::<State, SchedError>::Ok(State::Running),
            !old(s).queue_view().contains(h),
            outcome_state(outcome) != State::Blocked ==> !slab_contains(self.handler@, h),
            outcome_state(outcome) == State::Suspended ==> old(s).queue_view().len()
                < old(s).global_queue.capacity(),
        ensures
            rt_inv(*final(s), *self),
            final(s).global_queue.capacity() == old(s).global_queue.capacity(),
            final(s).names == old(s).names,
            outcome_state(outcome) == State::Suspended ==> {
                &&& final(s).fibers == old(s).fibers
                &&& final(s).work_counts == old(s).work_counts
                &&& final(s).queue_view() == old(s).queue_view().push(h)
            },
            outcome_state(outcome) == State::Blocked ==> *final(s) == *old(s),
            outcome_state(outcome).is_terminal() ==> {
                &&& final(s).fibers@ == old(s).fibers@.update(
                    h.coro_ptr as int,
                    FiberRecord {
                        state: outcome_state(outcome),
                        reaped: true,
                        stack_size: old(s).fibers@[h.coro_ptr as int].stack_size,
                    },
                )
                &&& final(s).work_counts + 1 == old(s).work_counts
                &&& final(s).queue_view() == old(s).queue_view()
            },
    {
        match outcome {
            Ok(State::Suspended) => {
                s.ready(h);
            },
            Ok(State::Blocked) => {},
            _ => {
                // Finished, panicked, or a failed resume (given up on and
                // treated as finished): reap the fiber.
                s.finished(h);
                proof {
                    assert forall|t: int|
                        0 <= t < self.handler@.len() && #[trigger] self.handler@[t] is Some
                            implies {
                        let e = self.handler@[t]->Some_0;
                        &&& s.valid(e.coro)
                        &&& !s.fiber_reaped(e.coro)
                        &&& !s.queue_view().contains(e.coro)
                        &&& (s.fiber_state(e.coro) == State::Blocked || self.cur_running == Some(
                            e.coro,
                        ))
                    } by {
                        let e = self.handler@[t]->Some_0;
                        if e.coro == h {
                            assert(slab_contains(self.handler@, h));
                            assert(false);
                        }
                    }
                }
            },
        }
    }
}

} // verus!
