//! The process-wide scheduler: the fiber table, the shared run queue, and
//! the outstanding-fiber count.
//!
//! Every fiber ever spawned has a slot in the fiber table; its handle is the
//! slot's index. The outstanding count equals the number of fibers that have
//! not yet been reaped, and returns to its old value once a spawned fiber is
//! finished and reaped.

use vstd::prelude::*;

use crate::coroutine::{
    count_unreaped, lemma_count_unreaped_le_len, lemma_count_unreaped_push,
    lemma_count_unreaped_update, CoroutineRefMut, FiberRecord, State,
};
use crate::options::Options;
use crate::processor::{rt_inv, slab_contains, Processor};
use crate::queue::GlobalQueue;
use crate::GLOBAL_QUEUE_SIZE;

verus! {

pub struct Scheduler {
    /// One record per fiber ever spawned, indexed by handle.
    pub fibers: Vec<FiberRecord>,
    /// The optional name each fiber was spawned with.
    pub names: Vec<Option<String>>,
    /// Handles of runnable fibers, shared by all workers.
    pub global_queue: GlobalQueue,
    /// Number of spawned fibers not yet reaped.
    pub work_counts: usize,
}

impl Scheduler {
    /// `h` names a slot of the fiber table.
    pub open spec fn valid(self, h: CoroutineRefMut) -> bool {
        h.coro_ptr < self.fibers@.len()
    }

    pub open spec fn fiber_state(self, h: CoroutineRefMut) -> State {
        self.fibers@[h.coro_ptr as int].state
    }

    pub open spec fn fiber_reaped(self, h: CoroutineRefMut) -> bool {
        self.fibers@[h.coro_ptr as int].reaped
    }

    pub open spec fn queue_view(self) -> Seq<CoroutineRefMut> {
        self.global_queue@
    }

    /// Scheduler well-formedness: the count is exact, a reaped fiber is
    /// terminal, and the queue holds only distinct handles of live,
    /// suspended fibers.
    pub open spec fn wf(self) -> bool {
        &&& self.global_queue.wf()
        &&& self.names@.len() == self.fibers@.len()
        &&& self.work_counts == count_unreaped(self.fibers@)
        &&& forall|i: int|
            0 <= i < self.fibers@.len() && #[trigger] self.fibers@[i].reaped
                ==> self.fibers@[i].state.is_terminal()
        &&& forall|i: int|
            0 <= i < self.queue_view().len() ==> {
                &&& (#[trigger] self.queue_view()[i]).coro_ptr < self.fibers@.len()
                &&& self.fiber_state(self.queue_view()[i]) == State::Suspended
                &&& !self.fiber_reaped(self.queue_view()[i])
            }
        &&& forall|i: int, j: int|
            0 <= i < self.queue_view().len() && 0 <= j < self.queue_view().len() && i != j
                ==> #[trigger] self.queue_view()[i] != #[trigger] self.queue_view()[j]
    }

    /// A fresh scheduler with a run queue of the given capacity.
    pub fn with_queue_capacity(cap: usize) -> (s: Scheduler)
        ensures
            s.wf(),
            s.fibers@ == Seq::<FiberRecord>::empty(),
            s.queue_view() == Seq::<CoroutineRefMut>::empty(),
            s.global_queue.capacity() == cap,
            s.work_counts == 0,
    {
        Scheduler {
            fibers: Vec::new(),
            names: Vec::new(),
            global_queue: GlobalQueue::with_capacity(cap),
            work_counts: 0,
        }
    }

    /// A fresh scheduler with the default queue capacity.
    pub fn new() -> (s: Scheduler)
        ensures
            s.wf(),
            s.fibers@ == Seq::<FiberRecord>::empty(),
            s.queue_view() == Seq::<CoroutineRefMut>::empty(),
            s.global_queue.capacity() == GLOBAL_QUEUE_SIZE,
            s.work_counts == 0,
    {
        Scheduler::with_queue_capacity(GLOBAL_QUEUE_SIZE)
    }

    /// The outstanding-fiber count: spawned and not yet reaped.
    pub fn work_count(&self) -> (r: usize)
        ensures
            r == self.work_counts,
    {
        self.work_counts
    }

    pub fn queue_len(&self) -> (r: usize)
        ensures
            r == self.queue_view().len(),
    {
        self.global_queue.len()
    }

    pub fn queue_is_full(&self) -> (r: bool)
        ensures
            r <==> self.queue_view().len() >= self.global_queue.capacity(),
    {
        self.global_queue.is_full()
    }

    pub fn state_of(&self, h: CoroutineRefMut) -> (r: State)
        requires
            self.valid(h),
        ensures
            r == self.fiber_state(h),
    {
        self.fibers[h.coro_ptr].state
    }

    pub fn is_reaped(&self, h: CoroutineRefMut) -> (r: bool)
        requires
            self.valid(h),
        ensures
            r == self.fiber_reaped(h),
    {
        self.fibers[h.coro_ptr].reaped
    }

    pub fn name_of(&self, h: CoroutineRefMut) -> (r: &Option<String>)
        requires
            self.wf(),
            self.valid(h),
        ensures
            r == &self.names@[h.coro_ptr as int],
    {
        &self.names[h.coro_ptr]
    }

    /// Record a new fiber in the table: suspended, unreaped, with the given
    /// options. The outstanding count grows by one. The caller still has to
    /// enqueue the returned handle.
    fn allocate(&mut self, opts: Options) -> (h: CoroutineRefMut)
        requires
            old(self).wf(),
        ensures
            final(self).wf(),
            h.coro_ptr == old(self).fibers@.len(),
            final(self).fibers@ == old(self).fibers@.push(
                FiberRecord { state: State::Suspended, reaped: false, stack_size: opts.stack_size },
            ),
            final(self).names@ == old(self).names@.push(opts.name),
            final(self).global_queue == old(self).global_queue,
            final(self).work_counts == old(self).work_counts + 1,
    {
        proof {
            lemma_count_unreaped_le_len(self.fibers@);
        }
        let h = CoroutineRefMut::new(self.fibers.len());
        let rec = FiberRecord { state: State::Suspended, reaped: false, stack_size: opts.stack_size };
        self.fibers.push(rec);
        self.names.push(opts.name);
        proof {
            lemma_count_unreaped_push(old(self).fibers@, rec);
        }
        let n = self.fibers.len();
        assert(self.work_counts < n);
        self.work_counts = self.work_counts + 1;
        h
    }

    /// Enqueue a runnable fiber. The run queue is sized to hold every
    /// reachable handle, so the caller guarantees room; `try_ready` is the
    /// variant that reports a full queue instead.
    pub fn ready(&mut self, coro: CoroutineRefMut)
        requires
            old(self).wf(),
            old(self).valid(coro),
            old(self).fiber_state(coro) == State::Suspended,
            !old(self).fiber_reaped(coro),
            !old(self).queue_view().contains(coro),
            old(self).queue_view().len() < old(self).global_queue.capacity(),
        ensures
            final(self).wf(),
            final(self).queue_view() == old(self).queue_view().push(coro),
            final(self).fibers == old(self).fibers,
            final(self).names == old(self).names,
            final(self).work_counts == old(self).work_counts,
            final(self).global_queue.capacity() == old(self).global_queue.capacity(),
    {
        let _r = self.global_queue.push(coro);
    }

    /// Enqueue a runnable fiber unless the queue is at capacity; reports
    /// whether the handle was taken. On `false` the caller retries after
    /// the queue has drained.
    pub fn try_ready(&mut self, coro: CoroutineRefMut) -> (r: bool)
        requires
            old(self).wf(),
            old(self).valid(coro),
            old(self).fiber_state(coro) == State::Suspended,
            !old(self).fiber_reaped(coro),
            !old(self).queue_view().contains(coro),
        ensures
            final(self).wf(),
            final(self).fibers == old(self).fibers,
            final(self).names == old(self).names,
            final(self).work_counts == old(self).work_counts,
            final(self).global_queue.capacity() == old(self).global_queue.capacity(),
            r ==> old(self).queue_view().len() < old(self).global_queue.capacity()
                && final(self).queue_view() == old(self).queue_view().push(coro),
            !r ==> old(self).queue_view().len() >= old(self).global_queue.capacity()
                && final(self).queue_view() == old(self).queue_view(),
    {
        match self.global_queue.push(coro) {
            Ok(_) => true,
            Err(_) => false,
        }
    }

    /// Take the handle at the front of the run queue, if any. A dequeued
    /// handle is no longer anywhere in the queue.
    pub fn dequeue(&mut self) -> (r: Option<CoroutineRefMut>)
        requires
            old(self).wf(),
        ensures
            final(self).wf(),
            final(self).fibers == old(self).fibers,
            final(self).names == old(self).names,
            final(self).work_counts == old(self).work_counts,
            final(self).global_queue.capacity() == old(self).global_queue.capacity(),
            old(self).queue_view().len() == 0 ==> r is None && *final(self) == *old(self),
            old(self).queue_view().len() > 0 ==> r == Some(old(self).queue_view()[0])
                && final(self).queue_view() == old(self).queue_view().drop_first(),
            r matches Some(h) ==> {
                &&& final(self).valid(h)
                &&& final(self).fiber_state(h) == State::Suspended
                &&& !final(self).fiber_reaped(h)
                &&& !final(self).queue_view().contains(h)
            },
    {
        let r = self.global_queue.pop();
        proof {
            if old(self).queue_view().len() > 0 {
                let h = old(self).queue_view()[0];
                assert forall|k: int| 0 <= k < self.queue_view().len() implies self.queue_view()[k]
                    != h by {
                    assert(self.queue_view()[k] == old(self).queue_view()[k + 1]);
                }
                if self.queue_view().contains(h) {
                    let k = choose|k: int|
                        0 <= k < self.queue_view().len() && self.queue_view()[k] == h;
                    assert(false);
                }
            }
        }
        r
    }

    /// Spawn a fiber: record it suspended with the given options, raise the
    /// outstanding count, enqueue its handle, and — when called from inside
    /// a fiber — yield, so the sibling gets a chance to start promptly.
    /// Returns the new fiber's handle so the embedding can attach the entry
    /// closure and stack to it.
    pub fn spawn_opts(&mut self, p: &mut Processor, opts: Options) -> (h: CoroutineRefMut)
        requires
            rt_inv(*old(self), *old(p)),
            old(self).queue_view().len() < old(self).global_queue.capacity(),
            old(p).cur_running matches Some(g) ==> !slab_contains(old(p).handler@, g),
        ensures
            rt_inv(*final(self), *final(p)),
            h.coro_ptr == old(self).fibers@.len(),
            final(self).names@ == old(self).names@.push(opts.name),
            final(self).work_counts == old(self).work_counts + 1,
            final(self).queue_view() == old(self).queue_view().push(h),
            final(self).global_queue.capacity() == old(self).global_queue.capacity(),
            final(self).valid(h),
            !final(self).fiber_reaped(h),
            final(self).fiber_state(h) == State::Suspended,
            final(self).fibers@[h.coro_ptr as int].stack_size == opts.stack_size,
            old(p).cur_running is None ==> *final(p) == *old(p) && final(self).fibers@
                == old(self).fibers@.push(
                FiberRecord { state: State::Suspended, reaped: false, stack_size: opts.stack_size },
            ),
            old(p).cur_running matches Some(g) ==> {
                &&& final(p).cur_running is None
                &&& final(p).last_result == Some(Result::<State, crate::coroutine::SchedError>::Ok(
                    State::Suspended,
                ))
                &&& final(p).handler == old(p).handler
                &&& final(self).fibers@ == old(self).fibers@.push(
                    FiberRecord {
                        state: State::Suspended,
                        reaped: false,
                        stack_size: opts.stack_size,
                    },
                ).update(
                    g.coro_ptr as int,
                    FiberRecord {
                        state: State::Suspended,
                        reaped: false,
                        stack_size: old(self).fibers@[g.coro_ptr as int].stack_size,
                    },
                )
            },
    {
        let h = self.allocate(opts);
        proof {
            assert forall|i: int| 0 <= i < self.queue_view().len() implies {
                &&& (#[trigger] self.queue_view()[i]).coro_ptr < self.fibers@.len()
                &&& self.fiber_state(self.queue_view()[i]) == State::Suspended
                &&& !self.fiber_reaped(self.queue_view()[i])
            } by {
                assert(old(self).queue_view()[i].coro_ptr < old(self).fibers@.len());
            }
            assert(!self.queue_view().contains(h)) by {
                if self.queue_view().contains(h) {
                    let k = choose|k: int|
                        0 <= k < self.queue_view().len() && self.queue_view()[k] == h;
                    assert(old(self).queue_view()[k].coro_ptr < old(self).fibers@.len());
                }
            }
        }
        self.ready(h);
        proof {
            assert(rt_inv(*self, *p)) by {
                assert forall|t: int|
                    0 <= t < p.handler@.len() && #[trigger] p.handler@[t] is Some implies {
                    let e = p.handler@[t]->Some_0;
                    &&& self.valid(e.coro)
                    &&& !self.fiber_reaped(e.coro)
                    &&& !self.queue_view().contains(e.coro)
                    &&& (self.fiber_state(e.coro) == State::Blocked || p.cur_running == Some(
                        e.coro,
                    ))
                } by {
                    let e = p.handler@[t]->Some_0;
                    assert(e.coro.coro_ptr < old(self).fibers@.len());
                    assert(e.coro != h);
                    assert forall|k: int|
                        0 <= k < self.queue_view().len() implies self.queue_view()[k] != e.coro by {
                        if k < old(self).queue_view().len() {
                            assert(old(self).queue_view()[k] != e.coro);
                        }
                    }
                    if self.queue_view().contains(e.coro) {
                        let k = choose|k: int|
                            0 <= k < self.queue_view().len() && self.queue_view()[k] == e.coro;
                        assert(false);
                    }
                }
                assert forall|i: int|
                    0 <= i < self.fibers@.len() && (#[trigger] self.fibers@[i]).state
                        == State::Running implies (p.cur_running matches Some(g) && g.coro_ptr
                    == i) by {
                    if i < old(self).fibers@.len() {
                        assert(old(self).fibers@[i].state == State::Running);
                    }
                }
                if p.cur_running is Some {
                    let g = p.cur_running->Some_0;
                    assert(!self.queue_view().contains(g)) by {
                        assert forall|k: int|
                            0 <= k < self.queue_view().len() implies self.queue_view()[k] != g by {
                            if k < old(self).queue_view().len() {
                                assert(old(self).queue_view()[k] != g);
                            } else {
                                assert(self.queue_view()[k] == h);
                                assert(g.coro_ptr < old(self).fibers@.len());
                            }
                        }
                        if self.queue_view().contains(g) {
                            let k = choose|k: int|
                                0 <= k < self.queue_view().len() && self.queue_view()[k] == g;
                            assert(false);
                        }
                    }
                }
            }
        }
        p.sched(self);
        h
    }

    /// Spawn a fiber with the default options.
    pub fn spawn(&mut self, p: &mut Processor) -> (h: CoroutineRefMut)
        requires
            rt_inv(*old(self), *old(p)),
            old(self).queue_view().len() < old(self).global_queue.capacity(),
            old(p).cur_running matches Some(g) ==> !slab_contains(old(p).handler@, g),
        ensures
            rt_inv(*final(self), *final(p)),
            h.coro_ptr == old(self).fibers@.len(),
            final(self).work_counts == old(self).work_counts + 1,
            final(self).queue_view() == old(self).queue_view().push(h),
            final(self).global_queue.capacity() == old(self).global_queue.capacity(),
            final(self).valid(h),
            !final(self).fiber_reaped(h),
            final(self).fiber_state(h) == State::Suspended,
            final(self).fibers@[h.coro_ptr as int].stack_size
                == crate::options::DEFAULT_STACK_SIZE,
            final(self).names@ == old(self).names@.push(Option::<String>::None),
            final(p).handler == old(p).handler,
            old(p).cur_running is None ==> *final(p) == *old(p),
            old(p).cur_running is Some ==> final(p).cur_running is None,
    {
        self.spawn_opts(p, Options::new())
    }

    /// A worker observed this fiber in a terminal state and has released its
    /// stack: mark it reaped and drop it from the outstanding count.
    pub fn finished(&mut self, coro: CoroutineRefMut)
        requires
            old(self).wf(),
            old(self).valid(coro),
            !old(self).fiber_reaped(coro),
            old(self).fiber_state(coro).is_terminal(),
        ensures
            final(self).wf(),
            final(self).fibers@ == old(self).fibers@.update(
                coro.coro_ptr as int,
                FiberRecord {
                    state: old(self).fiber_state(coro),
                    reaped: true,
                    stack_size: old(self).fibers@[coro.coro_ptr as int].stack_size,
                },
            ),
            final(self).names == old(self).names,
            final(self).global_queue == old(self).global_queue,
            final(self).work_counts + 1 == old(self).work_counts,
    {
        let idx = coro.coro_ptr;
        let rec = self.fibers[idx];
        let updated = FiberRecord { state: rec.state, reaped: true, stack_size: rec.stack_size };
        self.fibers[idx] = updated;
        proof {
            lemma_count_unreaped_update(old(self).fibers@, idx as int, updated);
            assert forall|i: int|
                0 <= i < self.queue_view().len() implies {
                &&& (#[trigger] self.queue_view()[i]).coro_ptr < self.fibers@.len()
                &&& self.fiber_state(self.queue_view()[i]) == State::Suspended
                &&& !self.fiber_reaped(self.queue_view()[i])
            } by {
                assert(old(self).fiber_state(old(self).queue_view()[i]) == State::Suspended);
            }
        }
        self.work_counts = self.work_counts - 1;
    }
}

} // verus!
