//! Core of a user-space M:N scheduling runtime: many cooperative fibers
//! multiplexed over a small pool of worker threads.
//!
//! This crate verifies the scheduling core itself — the run queue and its
//! lifecycle accounting, the fiber state machine, the per-worker readiness
//! registry, and the decisions of the worker loop and of the blocking-style
//! I/O adapters. Stack switching, thread management and the readiness
//! syscalls themselves are performed by the embedding program, which drives
//! these verified transitions.

use vstd::prelude::*;

pub mod coroutine;
pub mod io_handler;
pub mod laws;
pub mod net;
pub mod options;
pub mod processor;
pub mod queue;
pub mod scheduler;

pub use options::Options;
pub use scheduler::Scheduler;

use crate::coroutine::CoroutineRefMut;
use crate::processor::{rt_inv, slab_contains, Processor};

verus! {

/// Capacity of the global run queue shared by all workers.
pub const GLOBAL_QUEUE_SIZE: usize = 0x1000;

/// Spawn a fiber with the default options. Returns the handle under which
/// the embedding attaches the fiber's stack and entry closure.
pub fn spawn(s: &mut Scheduler, p: &mut Processor) -> (h: CoroutineRefMut)
    requires
        rt_inv(*old(s), *old(p)),
        old(s).queue_view().len() < old(s).global_queue.capacity(),
        old(p).cur_running matches Some(g) ==> !slab_contains(old(p).handler@, g),
    ensures
        rt_inv(*final(s), *final(p)),
        h.coro_ptr == old(s).fibers@.len(),
        final(s).work_counts == old(s).work_counts + 1,
        final(s).queue_view() == old(s).queue_view().push(h),
        final(s).valid(h),
        final(s).fiber_state(h) == coroutine::State::Suspended,
        !final(s).fiber_reaped(h),
        final(p).handler == old(p).handler,
        old(p).cur_running is None ==> *final(p) == *old(p),
        old(p).cur_running is Some ==> final(p).cur_running is None,
{
    s.spawn(p)
}

/// Spawn a fiber with the given options.
pub fn spawn_opts(s: &mut Scheduler, p: &mut Processor, opts: Options) -> (h: CoroutineRefMut)
    requires
        rt_inv(*old(s), *old(p)),
        old(s).queue_view().len() < old(s).global_queue.capacity(),
        old(p).cur_running matches Some(g) ==> !slab_contains(old(p).handler@, g),
    ensures
        rt_inv(*final(s), *final(p)),
        h.coro_ptr == old(s).fibers@.len(),
        final(s).work_counts == old(s).work_counts + 1,
        final(s).queue_view() == old(s).queue_view().push(h),
        final(s).valid(h),
        final(s).fiber_state(h) == coroutine::State::Suspended,
        !final(s).fiber_reaped(h),
        final(p).handler == old(p).handler,
        old(p).cur_running is None ==> *final(p) == *old(p),
        old(p).cur_running is Some ==> final(p).cur_running is None,
        final(s).fibers@[h.coro_ptr as int].stack_size == opts.stack_size,
        final(s).names@ == old(s).names@.push(opts.name),
{
    s.spawn_opts(p, opts)
}

/// Give up the processor: the calling fiber goes back to `Suspended` and the
/// worker decides what runs next.
pub fn sched(s: &mut Scheduler, p: &mut Processor)
    requires
        rt_inv(*old(s), *old(p)),
        old(p).cur_running matches Some(h) ==> !slab_contains(old(p).handler@, h),
    ensures
        rt_inv(*final(s), *final(p)),
        old(p).cur_running is None ==> *final(s) == *old(s) && *final(p) == *old(p),
        old(p).cur_running matches Some(h) ==> final(p).cur_running is None && final(s).fiber_state(
            h,
        ) == coroutine::State::Suspended,
{
    p.sched(s);
}

/// A builder for spawning fibers with adjusted options.
pub struct Builder {
    pub opts: Options,
}

impl Builder {
    pub fn new() -> (r: Builder)
        ensures
            r.opts.stack_size == options::DEFAULT_STACK_SIZE,
            r.opts.name is None,
    {
        Builder { opts: Options::new() }
    }

    pub fn stack_size(self, stack_size: usize) -> (r: Builder)
        ensures
            r.opts.stack_size == stack_size,
            r.opts.name == self.opts.name,
    {
        Builder { opts: self.opts.stack_size(stack_size) }
    }

    pub fn name(self, name: Option<String>) -> (r: Builder)
        ensures
            r.opts.stack_size == self.opts.stack_size,
            r.opts.name == name,
    {
        Builder { opts: self.opts.name(name) }
    }

    /// Spawn a fiber with this builder's options.
    pub fn spawn(self, s: &mut Scheduler, p: &mut Processor) -> (h: CoroutineRefMut)
        requires
            rt_inv(*old(s), *old(p)),
            old(s).queue_view().len() < old(s).global_queue.capacity(),
            old(p).cur_running matches Some(g) ==> !slab_contains(old(p).handler@, g),
        ensures
            rt_inv(*final(s), *final(p)),
            h.coro_ptr == old(s).fibers@.len(),
            final(s).work_counts == old(s).work_counts + 1,
            final(s).queue_view() == old(s).queue_view().push(h),
            final(s).valid(h),
            final(s).fiber_state(h) == coroutine::State::Suspended,
            !final(s).fiber_reaped(h),
            final(p).handler == old(p).handler,
            old(p).cur_running is None ==> *final(p) == *old(p),
            old(p).cur_running is Some ==> final(p).cur_running is None,
            final(s).fibers@[h.coro_ptr as int].stack_size == self.opts.stack_size,
            final(s).names@ == old(s).names@.push(self.opts.name),
    {
        s.spawn_opts(p, self.opts)
    }
}

} // verus!
