//! The runtime's universal properties, stated and proved once over the
//! models that the operations' contracts speak of.

use vstd::prelude::*;

use crate::coroutine::{count_unreaped, lemma_count_unreaped_push, lemma_count_unreaped_update,
    CoroutineRefMut, FiberRecord, State};
use crate::io_handler::ParkedEntry;
use crate::processor::{rt_inv, Processor};
use crate::scheduler::Scheduler;

verus! {

/// Conservation: spawning a fiber adds one to the outstanding count, and
/// reaping that fiber — whether it finished or panicked — brings the count
/// back to exactly its pre-spawn value.
pub proof fn lemma_conservation(fibers: Seq<FiberRecord>, spawned: FiberRecord, done: FiberRecord)
    requires
        !spawned.reaped,
        done.reaped,
    ensures
        count_unreaped(fibers.push(spawned)) == count_unreaped(fibers) + 1,
        count_unreaped(fibers.push(spawned).update(fibers.len() as int, done)) == count_unreaped(
            fibers,
        ),
{
    lemma_count_unreaped_push(fibers, spawned);
    lemma_count_unreaped_update(fibers.push(spawned), fibers.len() as int, done);
}

/// No double resume: under the runtime invariant, at most one fiber is
/// running, and it is exactly the one the worker is inside `resume` for.
/// A worker can only enter `resume` (`begin_resume`) while it is inside it
/// for no fiber, so no fiber is ever resumed twice at once.
pub proof fn lemma_no_double_resume(s: Scheduler, p: Processor, i: int, j: int)
    requires
        rt_inv(s, p),
        0 <= i < s.fibers@.len(),
        0 <= j < s.fibers@.len(),
        s.fibers@[i].state == State::Running,
        s.fibers@[j].state == State::Running,
    ensures
        i == j,
        p.cur_running matches Some(h) && h.coro_ptr == i,
{
}

/// Park liveness, within the model: a readiness event for a pending
/// registration puts the registered fiber at the tail of the run queue, from
/// where, the queue being first-in first-out, it is dequeued after exactly
/// the handles already ahead of it.
pub proof fn lemma_wakeup_enqueued(q: Seq<CoroutineRefMut>, e: ParkedEntry)
    ensures
        q.push(e.coro)[q.len() as int] == e.coro,
        forall|k: int| 0 <= k < q.len() ==> q.push(e.coro)[k] == q[k],
        q.push(e.coro).skip(q.len() as int) =~= seq![e.coro],
{
}

/// Park liveness, applicability: between resumes, every pending registration
/// is for a live, blocked fiber that is nowhere else — precisely the state
/// `io_ready` requires to re-enqueue it. So a readiness event on a pending
/// token always finds a fiber to wake.
pub proof fn lemma_pending_registration_wakeable(s: Scheduler, p: Processor, t: int)
    requires
        rt_inv(s, p),
        p.cur_running is None,
        0 <= t < p.handler@.len(),
        p.handler@[t] is Some,
    ensures
        ({
            let e = p.handler@[t]->Some_0;
            &&& s.valid(e.coro)
            &&& s.fiber_state(e.coro) == State::Blocked
            &&& !s.fiber_reaped(e.coro)
            &&& !s.queue_view().contains(e.coro)
        }),
{
}

/// First-in first-out: two handles pushed in order, with nothing pushed
/// between them, sit at consecutive positions behind everything already
/// queued — so the pops, which always take position zero, return them in
/// push order.
pub proof fn lemma_queue_fifo(q: Seq<CoroutineRefMut>, h1: CoroutineRefMut, h2: CoroutineRefMut)
    ensures
        q.push(h1).push(h2)[q.len() as int] == h1,
        q.push(h1).push(h2)[q.len() as int + 1] == h2,
        forall|k: int| 0 <= k < q.len() ==> q.push(h1).push(h2)[k] == q[k],
        q.push(h1).push(h2).skip(q.len() as int) =~= seq![h1, h2],
{
}

/// Dequeuing takes handles in index order: after any number of pops the
/// queue is a suffix of what it was, so a handle is popped only after every
/// handle that was ahead of it.
pub proof fn lemma_pop_preserves_order(q: Seq<CoroutineRefMut>, n: int)
    requires
        0 <= n <= q.len(),
    ensures
        forall|k: int| 0 <= k < q.len() - n ==> q.skip(n)[k] == q[n + k],
        n < q.len() ==> q.skip(n)[0] == q[n],
{
}

/// Cooperative progress: a fiber that yields voluntarily is re-enqueued at
/// the tail, behind every fiber that was already runnable — so a fiber
/// looping on `yield_now` cannot keep other ready fibers from running.
pub proof fn lemma_yield_goes_to_tail(q: Seq<CoroutineRefMut>, h: CoroutineRefMut)
    ensures
        q.push(h).len() == q.len() + 1,
        q.push(h)[q.len() as int] == h,
        forall|k: int| 0 <= k < q.len() ==> q.push(h)[k] == q[k],
{
}

/// Edge-triggered one-shot discipline, within the model: removing a
/// registration leaves its token empty, so a second readiness event on the
/// same token finds no entry and wakes nobody. Each successful registration
/// wakes its fiber at most once; that it wakes it at least once is the
/// polling facility's obligation.
pub proof fn lemma_oneshot(slab: Seq<Option<ParkedEntry>>, t: int)
    requires
        0 <= t < slab.len(),
        slab[t] is Some,
    ensures
        slab.update(t, None)[t] is None,
        forall|u: int| 0 <= u < slab.len() && u != t ==> slab.update(t, None)[u] == slab[u],
{
}

} // verus!
