//! Scenario tests: a single worker drives whole fiber lifecycles through the
//! verified transitions, standing in for the embedding that would perform
//! the stack switches and the readiness polling between them.

use simplesched::coroutine::{CoroutineRefMut, SchedError, State};
use simplesched::io_handler::IoInterest;
use simplesched::processor::{Processor, SchedAction};
use simplesched::{spawn, spawn_opts, Builder, Options, Scheduler};

/// Resume the fiber at the front of the queue, run `body` as its turn, and
/// dispose of it as the worker loop would. Returns the handle resumed, or
/// `None` when the queue was empty.
fn run_one_turn(
    s: &mut Scheduler,
    p: &mut Processor,
    body: &mut dyn FnMut(&mut Scheduler, &mut Processor, CoroutineRefMut),
) -> Option<CoroutineRefMut> {
    match p.schedule_decide(s) {
        SchedAction::Resume(h) => {
            p.begin_resume(s, h);
            body(s, p, h);
            let out = p.end_resume(s, h);
            p.handle_resume_result(s, h, out);
            Some(h)
        },
        _ => None,
    }
}

#[test]
fn lifecycle_conservation() {
    // Spawning and finishing one fiber brings the outstanding count back to
    // its pre-spawn value.
    let mut s = Scheduler::new();
    let mut p = Processor::new();
    assert_eq!(s.work_count(), 0);
    let h = spawn(&mut s, &mut p);
    assert_eq!(s.work_count(), 1);
    assert_eq!(s.queue_len(), 1);
    assert_eq!(s.state_of(h), State::Suspended);
    let resumed = run_one_turn(&mut s, &mut p, &mut |s, p, h| {
        // While the fiber runs, it is the worker's current fiber and the
        // only running one.
        assert_eq!(p.running(), Some(h));
        assert_eq!(s.state_of(h), State::Running);
        p.yield_with(s, Ok(State::Finished));
        assert_eq!(p.running(), None);
    });
    assert_eq!(resumed, Some(h));
    assert_eq!(s.work_count(), 0);
    assert_eq!(s.state_of(h), State::Finished);
    assert!(s.is_reaped(h));
    assert!(matches!(p.schedule_decide(&mut s), SchedAction::Exit));
}

#[test]
fn spawn_opts_records_options() {
    let mut s = Scheduler::new();
    let mut p = Processor::new();
    let opts = Options::new().stack_size(65536).name(Some(String::from("echo")));
    let h = spawn_opts(&mut s, &mut p, opts);
    assert_eq!(s.name_of(h), &Some(String::from("echo")));
    let b = Builder::new().name(Some(String::from("listener")));
    let h2 = b.spawn(&mut s, &mut p);
    assert_eq!(s.name_of(h2), &Some(String::from("listener")));
    // A plain spawn leaves the fiber unnamed.
    let h3 = spawn(&mut s, &mut p);
    assert_eq!(s.name_of(h3), &None);
}

#[test]
fn spawn_inside_fiber_yields_and_sibling_starts_first() {
    // A fiber that spawns gives up its turn; the sibling, being ahead of the
    // re-enqueued parent in the queue, runs before the parent's next turn.
    let mut s = Scheduler::new();
    let mut p = Processor::new();
    let parent = spawn(&mut s, &mut p);
    let mut child: Option<CoroutineRefMut> = None;
    let resumed = run_one_turn(&mut s, &mut p, &mut |s, p, _h| {
        child = Some(spawn(s, p));
        // spawn already yielded on the fiber's behalf.
    });
    assert_eq!(resumed, Some(parent));
    let child = child.unwrap();
    assert_eq!(s.state_of(parent), State::Suspended);
    // The child was enqueued before the parent was re-enqueued.
    let next = run_one_turn(&mut s, &mut p, &mut |s, p, _h| {
        p.yield_with(s, Ok(State::Finished));
    });
    assert_eq!(next, Some(child));
    let after = run_one_turn(&mut s, &mut p, &mut |s, p, _h| {
        p.yield_with(s, Ok(State::Finished));
    });
    assert_eq!(after, Some(parent));
    assert_eq!(s.work_count(), 0);
}

#[test]
fn many_short_fibers_all_complete() {
    // Ten thousand fibers, each taking one turn: afterwards the counter has
    // seen every one and nothing is outstanding.
    let mut s = Scheduler::new();
    let mut p = Processor::new();
    let total: usize = 10_000;
    let mut spawned: usize = 0;
    let mut counter: usize = 0;
    loop {
        if spawned < total && !s.queue_is_full() {
            spawn(&mut s, &mut p);
            spawned += 1;
            continue;
        }
        let ran = run_one_turn(&mut s, &mut p, &mut |s, p, _h| {
            p.yield_with(s, Ok(State::Finished));
        });
        match ran {
            Some(_) => counter += 1,
            None => break,
        }
    }
    assert_eq!(spawned, total);
    assert_eq!(counter, total);
    assert_eq!(s.work_count(), 0);
    assert!(matches!(p.schedule_decide(&mut s), SchedAction::Exit));
}

#[test]
fn panic_isolation() {
    // A fiber that panics at once is reaped as panicked; a sibling that
    // yields a hundred times still runs to completion.
    let mut s = Scheduler::new();
    let mut p = Processor::new();
    let fiber_p = spawn(&mut s, &mut p);
    let fiber_q = spawn(&mut s, &mut p);
    let mut counter: usize = 0;
    loop {
        let ran = run_one_turn(&mut s, &mut p, &mut |s, p, h| {
            if h == fiber_p {
                p.yield_with(s, Ok(State::Panicked));
            } else {
                counter += 1;
                if counter < 100 {
                    p.sched(s);
                } else {
                    p.yield_with(s, Ok(State::Finished));
                }
            }
        });
        if ran.is_none() {
            break;
        }
    }
    assert_eq!(counter, 100);
    assert_eq!(s.state_of(fiber_p), State::Panicked);
    assert!(s.is_reaped(fiber_p));
    assert_eq!(s.state_of(fiber_q), State::Finished);
    assert!(s.is_reaped(fiber_q));
    assert_eq!(s.work_count(), 0);
}

#[test]
fn resume_failure_reaps_fiber() {
    // A failed stack switch is reported as an error outcome; the worker
    // gives the fiber up and the count still returns to zero.
    let mut s = Scheduler::new();
    let mut p = Processor::new();
    let h = spawn(&mut s, &mut p);
    run_one_turn(&mut s, &mut p, &mut |s, p, _h| {
        p.yield_with(s, Err(SchedError::ResumeFailed));
    });
    assert_eq!(s.state_of(h), State::Finished);
    assert!(s.is_reaped(h));
    assert_eq!(s.work_count(), 0);
}

#[test]
fn backpressure_small_queue() {
    // With a tiny queue, a producer fiber spawns a hundred no-op fibers,
    // pausing whenever the queue lacks room for the child and for its own
    // re-enqueue; everything completes and nothing deadlocks.
    let mut s = Scheduler::with_queue_capacity(8);
    let mut p = Processor::new();
    let producer = spawn(&mut s, &mut p);
    let total: usize = 100;
    let mut produced: usize = 0;
    let mut completed: usize = 0;
    loop {
        let ran = run_one_turn(&mut s, &mut p, &mut |s, p, h| {
            if h == producer {
                if produced < total && s.queue_len() + 2 <= 8 {
                    spawn(s, p);
                    produced += 1;
                    // spawn yielded the producer's turn already.
                } else if produced < total {
                    p.sched(s);
                } else {
                    p.yield_with(s, Ok(State::Finished));
                }
            } else {
                p.yield_with(s, Ok(State::Finished));
            }
        });
        match ran {
            Some(h) => {
                if h != producer && s.is_reaped(h) {
                    completed += 1;
                }
            },
            None => break,
        }
    }
    assert_eq!(produced, total);
    assert_eq!(completed, total);
    assert_eq!(s.work_count(), 0);
}

#[test]
fn try_ready_reports_full_queue() {
    let mut s = Scheduler::with_queue_capacity(1);
    let mut p = Processor::new();
    let h1 = spawn(&mut s, &mut p);
    assert_eq!(s.dequeue(), Some(h1));
    let h2 = spawn(&mut s, &mut p);
    // The queue (capacity 1) now holds h2: h1 cannot be enqueued yet.
    assert!(s.queue_is_full());
    assert!(!s.try_ready(h1));
    assert_eq!(s.queue_len(), 1);
    // Once a worker drains the queue, the retry succeeds.
    assert_eq!(s.dequeue(), Some(h2));
    assert!(s.try_ready(h1));
    assert_eq!(s.dequeue(), Some(h1));
    assert_eq!(s.work_count(), 2);
}

#[test]
fn park_and_wake_once() {
    // A fiber parks on a descriptor; the readiness event re-enqueues it
    // exactly once, hands back the registered descriptor for deregistration,
    // and a second event on the same token wakes nobody.
    let mut s = Scheduler::new();
    let mut p = Processor::new();
    let h = spawn(&mut s, &mut p);
    let mut token: Option<usize> = None;
    run_one_turn(&mut s, &mut p, &mut |s, p, _h| {
        token = Some(p.wait_event(s, 7, IoInterest::Readable).unwrap());
        p.block(s);
    });
    let token = token.unwrap();
    assert_eq!(s.state_of(h), State::Blocked);
    assert_eq!(s.queue_len(), 0);
    assert_eq!(s.work_count(), 1);
    // Nothing runnable, one fiber parked: the worker polls.
    assert!(matches!(p.schedule_decide(&mut s), SchedAction::PollIo));
    // The poll reports readiness for the token.
    let fd = p.io_ready(&mut s, token);
    assert_eq!(fd, Some(7));
    assert_eq!(s.state_of(h), State::Suspended);
    assert_eq!(s.queue_len(), 1);
    // One registration, one wakeup: the token is spent.
    assert_eq!(p.io_ready(&mut s, token), None);
    assert_eq!(s.queue_len(), 1);
    // The woken fiber resumes and finishes.
    let ran = run_one_turn(&mut s, &mut p, &mut |s, p, _h| {
        p.yield_with(s, Ok(State::Finished));
    });
    assert_eq!(ran, Some(h));
    assert_eq!(s.work_count(), 0);
}

#[test]
fn cancelled_registration_wakes_nobody() {
    // The polling facility refused the registration: the adapter cancels it
    // and the fiber never parks on it.
    let mut s = Scheduler::new();
    let mut p = Processor::new();
    let _h = spawn(&mut s, &mut p);
    run_one_turn(&mut s, &mut p, &mut |s, p, _h| {
        let tok = p.wait_event(s, 9, IoInterest::Writable).unwrap();
        let e = p.cancel_wait(s, tok).unwrap();
        assert_eq!(e.fd, 9);
        p.yield_with(s, Ok(State::Finished));
    });
    assert_eq!(s.work_count(), 0);
    assert!(matches!(p.schedule_decide(&mut s), SchedAction::Exit));
}

#[test]
fn wakeups_enqueue_in_event_order() {
    // Two parked fibers woken in event order come off the queue in that
    // same order.
    let mut s = Scheduler::new();
    let mut p = Processor::new();
    let a = spawn(&mut s, &mut p);
    let b = spawn(&mut s, &mut p);
    let mut tok_a: Option<usize> = None;
    let mut tok_b: Option<usize> = None;
    run_one_turn(&mut s, &mut p, &mut |s, p, _h| {
        tok_a = Some(p.wait_event(s, 3, IoInterest::Readable).unwrap());
        p.block(s);
    });
    run_one_turn(&mut s, &mut p, &mut |s, p, _h| {
        tok_b = Some(p.wait_event(s, 4, IoInterest::Writable).unwrap());
        p.block(s);
    });
    assert!(matches!(p.schedule_decide(&mut s), SchedAction::PollIo));
    assert_eq!(p.io_ready(&mut s, tok_b.unwrap()), Some(4));
    assert_eq!(p.io_ready(&mut s, tok_a.unwrap()), Some(3));
    // b's event arrived first, so b runs first.
    let first = run_one_turn(&mut s, &mut p, &mut |s, p, _h| {
        p.yield_with(s, Ok(State::Finished));
    });
    assert_eq!(first, Some(b));
    let second = run_one_turn(&mut s, &mut p, &mut |s, p, _h| {
        p.yield_with(s, Ok(State::Finished));
    });
    assert_eq!(second, Some(a));
    assert_eq!(s.work_count(), 0);
}

#[test]
fn yielding_spinner_does_not_starve_parked_fiber() {
    // One fiber spins on voluntary yields while another waits for
    // readiness; once the event arrives, the waiter gets a turn on the very
    // next pass over the queue, the spinner having gone to the tail.
    let mut s = Scheduler::new();
    let mut p = Processor::new();
    let spinner = spawn(&mut s, &mut p);
    let waiter = spawn(&mut s, &mut p);
    let mut token: Option<usize> = None;
    let mut waiter_done = false;
    let mut spins: usize = 0;
    let mut turns: usize = 0;
    loop {
        turns += 1;
        assert!(turns < 1000, "starved");
        if turns == 50 {
            // The socket became readable: the event wakes the waiter.
            let fd = p.io_ready(&mut s, token.unwrap());
            assert_eq!(fd, Some(11));
        }
        let ran = run_one_turn(&mut s, &mut p, &mut |s, p, h| {
            if h == spinner {
                spins += 1;
                if waiter_done {
                    p.yield_with(s, Ok(State::Finished));
                } else {
                    p.sched(s);
                }
            } else if token.is_none() {
                token = Some(p.wait_event(s, 11, IoInterest::Readable).unwrap());
                p.block(s);
            } else {
                waiter_done = true;
                p.yield_with(s, Ok(State::Finished));
            }
        });
        if ran.is_none() {
            break;
        }
    }
    assert!(waiter_done);
    assert!(spins > 0);
    assert_eq!(s.state_of(waiter), State::Finished);
    assert_eq!(s.work_count(), 0);
}

#[test]
fn woken_fiber_migrates_to_another_worker() {
    // A fiber parked in one worker's reactor is re-enqueued on the shared
    // queue by that worker's wakeup, and any worker may resume it — the one
    // deliberate cross-worker migration.
    let mut s = Scheduler::new();
    let mut worker_a = Processor::new();
    let mut worker_b = Processor::new();
    let h = spawn(&mut s, &mut worker_a);
    // Worker A resumes the fiber, which parks on a socket.
    let mut token: Option<usize> = None;
    match worker_a.schedule_decide(&mut s) {
        SchedAction::Resume(got) => {
            assert_eq!(got, h);
            worker_a.begin_resume(&mut s, got);
            token = Some(worker_a.wait_event(&s, 6, IoInterest::Readable).unwrap());
            worker_a.block(&mut s);
            let out = worker_a.end_resume(&mut s, got);
            worker_a.handle_resume_result(&mut s, got, out);
        },
        _ => panic!("the spawned fiber was not runnable"),
    }
    // Worker A's poll reports readiness; the handle goes to the shared queue.
    assert_eq!(worker_a.io_ready(&mut s, token.unwrap()), Some(6));
    // Worker B picks it up and finishes it.
    match worker_b.schedule_decide(&mut s) {
        SchedAction::Resume(got) => {
            assert_eq!(got, h);
            worker_b.begin_resume(&mut s, got);
            worker_b.yield_with(&mut s, Ok(State::Finished));
            let out = worker_b.end_resume(&mut s, got);
            worker_b.handle_resume_result(&mut s, got, out);
        },
        _ => panic!("the woken fiber was not runnable"),
    }
    assert_eq!(s.work_count(), 0);
    assert!(matches!(worker_b.schedule_decide(&mut s), SchedAction::Exit));
}

#[test]
fn idle_when_work_outstanding_elsewhere() {
    // A worker with an empty queue and no parked fibers must not exit while
    // fibers are outstanding (they may be running on other workers): it
    // idles and looks again.
    let mut s = Scheduler::new();
    let mut p = Processor::new();
    let h = spawn(&mut s, &mut p);
    // Another worker took the fiber off the queue.
    let taken = s.dequeue();
    assert_eq!(taken, Some(h));
    assert!(matches!(p.schedule_decide(&mut s), SchedAction::Idle));
    // That worker finished the fiber; now this one may exit.
    let mut other = Processor::new();
    other.begin_resume(&mut s, h);
    other.yield_with(&mut s, Ok(State::Finished));
    let out = other.end_resume(&mut s, h);
    other.handle_resume_result(&mut s, h, out);
    assert!(matches!(p.schedule_decide(&mut s), SchedAction::Exit));
}
