//! Unit tests of the individual pieces: options, the run queue, the token
//! slab, and the net-adapter decisions.

use simplesched::coroutine::CoroutineRefMut;
use simplesched::io_handler::{IoHandler, IoInterest, ParkedEntry, MAX_TOKEN_NUM};
use simplesched::net::{connect_check, io_step, IoAction, SysResult};
use simplesched::options::{Options, DEFAULT_STACK_SIZE};
use simplesched::queue::GlobalQueue;
use simplesched::{Builder, GLOBAL_QUEUE_SIZE};

#[test]
fn tuning_constants() {
    // The run queue holds at least 4096 handles and the slab at least
    // 65536 tokens.
    assert_eq!(GLOBAL_QUEUE_SIZE, 4096);
    assert!(MAX_TOKEN_NUM >= 65536);
    assert_eq!(DEFAULT_STACK_SIZE, 16384);
}

#[test]
fn options_defaults() {
    let opts = Options::new();
    assert_eq!(opts.stack_size, DEFAULT_STACK_SIZE);
    assert!(opts.name.is_none());
}

#[test]
fn options_builders_chain() {
    let opts = Options::new().stack_size(65536).name(Some(String::from("worker")));
    assert_eq!(opts.stack_size, 65536);
    assert_eq!(opts.name, Some(String::from("worker")));
    let opts2 = opts.name(None);
    assert_eq!(opts2.stack_size, 65536);
    assert!(opts2.name.is_none());
}

#[test]
fn builder_holds_options() {
    let b = Builder::new().stack_size(32768).name(Some(String::from("echo")));
    assert_eq!(b.opts.stack_size, 32768);
    assert_eq!(b.opts.name, Some(String::from("echo")));
}

#[test]
fn coroutine_ref_new() {
    let h = CoroutineRefMut::new(42);
    assert_eq!(h.coro_ptr, 42);
}

#[test]
fn queue_fifo_two_handles() {
    // Handles pushed in order by one producer come out in the same order.
    let mut q = GlobalQueue::with_capacity(16);
    let h1 = CoroutineRefMut::new(1);
    let h2 = CoroutineRefMut::new(2);
    assert!(q.push(h1).is_ok());
    assert!(q.push(h2).is_ok());
    assert_eq!(q.pop(), Some(h1));
    assert_eq!(q.pop(), Some(h2));
    assert_eq!(q.pop(), None);
}

#[test]
fn queue_fifo_behind_existing() {
    let mut q = GlobalQueue::with_capacity(16);
    let h0 = CoroutineRefMut::new(0);
    let h1 = CoroutineRefMut::new(1);
    let h2 = CoroutineRefMut::new(2);
    assert!(q.push(h0).is_ok());
    assert!(q.push(h1).is_ok());
    assert!(q.push(h2).is_ok());
    assert_eq!(q.pop(), Some(h0));
    assert_eq!(q.pop(), Some(h1));
    assert_eq!(q.pop(), Some(h2));
}

#[test]
fn queue_full_returns_handle_back() {
    let mut q = GlobalQueue::with_capacity(2);
    let h1 = CoroutineRefMut::new(1);
    let h2 = CoroutineRefMut::new(2);
    let h3 = CoroutineRefMut::new(3);
    assert!(q.push(h1).is_ok());
    assert!(q.push(h2).is_ok());
    assert_eq!(q.push(h3), Err(h3));
    assert_eq!(q.len(), 2);
    // After a pop there is room again: the retry succeeds.
    assert_eq!(q.pop(), Some(h1));
    assert!(q.push(h3).is_ok());
    assert_eq!(q.pop(), Some(h2));
    assert_eq!(q.pop(), Some(h3));
}

fn entry(id: usize, fd: i32) -> ParkedEntry {
    ParkedEntry { coro: CoroutineRefMut::new(id), fd, interest: IoInterest::Readable }
}

#[test]
fn slab_insert_remove_roundtrip() {
    let mut slab = IoHandler::new();
    let t1 = slab.insert(entry(1, 10)).unwrap();
    let t2 = slab.insert(entry(2, 20)).unwrap();
    assert_ne!(t1, t2);
    assert_eq!(slab.count(), 2);
    assert!(slab.has_parked());
    let e1 = slab.remove(t1).unwrap();
    assert_eq!(e1.coro.coro_ptr, 1);
    assert_eq!(e1.fd, 10);
    assert_eq!(slab.count(), 1);
    // A token is spent once: a second removal finds nothing.
    assert!(slab.remove(t1).is_none());
    assert_eq!(slab.count(), 1);
    let e2 = slab.remove(t2).unwrap();
    assert_eq!(e2.coro.coro_ptr, 2);
    assert!(!slab.has_parked());
}

#[test]
fn slab_reuses_freed_tokens() {
    let mut slab = IoHandler::new();
    let t1 = slab.insert(entry(1, 10)).unwrap();
    let _t2 = slab.insert(entry(2, 20)).unwrap();
    slab.remove(t1).unwrap();
    let t3 = slab.insert(entry(3, 30)).unwrap();
    assert_eq!(t3, t1);
    assert_eq!(slab.remove(t3).unwrap().coro.coro_ptr, 3);
}

#[test]
fn slab_exhausts_at_capacity() {
    let mut slab = IoHandler::new();
    for i in 0..MAX_TOKEN_NUM {
        assert!(slab.insert(entry(i, i as i32)).is_ok());
    }
    assert_eq!(slab.count(), MAX_TOKEN_NUM);
    assert!(slab.insert(entry(MAX_TOKEN_NUM, -1)).is_err());
    // Freeing one slot makes insertion possible again.
    let e = slab.remove(7).unwrap();
    assert_eq!(e.coro.coro_ptr, 7);
    let t = slab.insert(entry(MAX_TOKEN_NUM, -1)).unwrap();
    assert_eq!(t, 7);
}

#[test]
fn io_step_would_block_parks() {
    assert_eq!(io_step(SysResult::WouldBlock, IoInterest::Readable), IoAction::Park(IoInterest::Readable));
    assert_eq!(io_step(SysResult::WouldBlock, IoInterest::Writable), IoAction::Park(IoInterest::Writable));
}

#[test]
fn io_step_completion_passes_through() {
    assert_eq!(io_step(SysResult::Done(5), IoInterest::Readable), IoAction::Complete(Ok(5)));
    assert_eq!(io_step(SysResult::Done(0), IoInterest::Readable), IoAction::Complete(Ok(0)));
    // A real OS error propagates unchanged (here ECONNRESET's number).
    assert_eq!(io_step(SysResult::Fail(104), IoInterest::Writable), IoAction::Complete(Err(104)));
}

#[test]
fn connect_check_reads_pending_error() {
    assert_eq!(connect_check(0), Ok(()));
    // ECONNREFUSED surfaces unchanged.
    assert_eq!(connect_check(111), Err(111));
}
