//! The global run queue: a bounded FIFO of handles to runnable fibers.
//!
//! `push` refuses a handle when the queue is at capacity and hands it back
//! to the caller, who retries; `pop` is non-blocking and takes from the
//! front, so handles leave in the order they entered.

use vstd::prelude::*;

use crate::coroutine::CoroutineRefMut;

verus! {

pub struct GlobalQueue {
    pub items: Vec<CoroutineRefMut>,
    pub cap: usize,
}

impl View for GlobalQueue {
    type V = Seq<CoroutineRefMut>;

    open spec fn view(&self) -> Seq<CoroutineRefMut> {
        self.items@
    }
}

impl GlobalQueue {
    pub open spec fn capacity(&self) -> usize {
        self.cap
    }

    /// The queue never holds more handles than its capacity.
    pub open spec fn wf(&self) -> bool {
        self@.len() <= self.cap
    }

    pub fn with_capacity(cap: usize) -> (q: GlobalQueue)
        ensures
            q@ == Seq::<CoroutineRefMut>::empty(),
            q.capacity() == cap,
            q.wf(),
    {
        GlobalQueue { items: Vec::new(), cap }
    }

    pub fn len(&self) -> (r: usize)
        ensures
            r == self@.len(),
    {
        self.items.len()
    }

    pub fn is_empty(&self) -> (r: bool)
        ensures
            r <==> self@.len() == 0,
    {
        self.items.len() == 0
    }

    pub fn is_full(&self) -> (r: bool)
        ensures
            r <==> self@.len() >= self.capacity(),
    {
        self.items.len() >= self.cap
    }

    /// Enqueue a handle at the tail. When the queue is at capacity the
    /// handle comes back unconsumed in `Err` and nothing changes.
    pub fn push(&mut self, h: CoroutineRefMut) -> (r: Result<(), CoroutineRefMut>)
        requires
            old(self).wf(),
        ensures
            final(self).wf(),
            final(self).capacity() == old(self).capacity(),
            old(self)@.len() < old(self).capacity() ==> r == Result::<(), CoroutineRefMut>::Ok(())
                && final(self)@ == old(self)@.push(h),
            old(self)@.len() >= old(self).capacity() ==> r == Result::<(), CoroutineRefMut>::Err(h)
                && final(self)@ == old(self)@,
    {
        if self.items.len() >= self.cap {
            Err(h)
        } else {
            self.items.push(h);
            Ok(())
        }
    }

    /// Dequeue the handle at the front, if any.
    pub fn pop(&mut self) -> (r: Option<CoroutineRefMut>)
        requires
            old(self).wf(),
        ensures
            final(self).wf(),
            final(self).capacity() == old(self).capacity(),
            old(self)@.len() == 0 ==> r is None && *final(self) == *old(self),
            old(self)@.len() > 0 ==> r == Some(old(self)@[0]) && final(self)@ == old(self)@.drop_first(),
    {
        if self.items.len() == 0 {
            None
        } else {
            let h = self.items.remove(0);
            proof {
                assert(old(self)@.remove(0) =~= old(self)@.drop_first());
            }
            Some(h)
        }
    }
}

} // verus!
