//! The per-worker readiness registry: a token slab mapping each pending
//! registration to the parked fiber it must wake, together with the
//! registered descriptor (kept so the poller can be told to forget the
//! descriptor on wakeup — the slab never owns or closes it).
//!
//! Registrations are edge-triggered and one-shot: an entry is inserted once,
//! removed exactly once (by a readiness event or by explicit cancellation),
//! and a fiber woken at most once per registration.

use vstd::prelude::*;

use crate::coroutine::CoroutineRefMut;

verus! {

/// Hard cap on simultaneously parked fibers per worker.
pub const MAX_TOKEN_NUM: usize = 102400;

/// Which readiness a parked fiber waits for.
#[derive(Clone, Copy, Debug, PartialEq, Eq, Structural)]
pub enum IoInterest {
    Readable,
    Writable,
    Both,
}

/// One pending registration: the fiber to wake, the descriptor it waits on
/// (a non-owning copy of the raw descriptor), and the requested interest.
#[derive(Clone, Copy, Debug, PartialEq, Eq, Structural)]
pub struct ParkedEntry {
    pub coro: CoroutineRefMut,
    pub fd: i32,
    pub interest: IoInterest,
}

/// How many slots of a slab are occupied.
pub open spec fn count_parked(s: Seq<Option<ParkedEntry>>) -> nat
    decreases s.len(),
{
    if s.len() == 0 {
        0
    } else {
        count_parked(s.drop_last()) + if s.last() is Some {
            1nat
        } else {
            0nat
        }
    }
}

pub proof fn lemma_count_parked_push(s: Seq<Option<ParkedEntry>>, e: Option<ParkedEntry>)
    ensures
        count_parked(s.push(e)) == count_parked(s) + if e is Some {
            1nat
        } else {
            0nat
        },
{
    assert(s.push(e).drop_last() =~= s);
}

pub proof fn lemma_count_parked_update(s: Seq<Option<ParkedEntry>>, i: int, e: Option<ParkedEntry>)
    requires
        0 <= i < s.len(),
    ensures
        count_parked(s.update(i, e)) + (if s[i] is Some {
            1nat
        } else {
            0nat
        }) == count_parked(s) + (if e is Some {
            1nat
        } else {
            0nat
        }),
    decreases s.len(),
{
    if i == s.len() - 1 {
        assert(s.update(i, e).drop_last() =~= s.drop_last());
    } else {
        assert(s.update(i, e).drop_last() =~= s.drop_last().update(i, e));
        lemma_count_parked_update(s.drop_last(), i, e);
    }
}

/// A slab with no free slot is exactly one whose occupancy equals its length.
pub proof fn lemma_count_parked_full(s: Seq<Option<ParkedEntry>>)
    requires
        forall|i: int| 0 <= i < s.len() ==> s[i] is Some,
    ensures
        count_parked(s) == s.len(),
    decreases s.len(),
{
    if s.len() > 0 {
        lemma_count_parked_full(s.drop_last());
    }
}

pub proof fn lemma_count_parked_le_len(s: Seq<Option<ParkedEntry>>)
    ensures
        count_parked(s) <= s.len(),
    decreases s.len(),
{
    if s.len() > 0 {
        lemma_count_parked_le_len(s.drop_last());
    }
}

/// The token slab. A token is an index into `slabs`; a `Some` slot is a
/// pending registration. `parked` caches the number of occupied slots, and
/// `free` lists every vacated slot so it can be handed out again.
pub struct IoHandler {
    pub slabs: Vec<Option<ParkedEntry>>,
    pub free: Vec<usize>,
    pub parked: usize,
}

impl View for IoHandler {
    type V = Seq<Option<ParkedEntry>>;

    open spec fn view(&self) -> Seq<Option<ParkedEntry>> {
        self.slabs@
    }
}

impl IoHandler {
    /// The free list holds exactly the vacant slots, each once.
    pub open spec fn wf(&self) -> bool {
        &&& self.parked == count_parked(self@)
        &&& self@.len() <= MAX_TOKEN_NUM
        &&& forall|k: int|
            0 <= k < self.free@.len() ==> (#[trigger] self.free@[k]) < self@.len()
                && self@[self.free@[k] as int] is None
        &&& forall|k1: int, k2: int|
            0 <= k1 < self.free@.len() && 0 <= k2 < self.free@.len() && k1 != k2
                ==> self.free@[k1] != self.free@[k2]
        &&& forall|i: int|
            0 <= i < self@.len() && self@[i] is None ==> self.free@.contains(i as usize)
    }

    pub fn new() -> (r: IoHandler)
        ensures
            r@ == Seq::<Option<ParkedEntry>>::empty(),
            r.wf(),
    {
        IoHandler { slabs: Vec::new(), free: Vec::new(), parked: 0 }
    }

    /// Number of pending registrations.
    pub fn count(&self) -> (r: usize)
        requires
            self.wf(),
        ensures
            r == count_parked(self@),
    {
        self.parked
    }

    pub fn has_parked(&self) -> (r: bool)
        requires
            self.wf(),
        ensures
            r <==> count_parked(self@) != 0,
    {
        self.parked != 0
    }

    /// Insert a registration into a free slot and return its token. Fails
    /// only when every one of the `MAX_TOKEN_NUM` slots is occupied.
    pub fn insert(&mut self, e: ParkedEntry) -> (r: Result<usize, ()>)
        requires
            old(self).wf(),
        ensures
            final(self).wf(),
            match r {
                Ok(tok) => {
                    &&& tok < final(self)@.len()
                    &&& final(self)@[tok as int] == Some(e)
                    &&& count_parked(final(self)@) == count_parked(old(self)@) + 1
                    &&& final(self)@.len() >= old(self)@.len()
                    &&& forall|i: int|
                        0 <= i < old(self)@.len() && i != tok ==> final(self)@[i] == old(self)@[i]
                    &&& (tok < old(self)@.len() ==> old(self)@[tok as int] is None
                        && final(self)@ == old(self)@.update(tok as int, Some(e)))
                    &&& (tok == old(self)@.len() ==> final(self)@ == old(self)@.push(Some(e)))
                    &&& tok <= old(self)@.len()
                },
                Err(_) => {
                    &&& *final(self) == *old(self)
                    &&& old(self)@.len() == MAX_TOKEN_NUM
                    &&& count_parked(old(self)@) == MAX_TOKEN_NUM
                },
            },
    {
        if self.free.len() > 0 {
            let tok = match self.free.pop() {
                Some(t) => t,
                None => {
                    proof {
                        assert(false);
                    }
                    0
                },
            };
            {
                proof {
                    assert(old(self).free@[old(self).free@.len() - 1] == tok);
                    assert(tok < old(self)@.len() && old(self)@[tok as int] is None);
                }
                self.slabs[tok] = Some(e);
                proof {
                    lemma_count_parked_update(old(self)@, tok as int, Some(e));
                    lemma_count_parked_le_len(old(self)@);
                    let oldfree = old(self).free@;
                    assert forall|i: int|
                        0 <= i < self@.len() && self@[i] is None implies self.free@.contains(
                        i as usize,
                    ) by {
                        assert(old(self)@[i] is None);
                        assert(oldfree.contains(i as usize));
                        let k = choose|k: int| 0 <= k < oldfree.len() && oldfree[k] == i as usize;
                        assert(k != oldfree.len() - 1);
                        assert(self.free@[k] == i as usize);
                    }
                }
                self.parked = self.parked + 1;
                Ok(tok)
            }
        } else {
            let n = self.slabs.len();
            if n < MAX_TOKEN_NUM {
                self.slabs.push(Some(e));
                proof {
                    lemma_count_parked_push(old(self)@, Some(e));
                    lemma_count_parked_le_len(old(self)@);
                    assert forall|i: int|
                        0 <= i < self@.len() && self@[i] is None implies self.free@.contains(
                        i as usize,
                    ) by {
                        assert(old(self)@[i] is None);
                        assert(old(self).free@.contains(i as usize));
                    }
                }
                self.parked = self.parked + 1;
                Ok(n)
            } else {
                proof {
                    assert forall|i: int| 0 <= i < self@.len() implies self@[i] is Some by {
                        if self@[i] is None {
                            assert(old(self).free@.contains(i as usize));
                        }
                    }
                    lemma_count_parked_full(self@);
                }
                Err(())
            }
        }
    }

    /// Take the registration for `token` out of the slab, if it is there.
    /// A token that was already removed yields `None`: this is what makes a
    /// registration one-shot.
    pub fn remove(&mut self, token: usize) -> (r: Option<ParkedEntry>)
        requires
            old(self).wf(),
        ensures
            final(self).wf(),
            final(self)@.len() == old(self)@.len(),
            token < old(self)@.len() && old(self)@[token as int] is Some ==> {
                &&& r == old(self)@[token as int]
                &&& final(self)@ == old(self)@.update(token as int, None)
                &&& count_parked(final(self)@) + 1 == count_parked(old(self)@)
            },
            !(token < old(self)@.len() && old(self)@[token as int] is Some) ==> r is None
                && *final(self) == *old(self),
    {
        if token < self.slabs.len() {
            if self.slabs[token].is_some() {
                let e = self.slabs[token];
                self.slabs[token] = None;
                proof {
                    lemma_count_parked_update(old(self)@, token as int, None);
                    assert forall|k: int|
                        0 <= k < self.free@.len() implies (#[trigger] self.free@[k]) != token by {
                        if self.free@[k] == token {
                            assert(old(self)@[token as int] is None);
                        }
                    }
                }
                self.free.push(token);
                self.parked = self.parked - 1;
                proof {
                    assert forall|i: int|
                        0 <= i < self@.len() && self@[i] is None implies self.free@.contains(
                        i as usize,
                    ) by {
                        if i != token as int {
                            assert(old(self)@[i] is None);
                            assert(old(self).free@.contains(i as usize));
                            let k = choose|k: int|
                                0 <= k < old(self).free@.len() && old(self).free@[k] == i as usize;
                            assert(self.free@[k] == i as usize);
                        } else {
                            assert(self.free@.last() == token);
                        }
                    }
                }
                return e;
            }
            None
        } else {
            None
        }
    }
}

} // verus!
