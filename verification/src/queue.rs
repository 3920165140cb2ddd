use vstd::prelude::*;

use crate::invocation::{Invocation, InvocationModel};

verus! {

/// Ordered (FIFO) sequence of pending invocations for one function.
///
/// `push` appends at the tail, `pop` removes the oldest entry or reports
/// that none is pending; it never blocks. The queue is unbounded: no
/// backpressure is applied to submitters.
pub struct RequestQueue {
    items: Vec<Invocation>,
}

impl View for RequestQueue {
    type V = Seq<InvocationModel>;

    closed spec fn view(&self) -> Seq<InvocationModel> {
        self.items@.map_values(|inv: Invocation| inv@)
    }
}

/// What one `pop` leaves behind: the queue without its oldest entry, or
/// the queue unchanged when it was empty.
pub open spec fn popped(q: Seq<InvocationModel>) -> Seq<InvocationModel> {
    if q.len() == 0 {
        q
    } else {
        q.subrange(1, q.len() as int)
    }
}

impl RequestQueue {
    /// Creates an empty queue.
    pub fn new() -> (q: RequestQueue)
        ensures
            q@ == Seq::<InvocationModel>::empty(),
    {
        let q = RequestQueue { items: Vec::new() };
        proof {
            assert(q@ =~= Seq::<InvocationModel>::empty());
        }
        q
    }

    /// Appends `req` at the tail of the queue.
    pub fn push(&mut self, req: Invocation)
        ensures
            final(self)@ == old(self)@.push(req@),
    {
        self.items.push(req);
        proof {
            assert(self@ =~= old(self)@.push(req@));
        }
    }

    /// Removes and returns the oldest pending invocation, or `None` when
    /// the queue is empty. The queue is left without that entry.
    pub fn pop(&mut self) -> (r: Option<Invocation>)
        ensures
            final(self)@ == popped(old(self)@),
            match r {
                Some(inv) => old(self)@.len() > 0 && inv@ == old(self)@[0],
                None => old(self)@.len() == 0,
            },
    {
        if self.items.len() == 0 {
            None
        } else {
            let inv = self.items.remove(0);
            proof {
                assert(self@ =~= popped(old(self)@));
            }
            Some(inv)
        }
    }

    /// Number of pending invocations.
    pub fn len(&self) -> (n: usize)
        ensures
            n == self@.len(),
    {
        self.items.len()
    }
}

/// The invocations drained from a queue by repeated `pop` calls, in the
/// order the pops return them.
pub open spec fn drained(q: Seq<InvocationModel>) -> Seq<InvocationModel>
    decreases q.len(),
{
    if q.len() == 0 {
        Seq::empty()
    } else {
        seq![q[0]] + drained(popped(q))
    }
}

/// FIFO order: draining a queue by repeated pops returns exactly the
/// queued invocations, in the order they were pushed.
pub proof fn lemma_fifo_drain(q: Seq<InvocationModel>)
    ensures
        drained(q) == q,
    decreases q.len(),
{
    if q.len() == 0 {
        assert(drained(q) =~= q);
    } else {
        lemma_fifo_drain(popped(q));
        assert(drained(q) =~= q);
    }
}

} // verus!
