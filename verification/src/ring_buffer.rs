//! Fixed-capacity, insertion-ordered history buffer.  A push beyond capacity
//! discards the oldest entry; nothing is ever edited in place.

use vstd::prelude::*;
use std::collections::VecDeque;

verus! {

/// Effect of one push on the contents of a buffer with capacity `cap`.
/// At capacity zero nothing can be held, so the push is dropped.
pub open spec fn ring_push<T>(cap: int, s: Seq<T>, x: T) -> Seq<T> {
    if cap <= 0 {
        s
    } else if s.len() < cap {
        s.push(x)
    } else {
        s.drop_first().push(x)
    }
}

/// Contents after pushing every element of `xs`, in order, into an empty
/// buffer of capacity `cap`.
pub open spec fn ring_fold<T>(cap: int, xs: Seq<T>) -> Seq<T>
    decreases xs.len(),
{
    if xs.len() == 0 {
        Seq::empty()
    } else {
        ring_push(cap, ring_fold(cap, xs.drop_last()), xs.last())
    }
}

/// Law: pushing N values into an empty buffer of capacity C leaves exactly
/// the last min(N, C) of them, in push order.
pub proof fn lemma_ring_buffer_history<T>(cap: int, xs: Seq<T>)
    requires
        cap >= 0,
    ensures
        ring_fold(cap, xs).len() == if xs.len() <= cap {
            xs.len() as int
        } else {
            cap
        },
        ring_fold(cap, xs) =~= xs.subrange(xs.len() - ring_fold(cap, xs).len(), xs.len() as int),
    decreases xs.len(),
{
    if xs.len() > 0 {
        let pre = xs.drop_last();
        lemma_ring_buffer_history(cap, pre);
        let f = ring_fold(cap, pre);
        assert(xs.last() == xs[xs.len() - 1]);
        assert forall|i: int| 0 <= i < f.len() implies f[i] == pre[pre.len() - f.len() + i] by {}
        assert forall|i: int| 0 <= i < pre.len() implies pre[i] == xs[i] by {}
    }
}

#[derive(Clone)]
pub struct RingBuffer<T: Clone> {
    buffer: VecDeque<T>,
    capacity: usize,
}

impl<T: Clone> View for RingBuffer<T> {
    type V = Seq<T>;

    closed spec fn view(&self) -> Seq<T> {
        self.buffer@
    }
}

impl<T: Clone> RingBuffer<T> {
    /// The capacity the buffer was created with.
    pub closed spec fn spec_capacity(&self) -> int {
        self.capacity as int
    }

    pub fn new(capacity: usize) -> (r: Self)
        ensures
            r@ =~= Seq::<T>::empty(),
            r.spec_capacity() == capacity,
    {
        Self { buffer: VecDeque::with_capacity(capacity), capacity }
    }

    pub fn push(&mut self, item: T)
        ensures
            final(self)@ == ring_push(old(self).spec_capacity(), old(self)@, item),
            final(self).spec_capacity() == old(self).spec_capacity(),
    {
        if self.capacity == 0 {
            return ;
        }
        if self.buffer.len() >= self.capacity {
            self.buffer.pop_front();
        }
        self.buffer.push_back(item);
    }

    /// The stored values, oldest first.
    pub fn iter(&self) -> (r: Vec<&T>)
        ensures
            r@.len() == self@.len(),
            forall|i: int| 0 <= i < r@.len() ==> *r@[i] == self@[i],
    {
        let mut r: Vec<&T> = Vec::new();
        let mut k: usize = 0;
        loop
            invariant
                k <= self.buffer@.len(),
                r@.len() == k,
                forall|i: int| 0 <= i < k ==> *r@[i] == self.buffer@[i],
            decreases self.buffer@.len() - k,
        {
            if k < self.buffer.len() {
                r.push(&self.buffer[k]);
                k = k + 1;
            } else {
                return r;
            }
        }
    }

    /// The number of stored values.  `lemma_ring_buffer_history` shows that
    /// a buffer only ever filled by `push` holds at most `spec_capacity()`
    /// values.
    pub fn len(&self) -> (n: usize)
        ensures
            n == self@.len(),
    {
        self.buffer.len()
    }

    pub fn is_empty(&self) -> (b: bool)
        ensures
            b == (self@.len() == 0),
    {
        self.buffer.len() == 0
    }
}

} // verus!
