//! Bounded FIFO buffer for captured telemetry samples.
//!
//! When the buffer is full, pushing a sample drops the oldest one.

use vstd::prelude::*;
use std::collections::VecDeque;

verus! {

/// The contents after pushing `x` onto contents `s` of a buffer with capacity
/// `cap`: when the buffer holds `cap` or more samples, the oldest is dropped first.
pub open spec fn pushed<T>(s: Seq<T>, cap: nat, x: T) -> Seq<T> {
    if s.len() >= cap && s.len() > 0 {
        s.drop_first().push(x)
    } else {
        s.push(x)
    }
}

/// The contents after pushing all of `xs`, in order, onto contents `s`.
pub open spec fn pushed_all<T>(s: Seq<T>, cap: nat, xs: Seq<T>) -> Seq<T>
    decreases xs.len(),
{
    if xs.len() == 0 {
        s
    } else {
        pushed(pushed_all(s, cap, xs.drop_last()), cap, xs.last())
    }
}

/// The largest number of samples a buffer of capacity `cap` holds; a buffer
/// of capacity zero still keeps the latest sample.
pub open spec fn bound(cap: nat) -> nat {
    if cap == 0 {
        1
    } else {
        cap
    }
}

/// Bounded FIFO buffer of telemetry samples.
pub struct TelemetryRingBuffer<T> {
    buffer: VecDeque<T>,
    capacity: usize,
}

impl<T> View for TelemetryRingBuffer<T> {
    type V = Seq<T>;

    closed spec fn view(&self) -> Seq<T> {
        self.buffer@
    }
}

impl<T> TelemetryRingBuffer<T> {
    #[verifier::type_invariant]
    spec fn within_capacity(&self) -> bool {
        self.buffer@.len() <= bound(self.capacity as nat)
    }

    /// The capacity the buffer was made with.
    pub closed spec fn capacity_spec(&self) -> nat {
        self.capacity as nat
    }

    /// Creates an empty buffer with the given capacity.
    pub fn new(capacity: usize) -> (r: TelemetryRingBuffer<T>)
        ensures
            r@ == Seq::<T>::empty(),
            r.capacity_spec() == capacity,
    {
        TelemetryRingBuffer { buffer: VecDeque::with_capacity(capacity), capacity }
    }

    /// Pushes a sample; if the buffer is at capacity, the oldest sample is dropped.
    pub fn push(&mut self, sample: T)
        ensures
            final(self)@ == pushed(old(self)@, old(self).capacity_spec(), sample),
            final(self).capacity_spec() == old(self).capacity_spec(),
    {
        proof {
            use_type_invariant(&*self);
        }
        let mut buffer: VecDeque<T> = VecDeque::new();
        std::mem::swap(&mut buffer, &mut self.buffer);
        if buffer.len() >= self.capacity {
            let _ = buffer.pop_front();
        }
        buffer.push_back(sample);
        self.buffer = buffer;
    }

    /// Removes and returns all samples, oldest first, leaving the buffer empty.
    pub fn drain(&mut self) -> (r: Vec<T>)
        ensures
            r@ == old(self)@,
            final(self)@ == Seq::<T>::empty(),
            final(self).capacity_spec() == old(self).capacity_spec(),
    {
        let mut buffer: VecDeque<T> = VecDeque::new();
        std::mem::swap(&mut buffer, &mut self.buffer);
        let ghost all = buffer@;
        let mut out: Vec<T> = Vec::new();
        while buffer.len() > 0
            invariant
                out@ + buffer@ == all,
            decreases buffer@.len(),
        {
            let x = buffer.pop_front();
            match x {
                Some(v) => {
                    out.push(v);
                },
                None => {},
            }
        }
        proof {
            assert(buffer@ =~= Seq::<T>::empty());
            assert(out@ + buffer@ =~= out@);
        }
        out
    }

    /// Returns the number of samples in the buffer.
    pub fn len(&self) -> (r: usize)
        ensures
            r == self@.len(),
            r <= bound(self.capacity_spec()),
    {
        proof {
            use_type_invariant(self);
        }
        self.buffer.len()
    }

    /// Returns true if the buffer holds no samples.
    pub fn is_empty(&self) -> (r: bool)
        ensures
            r == (self@.len() == 0),
    {
        self.buffer.len() == 0
    }

    /// Returns the capacity of the buffer.
    pub fn capacity(&self) -> (r: usize)
        ensures
            r == self.capacity_spec(),
    {
        self.capacity
    }
}

/// Pushing keeps a buffer within its capacity.
pub proof fn lemma_push_within_capacity<T>(s: Seq<T>, cap: nat, x: T)
    requires
        s.len() <= bound(cap),
    ensures
        pushed(s, cap, x).len() <= bound(cap),
{
}

/// Pushing samples one by one onto an empty buffer of positive capacity keeps
/// exactly the latest `capacity` of them, in order (all of them if fewer).
pub proof fn lemma_keeps_latest<T>(cap: nat, xs: Seq<T>)
    requires
        cap > 0,
    ensures
        pushed_all(Seq::<T>::empty(), cap, xs) == (if xs.len() <= cap {
            xs
        } else {
            xs.skip(xs.len() - cap)
        }),
    decreases xs.len(),
{
    if xs.len() > 0 {
        let prev = xs.drop_last();
        lemma_keeps_latest(cap, prev);
        if xs.len() <= cap {
            assert(prev.push(xs.last()) =~= xs);
        } else if prev.len() <= cap {
            assert(prev.len() == cap);
            assert(prev.drop_first().push(xs.last()) =~= xs.skip(xs.len() - cap));
        } else {
            assert(prev.skip(prev.len() - cap).drop_first().push(xs.last()) =~= xs.skip(
                xs.len() - cap,
            ));
        }
    } else {
        assert(xs =~= Seq::<T>::empty());
    }
}

} // verus!
