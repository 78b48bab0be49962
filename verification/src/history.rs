//! A bounded rolling history of samples, oldest first.
//!
//! A history keeps at most its capacity of samples; pushing into a full
//! history evicts the oldest. A zero capacity keeps nothing.
use vstd::prelude::*;

verus! {

/// The last `capacity` samples of `s`, or all of them when there are fewer.
pub open spec fn keep_last<T>(s: Seq<T>, capacity: nat) -> Seq<T> {
    if s.len() <= capacity {
        s
    } else {
        s.skip(s.len() - capacity)
    }
}

/// A bounded history of samples, oldest first.
#[derive(Debug)]
pub struct RollingHistory<T> {
    samples: Vec<T>,
    capacity: usize,
}

impl<T> View for RollingHistory<T> {
    type V = Seq<T>;

    closed spec fn view(&self) -> Seq<T> {
        self.samples@
    }
}

impl<T> RollingHistory<T> {
    #[verifier::type_invariant]
    closed spec fn bounded(self) -> bool {
        self.samples@.len() <= self.capacity
    }

    pub closed spec fn limit(&self) -> nat {
        self.capacity as nat
    }
}

impl<T: Copy> RollingHistory<T> {
    /// An empty history that keeps at most `capacity` samples.
    pub fn new(capacity: usize) -> (h: Self)
        ensures
            h@ == Seq::<T>::empty(),
            h.limit() == capacity,
    {
        RollingHistory { samples: Vec::new(), capacity }
    }

    pub fn capacity(&self) -> (c: usize)
        ensures
            c == self.limit(),
    {
        self.capacity
    }

    pub fn len(&self) -> (n: usize)
        ensures
            n == self@.len(),
            n <= self.limit(),
    {
        proof {
            use_type_invariant(self);
        }
        self.samples.len()
    }

    pub fn is_empty(&self) -> (b: bool)
        ensures
            b == (self@.len() == 0),
    {
        self.samples.len() == 0
    }

    /// Adds a sample, evicting the oldest when the history is full.
    pub fn push(&mut self, sample: T)
        ensures
            final(self).limit() == old(self).limit(),
            final(self)@ == keep_last(old(self)@.push(sample), old(self).limit()),
    {
        proof {
            use_type_invariant(&*self);
        }
        if self.capacity == 0 {
            assert(old(self)@.push(sample).skip(1) =~= Seq::<T>::empty());
            return;
        }
        let start: usize = if self.samples.len() == self.capacity {
            1
        } else {
            0
        };
        let mut next: Vec<T> = Vec::new();
        let mut i = start;
        while i < self.samples.len()
            invariant
                start <= i <= self.samples@.len(),
                next@ == self.samples@.subrange(start as int, i as int),
            decreases self.samples.len() - i,
        {
            next.push(self.samples[i]);
            assert(next@ =~= self.samples@.subrange(start as int, i + 1));
            i += 1;
        }
        next.push(sample);
        proof {
            let s = old(self)@.push(sample);
            if start == 1 {
                assert(next@ =~= s.skip(s.len() - self.capacity));
            } else {
                assert(next@ =~= s);
            }
        }
        self.samples = next;
    }

    /// The samples, oldest first.
    pub fn samples(&self) -> (s: &[T])
        ensures
            s@ == self@,
    {
        self.samples.as_slice()
    }
}

/// The history after pushing `xs` in order into `h`.
pub open spec fn push_all<T>(h: Seq<T>, xs: Seq<T>, capacity: nat) -> Seq<T>
    decreases xs.len(),
{
    if xs.len() == 0 {
        h
    } else {
        keep_last(push_all(h, xs.drop_last(), capacity).push(xs.last()), capacity)
    }
}

/// A history that started empty holds exactly the last `capacity` of the
/// samples pushed into it, in the order they were pushed.
pub proof fn lemma_history_keeps_latest<T>(xs: Seq<T>, capacity: nat)
    ensures
        push_all(Seq::<T>::empty(), xs, capacity) == keep_last(xs, capacity),
    decreases xs.len(),
{
    if xs.len() > 0 {
        lemma_history_keeps_latest(xs.drop_last(), capacity);
        let before = keep_last(xs.drop_last(), capacity);
        let after = before.push(xs.last());
        if xs.len() <= capacity {
            assert(xs.drop_last().push(xs.last()) =~= xs);
        } else if xs.drop_last().len() <= capacity {
            assert(after =~= xs);
            assert(keep_last(after, capacity) =~= keep_last(xs, capacity));
        } else {
            assert(keep_last(after, capacity) =~= keep_last(xs, capacity));
        }
    }
}

} // verus!
