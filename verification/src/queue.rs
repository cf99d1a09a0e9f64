//! Bounded FIFO hand-off queues between pipeline stages.
//!
//! Every stage boundary of the pipeline uses one of these queues with
//! drop-on-full semantics: `try_send` never blocks and hands the item back
//! when the queue is at capacity, so capture callbacks always return promptly
//! and the pipeline's memory footprint stays bounded by the queue capacities.

use vstd::prelude::*;

verus! {

/// Frames held between a video capture source and the compositor.
pub const VIDEO_CAPTURE_QUEUE_CAPACITY: usize = 120;

/// Frames held between the compositor and the encoder.
pub const COMPOSITE_QUEUE_CAPACITY: usize = 120;

/// Chunks held between an audio capture source and the mixer.
pub const AUDIO_CAPTURE_QUEUE_CAPACITY: usize = 30;

/// Chunks held between the mixer and the encoder.
pub const MIXED_AUDIO_QUEUE_CAPACITY: usize = 30;

/// Why a non-blocking send did not enqueue; either way the item comes back
/// to the caller.
#[derive(Debug)]
pub enum TrySendError<T> {
    /// The queue already holds `capacity` items.
    Full(T),
    /// The queue was closed and accepts nothing more.
    Disconnected(T),
}

/// Result of a non-blocking receive.
#[derive(Debug)]
pub enum TryRecvResult<T> {
    /// The oldest queued item.
    Item(T),
    /// Nothing queued right now, but the producer may still send.
    Empty,
    /// Nothing queued and the producer is gone.
    Disconnected,
}

/// A fixed-capacity FIFO queue over which owned frames are moved from one
/// pipeline stage to the next.
///
/// The queue never holds more than `capacity` items: that bound is a type
/// invariant, true of every value of this type in every state.
pub struct BoundedQueue<T> {
    items: Vec<T>,
    capacity: usize,
    closed: bool,
}

impl<T> View for BoundedQueue<T> {
    type V = Seq<T>;

    closed spec fn view(&self) -> Seq<T> {
        self.items@
    }
}

impl<T> BoundedQueue<T> {
    /// The queue never holds more items than its capacity.
    #[verifier::type_invariant]
    pub closed spec fn bounded(self) -> bool {
        self.items@.len() <= self.capacity
    }

    /// The fixed capacity this queue was created with.
    pub closed spec fn spec_capacity(&self) -> usize {
        self.capacity
    }

    /// Whether the producer side has closed the queue.
    pub closed spec fn is_closed(&self) -> bool {
        self.closed
    }

    /// Create an empty queue of the given capacity.
    pub fn new(capacity: usize) -> (q: Self)
        ensures
            q@ == Seq::<T>::empty(),
            q.spec_capacity() == capacity,
            !q.is_closed(),
    {
        BoundedQueue { items: Vec::new(), capacity, closed: false }
    }

    /// How many items are queued right now; never more than the capacity,
    /// whatever sequence of sends and receives built the queue up.
    pub fn len(&self) -> (r: usize)
        ensures
            r == self@.len(),
            r <= self.spec_capacity(),
    {
        proof {
            use_type_invariant(&*self);
        }
        self.items.len()
    }

    /// The fixed capacity this queue was created with.
    pub fn capacity(&self) -> (r: usize)
        ensures
            r == self.spec_capacity(),
    {
        self.capacity
    }

    /// Non-blocking send: enqueue the item if capacity permits, else hand it
    /// back without blocking and without growing the queue.
    pub fn try_send(&mut self, item: T) -> (r: Result<(), TrySendError<T>>)
        ensures
            final(self).spec_capacity() == old(self).spec_capacity(),
            final(self).is_closed() == old(self).is_closed(),
            old(self).is_closed() ==> r == Result::<(), TrySendError<T>>::Err(
                TrySendError::Disconnected(item),
            ) && final(self)@ == old(self)@,
            !old(self).is_closed() && old(self)@.len() == old(self).spec_capacity() ==> r
                == Result::<(), TrySendError<T>>::Err(TrySendError::Full(item)) && final(self)@
                == old(self)@,
            !old(self).is_closed() && old(self)@.len() < old(self).spec_capacity() ==> r
                == Result::<(), TrySendError<T>>::Ok(()) && final(self)@ == old(self)@.push(item),
    {
        proof {
            use_type_invariant(&*self);
        }
        if self.closed {
            Err(TrySendError::Disconnected(item))
        } else if self.items.len() == self.capacity {
            Err(TrySendError::Full(item))
        } else {
            let mut items: Vec<T> = Vec::new();
            core::mem::swap(&mut items, &mut self.items);
            items.push(item);
            core::mem::swap(&mut items, &mut self.items);
            Ok(())
        }
    }

    /// Non-blocking receive: the oldest item when one is queued; otherwise
    /// `Empty` while the producer lives, `Disconnected` once it is gone and
    /// the queue has drained.
    pub fn try_recv(&mut self) -> (r: TryRecvResult<T>)
        ensures
            final(self).spec_capacity() == old(self).spec_capacity(),
            final(self).is_closed() == old(self).is_closed(),
            old(self)@.len() > 0 ==> r == TryRecvResult::Item(old(self)@[0]) && final(self)@
                == old(self)@.drop_first(),
            old(self)@.len() == 0 && old(self).is_closed() ==> r
                == TryRecvResult::<T>::Disconnected && final(self)@ == old(self)@,
            old(self)@.len() == 0 && !old(self).is_closed() ==> r == TryRecvResult::<T>::Empty
                && final(self)@ == old(self)@,
    {
        proof {
            use_type_invariant(&*self);
        }
        if self.items.len() > 0 {
            let mut items: Vec<T> = Vec::new();
            core::mem::swap(&mut items, &mut self.items);
            let item = items.remove(0);
            core::mem::swap(&mut items, &mut self.items);
            proof {
                assert(self.items@ == old(self)@.drop_first());
            }
            TryRecvResult::Item(item)
        } else if self.closed {
            TryRecvResult::Disconnected
        } else {
            TryRecvResult::Empty
        }
    }

    /// Close the queue: nothing more can be sent, and the consumer observes
    /// `Disconnected` once the remaining items are drained.
    pub fn close(&mut self)
        ensures
            final(self)@ == old(self)@,
            final(self).spec_capacity() == old(self).spec_capacity(),
            final(self).is_closed(),
    {
        proof {
            use_type_invariant(&*self);
        }
        self.closed = true;
    }
}

} // verus!
