//! Models of the two bounded channels the handler runs on: the capacity-one
//! re-register signal channel, whose overlapping signals coalesce, and the
//! bounded FIFO update channel that carries device snapshots to the response
//! stream.

use vstd::prelude::*;

verus! {

/// The re-register signal channel. Its capacity is one, so a signal raised
/// while another is still pending coalesces with it: the consumer sees at
/// most one pending signal however many were raised meanwhile.
pub struct SignalSlot {
    pending: bool,
}

impl SignalSlot {
    /// Whether a signal is pending.
    pub closed spec fn pending(self) -> bool {
        self.pending
    }

    /// The slot after a raise: one pending signal, whatever was there before.
    pub closed spec fn raised(self) -> SignalSlot {
        SignalSlot { pending: true }
    }

    /// The slot after a take: nothing pending.
    pub closed spec fn taken(self) -> SignalSlot {
        SignalSlot { pending: false }
    }

    /// A fresh channel: no signal pending.
    pub fn new() -> (r: SignalSlot)
        ensures
            !r.pending(),
    {
        SignalSlot { pending: false }
    }

    /// Raises the re-register signal. The slot afterwards holds exactly one
    /// pending signal, whether or not one was already pending.
    pub fn raise(&mut self)
        ensures
            *final (self) == old(self).raised(),
            final (self).pending(),
    {
        self.pending = true;
    }

    /// Takes the pending signal, if any; the slot is empty afterwards.
    pub fn take(&mut self) -> (r: bool)
        ensures
            r == old(self).pending(),
            *final (self) == old(self).taken(),
            !final (self).pending(),
    {
        let r = self.pending;
        self.pending = false;
        r
    }
}

/// Law: the re-register channel coalesces. Raising the signal twice before
/// the consumer takes it leaves exactly what one raise leaves — a single
/// pending signal — so the consumer performs one additional registration
/// attempt, not two: the first take yields a signal, the next yields none.
pub proof fn lemma_signal_coalescing(s: SignalSlot)
    ensures
        s.raised().raised() == s.raised(),
        s.raised().pending(),
        !s.raised().taken().pending(),
{
}

/// A bounded FIFO queue: the model of a discovery-update channel. A send
/// appends at the tail while there is room and is refused when the queue is
/// full (the producer must wait: backpressure); a receive takes from the
/// head, so items arrive in the order they were sent.
pub struct BoundedQueue<T> {
    items: Vec<T>,
    capacity: usize,
}

impl<T> View for BoundedQueue<T> {
    type V = Seq<T>;

    /// The pending items, oldest first.
    closed spec fn view(&self) -> Seq<T> {
        self.items@
    }
}

impl<T> BoundedQueue<T> {
    /// The capacity the queue was created with.
    pub closed spec fn cap(self) -> int {
        self.capacity as int
    }

    /// The queue never holds more than its capacity, which is positive.
    pub closed spec fn well_formed(self) -> bool {
        self.items@.len() <= self.capacity && self.capacity >= 1
    }

    /// An empty queue of the given capacity.
    pub fn new(capacity: usize) -> (r: BoundedQueue<T>)
        requires
            capacity >= 1,
        ensures
            r.well_formed(),
            r@ == Seq::<T>::empty(),
            r.cap() == capacity,
    {
        BoundedQueue { items: Vec::new(), capacity }
    }

    /// Number of pending items.
    pub fn len(&self) -> (r: usize)
        ensures
            r == self@.len(),
    {
        self.items.len()
    }

    /// Sends an item: appended at the tail when there is room; handed back
    /// unchanged when the queue is full, in which case the queue is
    /// untouched and the producer has to wait before retrying.
    pub fn try_send(&mut self, item: T) -> (r: Result<(), T>)
        requires
            old(self).well_formed(),
        ensures
            final (self).well_formed(),
            final (self).cap() == old(self).cap(),
            old(self)@.len() < old(self).cap() ==> final (self)@ == old(self)@.push(item) && (
            r matches Ok(_)),
            old(self)@.len() >= old(self).cap() ==> final (self)@ == old(self)@ && (r matches Err(
                back,
            ) && back == item),
    {
        if self.items.len() < self.capacity {
            self.items.push(item);
            Ok(())
        } else {
            Err(item)
        }
    }

    /// Receives the oldest pending item, if any.
    pub fn recv(&mut self) -> (r: Option<T>)
        requires
            old(self).well_formed(),
        ensures
            final (self).well_formed(),
            final (self).cap() == old(self).cap(),
            old(self)@.len() == 0 ==> final (self)@ == old(self)@ && (r matches None),
            old(self)@.len() > 0 ==> final (self)@ == old(self)@.drop_first() && (r matches Some(
                front,
            ) && front == old(self)@[0]),
    {
        if self.items.len() > 0 {
            let front = self.items.remove(0);
            proof {
                assert(old(self).items@.remove(0) =~= old(self).items@.drop_first());
            }
            Some(front)
        } else {
            None
        }
    }
}

} // verus!
