//! The messaging backbone: a bounded FIFO queue of one message type,
//! capacity five, many logical producers and one consumer. The verified
//! queue carries the messages and keeps their order; making a full send or
//! an empty receive suspend the caller is the scheduler's business and
//! stays with the loop that owns the queue.

use vstd::prelude::*;

verus! {

/// How many messages a channel holds before a send must wait.
pub const CHANNEL_CAPACITY: usize = 5;

/// A fixed-capacity FIFO message queue. Sends append at the back, receives
/// take from the front; a send on a full queue and a receive on an empty
/// one return the failure instead of blocking.
pub struct BoundedChannel<T> {
    items: Vec<T>,
}

impl<T> BoundedChannel<T> {
    /// The queued messages, oldest first.
    pub closed spec fn contents(&self) -> Seq<T> {
        self.items@
    }

    /// The queue never holds more than its capacity.
    pub open spec fn wf(&self) -> bool {
        self.contents().len() <= CHANNEL_CAPACITY
    }

    pub fn new() -> (r: Self)
        ensures
            r.contents() == Seq::<T>::empty(),
            r.wf(),
    {
        BoundedChannel { items: Vec::new() }
    }

    pub fn len(&self) -> (r: usize)
        ensures
            r == self.contents().len(),
    {
        self.items.len()
    }

    pub fn is_empty(&self) -> (r: bool)
        ensures
            r == (self.contents().len() == 0),
    {
        self.items.len() == 0
    }

    pub fn is_full(&self) -> (r: bool)
        ensures
            r == (self.contents().len() == CHANNEL_CAPACITY as int),
    {
        self.items.len() == CHANNEL_CAPACITY
    }

    /// Append a message unless the queue is full; a full queue stays as it
    /// was and the message comes back to the caller.
    pub fn try_send(&mut self, message: T) -> (r: Result<(), T>)
        requires
            old(self).wf(),
        ensures
            final(self).wf(),
            old(self).contents().len() < CHANNEL_CAPACITY ==> r is Ok && final(self).contents()
                == old(self).contents().push(message),
            old(self).contents().len() == CHANNEL_CAPACITY ==> *final(self) == *old(self) && (
            r matches Err(m) && m == message),
    {
        if self.items.len() < CHANNEL_CAPACITY {
            self.items.push(message);
            Ok(())
        } else {
            Err(message)
        }
    }

    /// Take the oldest message; an empty queue yields nothing and stays
    /// empty.
    pub fn try_receive(&mut self) -> (r: Option<T>)
        requires
            old(self).wf(),
        ensures
            final(self).wf(),
            old(self).contents().len() == 0 ==> r is None && *final(self) == *old(self),
            old(self).contents().len() > 0 ==> (r matches Some(m) && m == old(self).contents()[0])
                && final(self).contents() == old(self).contents().subrange(
                1,
                old(self).contents().len() as int,
            ),
    {
        if self.items.len() == 0 {
            None
        } else {
            Some(self.items.remove(0))
        }
    }
}

} // verus!
