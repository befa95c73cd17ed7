//! The push channel: a bounded, ordered, single-consumer queue carrying
//! server-rendered fragments to one open client connection.
//!
//! Framing rule: an empty payload is the reserved end-of-stream sentinel,
//! so regular payloads must never be empty. Capacity covers both queued
//! messages and outstanding reservations, so a committed reservation can
//! never fail for want of space.

use vstd::prelude::*;

verus! {

/// Default capacity of a session's push channel, in messages.
pub const DEFAULT_CHANNEL_CAPACITY: usize = 128;

/// A bounded FIFO of byte payloads for one connection. The consumer side
/// drains it in order; producers enqueue, reserve or drop under the
/// capacity bound, which is the system's backpressure point.
pub struct PushChannel {
    capacity: usize,
    reserved: usize,
    queue: Vec<Vec<u8>>,
}

impl PushChannel {
    /// The queued payloads, oldest first.
    pub closed spec fn messages(&self) -> Seq<Seq<u8>> {
        self.queue.deep_view()
    }

    /// The fixed bound on occupancy.
    pub closed spec fn spec_capacity(&self) -> int {
        self.capacity as int
    }

    /// Slots promised to producers holding a reservation.
    pub closed spec fn spec_reserved(&self) -> int {
        self.reserved as int
    }

    /// Queued messages plus outstanding reservations.
    pub open spec fn occupancy(&self) -> int {
        self.messages().len() + self.spec_reserved()
    }

    /// Well-formedness: occupancy never exceeds capacity.
    pub open spec fn wf(&self) -> bool {
        self.occupancy() <= self.spec_capacity()
    }

    /// An empty channel with the given capacity.
    pub fn new(capacity: usize) -> (result: PushChannel)
        ensures
            result.wf(),
            result.messages() == Seq::<Seq<u8>>::empty(),
            result.spec_capacity() == capacity,
            result.spec_reserved() == 0,
    {
        let result = PushChannel { capacity, reserved: 0, queue: Vec::new() };
        proof {
            assert(result.messages() =~~= Seq::<Seq<u8>>::empty());
        }
        result
    }

    /// Enqueues a payload if a slot is free, else drops it. This is the
    /// best-effort path; the backpressured path is a caller that retries
    /// until a slot opens.
    pub fn try_send(&mut self, message: Vec<u8>) -> (accepted: bool)
        requires
            old(self).wf(),
            message@.len() > 0,
        ensures
            final(self).wf(),
            final(self).spec_capacity() == old(self).spec_capacity(),
            final(self).spec_reserved() == old(self).spec_reserved(),
            accepted <==> old(self).occupancy() < old(self).spec_capacity(),
            accepted ==> final(self).messages() == old(self).messages().push(message@),
            !accepted ==> final(self).messages() == old(self).messages(),
    {
        if self.queue.len() < self.capacity - self.reserved {
            self.queue.push(message);
            proof {
                assert(self.messages() =~~= old(self).messages().push(message@));
            }
            true
        } else {
            false
        }
    }

    /// Claims one slot ahead of sending, if any is free. A claimed slot is
    /// held until [`Self::commit`] or [`Self::cancel_reservation`].
    pub fn try_reserve(&mut self) -> (reserved: bool)
        requires
            old(self).wf(),
        ensures
            final(self).wf(),
            final(self).spec_capacity() == old(self).spec_capacity(),
            final(self).messages() == old(self).messages(),
            reserved <==> old(self).occupancy() < old(self).spec_capacity(),
            reserved ==> final(self).spec_reserved() == old(self).spec_reserved() + 1,
            !reserved ==> final(self).spec_reserved() == old(self).spec_reserved(),
    {
        if self.queue.len() < self.capacity - self.reserved {
            self.reserved = self.reserved + 1;
            true
        } else {
            false
        }
    }

    /// Fills one claimed slot. Cannot fail: the reservation already holds
    /// the capacity this payload needs.
    pub fn commit(&mut self, message: Vec<u8>)
        requires
            old(self).wf(),
            old(self).spec_reserved() > 0,
            message@.len() > 0,
        ensures
            final(self).wf(),
            final(self).spec_capacity() == old(self).spec_capacity(),
            final(self).spec_reserved() == old(self).spec_reserved() - 1,
            final(self).messages() == old(self).messages().push(message@),
    {
        self.reserved = self.reserved - 1;
        self.queue.push(message);
        proof {
            assert(self.messages() =~~= old(self).messages().push(message@));
        }
    }

    /// Releases one claimed slot unused, as when a producer abandons a
    /// reservation during teardown.
    pub fn cancel_reservation(&mut self)
        requires
            old(self).wf(),
            old(self).spec_reserved() > 0,
        ensures
            final(self).wf(),
            final(self).spec_capacity() == old(self).spec_capacity(),
            final(self).spec_reserved() == old(self).spec_reserved() - 1,
            final(self).messages() == old(self).messages(),
    {
        self.reserved = self.reserved - 1;
    }

    /// Enqueues the end-of-stream sentinel (the empty payload) if a slot
    /// is free. FIFO order makes it the last payload the consumer sees,
    /// provided producers stop after it.
    pub fn try_finish(&mut self) -> (accepted: bool)
        requires
            old(self).wf(),
        ensures
            final(self).wf(),
            final(self).spec_capacity() == old(self).spec_capacity(),
            final(self).spec_reserved() == old(self).spec_reserved(),
            accepted <==> old(self).occupancy() < old(self).spec_capacity(),
            accepted ==> final(self).messages() == old(self).messages().push(Seq::<u8>::empty()),
            !accepted ==> final(self).messages() == old(self).messages(),
    {
        if self.queue.len() < self.capacity - self.reserved {
            let sentinel: Vec<u8> = Vec::new();
            proof {
                assert(sentinel@ =~= Seq::<u8>::empty());
            }
            self.queue.push(sentinel);
            proof {
                assert(self.messages() =~~= old(self).messages().push(Seq::<u8>::empty()));
            }
            true
        } else {
            false
        }
    }

    /// The number of queued payloads.
    pub fn queued_len(&self) -> (result: usize)
        ensures
            result == self.messages().len(),
    {
        self.queue.len()
    }

    /// The number of outstanding reservations.
    pub fn reserved_len(&self) -> (result: usize)
        ensures
            result == self.spec_reserved(),
    {
        self.reserved
    }

    /// Dequeues the oldest payload, if any. Whether it ends the stream is
    /// the consumer's call, made through [`crate::registry::PollFrame`].
    pub fn recv(&mut self) -> (message: Option<Vec<u8>>)
        requires
            old(self).wf(),
        ensures
            final(self).wf(),
            final(self).spec_capacity() == old(self).spec_capacity(),
            final(self).spec_reserved() == old(self).spec_reserved(),
            old(self).messages().len() == 0 ==> message is None && final(self).messages() == old(
                self,
            ).messages(),
            old(self).messages().len() > 0 ==> (message matches Some(m) && m@ == old(
                self,
            ).messages()[0] && final(self).messages() == old(self).messages().drop_first()),
    {
        if self.queue.len() == 0 {
            None
        } else {
            let front = self.queue.remove(0);
            proof {
                assert(self.messages() =~~= old(self).messages().drop_first());
            }
            Some(front)
        }
    }
}

} // verus!
