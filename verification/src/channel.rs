//! The two message-passing crossings between the engine context and the draw
//! context: a one-slot, latest-wins frame handoff and an ordered, best-effort
//! input queue. Neither operation ever blocks, and a dropped opposite
//! endpoint turns every operation into a quiet no-op.

use vstd::prelude::*;

verus! {

/// The frame handoff: at most one "latest frame" in flight from the engine
/// side (producer) to the draw side (consumer). Each endpoint's liveness is
/// tracked so that asymmetric shutdown keeps every operation total.
pub struct FrameChannel<T> {
    pub slot: Option<T>,
    pub producer_alive: bool,
    pub consumer_alive: bool,
}

impl<T> FrameChannel<T> {
    /// The channel state after the producer publishes a frame: the slot is
    /// overwritten (latest wins, any undrawn frame is dropped) while the
    /// consumer lives; once the consumer is gone the send is dropped.
    pub open spec fn spec_send(self, t: T) -> FrameChannel<T> {
        if self.consumer_alive {
            FrameChannel {
                slot: Some(t),
                producer_alive: self.producer_alive,
                consumer_alive: self.consumer_alive,
            }
        } else {
            self
        }
    }

    /// What a receive returns: the pending frame while the producer lives,
    /// and nothing at all once the producer is gone — identical to an empty
    /// channel.
    pub open spec fn spec_recv_result(self) -> Option<T> {
        if self.producer_alive {
            self.slot
        } else {
            None
        }
    }

    /// The channel state after a receive: the slot is drained either way.
    pub open spec fn spec_recv_state(self) -> FrameChannel<T> {
        FrameChannel {
            slot: None,
            producer_alive: self.producer_alive,
            consumer_alive: self.consumer_alive,
        }
    }

    /// A fresh channel pair: both endpoints alive, no frame in flight.
    pub fn new() -> (c: FrameChannel<T>)
        ensures
            c.slot is None,
            c.producer_alive,
            c.consumer_alive,
    {
        FrameChannel { slot: None, producer_alive: true, consumer_alive: true }
    }

    /// Publish a frame. Never blocks; overwrites any frame the consumer has
    /// not yet drained; silently dropped if the consumer is gone.
    pub fn send_frame(&mut self, t: T)
        ensures
            *final(self) == old(self).spec_send(t),
    {
        if self.consumer_alive {
            self.slot = Some(t);
        }
    }

    /// Take the pending frame, if any. Never blocks: no frame ready is the
    /// valid steady state, and a dead producer answers exactly like an empty
    /// channel.
    pub fn try_receive_frame(&mut self) -> (r: Option<T>)
        ensures
            r == old(self).spec_recv_result(),
            *final(self) == old(self).spec_recv_state(),
    {
        let taken = self.slot.take();
        if self.producer_alive {
            taken
        } else {
            None
        }
    }

    /// The engine side went away: models dropping the producer endpoint.
    pub fn drop_producer(&mut self)
        ensures
            final(self).slot == old(self).slot,
            !final(self).producer_alive,
            final(self).consumer_alive == old(self).consumer_alive,
    {
        self.producer_alive = false;
    }

    /// The draw side went away: models dropping the consumer endpoint.
    pub fn drop_consumer(&mut self)
        ensures
            final(self).slot == old(self).slot,
            final(self).producer_alive == old(self).producer_alive,
            !final(self).consumer_alive,
    {
        self.consumer_alive = false;
    }
}

/// At-most-once delivery per cycle: a frame published before a draw cycle is
/// returned by exactly one receive, and a second receive in the same cycle
/// returns nothing.
pub proof fn lemma_at_most_once_delivery<T>(c: FrameChannel<T>, f: T)
    requires
        c.producer_alive,
        c.consumer_alive,
    ensures
        c.spec_send(f).spec_recv_result() == Some(f),
        c.spec_send(f).spec_recv_state().spec_recv_result() is None,
{
}

/// Latest wins: when two frames are published before any receive, the
/// receiver observes only the most recent one — there is no backlog.
pub proof fn lemma_latest_wins<T>(c: FrameChannel<T>, f1: T, f2: T)
    requires
        c.producer_alive,
        c.consumer_alive,
    ensures
        c.spec_send(f1).spec_send(f2).spec_recv_result() == Some(f2),
{
}

/// A dead producer is indistinguishable from an empty channel: receive
/// returns nothing and leaves the slot drained, exactly as it would had no
/// frame ever been published.
pub proof fn lemma_dead_producer_like_empty<T>(c: FrameChannel<T>)
    requires
        !c.producer_alive,
    ensures
        c.spec_recv_result() == c.spec_recv_state().spec_recv_result(),
        c.spec_recv_result() is None,
        c.spec_recv_state().slot is None,
{
}

/// The input crossing: an ordered queue of input events from the adapter
/// (producer) to the engine instance's own loop (consumer). Delivery is
/// best-effort: once the engine is gone, sends are silently dropped.
pub struct InputChannel<T> {
    pub queue: Vec<T>,
    pub consumer_alive: bool,
}

impl<T> InputChannel<T> {
    /// The queue contents after a send: appended in order while the consumer
    /// lives, unchanged once it is gone.
    pub open spec fn spec_send_queue(self, t: T) -> Seq<T> {
        if self.consumer_alive {
            self.queue@.push(t)
        } else {
            self.queue@
        }
    }

    /// A fresh channel: empty queue, consumer alive.
    pub fn new() -> (c: InputChannel<T>)
        ensures
            c.queue@ == Seq::<T>::empty(),
            c.consumer_alive,
    {
        InputChannel { queue: Vec::new(), consumer_alive: true }
    }

    /// Forward one event, fire-and-forget: never blocks, never fails, and is
    /// silently dropped if the engine instance is gone.
    pub fn send(&mut self, t: T)
        ensures
            final(self).queue@ == old(self).spec_send_queue(t),
            final(self).consumer_alive == old(self).consumer_alive,
    {
        if self.consumer_alive {
            self.queue.push(t);
        }
    }

    /// Take the oldest queued event, if any: delivery follows send order.
    pub fn try_receive(&mut self) -> (r: Option<T>)
        ensures
            final(self).consumer_alive == old(self).consumer_alive,
            old(self).queue@.len() == 0 ==> r is None && final(self).queue@ == old(self).queue@,
            old(self).queue@.len() > 0 ==> r == Some(old(self).queue@[0]) && final(self).queue@
                == old(self).queue@.subrange(1, old(self).queue@.len() as int),
    {
        if self.queue.len() == 0 {
            None
        } else {
            let t = self.queue.remove(0);
            proof {
                assert(self.queue@ =~= old(self).queue@.subrange(
                    1,
                    old(self).queue@.len() as int,
                ));
            }
            Some(t)
        }
    }

    /// The engine instance went away: models dropping the consumer endpoint.
    pub fn drop_consumer(&mut self)
        ensures
            final(self).queue@ == old(self).queue@,
            !final(self).consumer_alive,
    {
        self.consumer_alive = false;
    }
}

} // verus!
