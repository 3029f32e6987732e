//! The handoff between the audio callback and the capture loop: an
//! unbounded first-in first-out queue of sample blocks with one producer and
//! one consumer, polled without blocking.

use crate::sample::{is_normalized, normalize_f32, normalize_i16, samples_of_patterns, Sample};
use std::collections::VecDeque;
use vstd::prelude::*;

verus! {

/// What a non-blocking poll of the channel finds.
#[derive(Debug)]
pub enum Polled {
    /// The oldest queued block.
    Block(Vec<Sample>),
    /// Nothing is queued; the producer is still there.
    Empty,
    /// Nothing is queued and the producer is gone: nothing more will come.
    Disconnected,
}

/// The queue of sample blocks, with the two ends' liveness.
pub struct CaptureChannel {
    queue: VecDeque<Vec<Sample>>,
    producer_alive: bool,
    consumer_alive: bool,
}

impl CaptureChannel {
    /// The queued blocks, oldest first.
    pub closed spec fn pending(&self) -> Seq<Seq<Sample>> {
        self.queue@.map_values(|b: Vec<Sample>| b@)
    }

    /// Whether the producing end still exists.
    pub closed spec fn producer_connected(&self) -> bool {
        self.producer_alive
    }

    /// Whether the consuming end still exists.
    pub closed spec fn consumer_connected(&self) -> bool {
        self.consumer_alive
    }

    /// All queued samples in the order they will come out.
    pub open spec fn pending_samples(&self) -> Seq<Sample> {
        self.pending().flatten()
    }

    /// An empty channel with both ends connected.
    pub fn new() -> (c: CaptureChannel)
        ensures
            c.pending() == Seq::<Seq<Sample>>::empty(),
            c.producer_connected(),
            c.consumer_connected(),
    {
        let c = CaptureChannel { queue: VecDeque::new(), producer_alive: true, consumer_alive: true };
        assert(c.pending() =~= Seq::<Seq<Sample>>::empty());
        c
    }

    /// Enqueues a block without blocking. With the consumer gone the block
    /// is dropped and `false` comes back; the producer carries on.
    pub fn send(&mut self, block: Vec<Sample>) -> (accepted: bool)
        ensures
            accepted == old(self).consumer_connected(),
            accepted ==> final(self).pending() == old(self).pending().push(block@),
            !accepted ==> final(self).pending() == old(self).pending(),
            final(self).producer_connected() == old(self).producer_connected(),
            final(self).consumer_connected() == old(self).consumer_connected(),
    {
        if self.consumer_alive {
            self.queue.push_back(block);
            assert(self.pending() =~= old(self).pending().push(block@));
            true
        } else {
            false
        }
    }

    /// The callback's whole work for a block of 32-bit floats: normalise and
    /// enqueue.
    pub fn submit_f32(&mut self, data: &[u32]) -> (accepted: bool)
        ensures
            accepted == old(self).consumer_connected(),
            accepted ==> final(self).pending() == old(self).pending().push(
                samples_of_patterns(data@),
            ),
            !accepted ==> final(self).pending() == old(self).pending(),
            final(self).producer_connected() == old(self).producer_connected(),
            final(self).consumer_connected() == old(self).consumer_connected(),
    {
        let block = normalize_f32(data);
        self.send(block)
    }

    /// The callback's whole work for a block of 16-bit integers: normalise
    /// and enqueue.
    pub fn submit_i16(&mut self, data: &[i16]) -> (accepted: bool)
        ensures
            accepted == old(self).consumer_connected(),
            accepted ==> final(self).pending().len() == old(self).pending().len() + 1
                && final(self).pending().drop_last() == old(self).pending() && is_normalized(
                data@,
                final(self).pending().last(),
            ),
            !accepted ==> final(self).pending() == old(self).pending(),
            final(self).producer_connected() == old(self).producer_connected(),
            final(self).consumer_connected() == old(self).consumer_connected(),
    {
        let block = normalize_i16(data);
        let accepted = self.send(block);
        proof {
            if accepted {
                assert(self.pending().drop_last() =~= old(self).pending());
            }
        }
        accepted
    }

    /// Takes the oldest block if there is one, and otherwise tells whether
    /// more can come. Never blocks.
    pub fn try_recv(&mut self) -> (polled: Polled)
        ensures
            final(self).producer_connected() == old(self).producer_connected(),
            final(self).consumer_connected() == old(self).consumer_connected(),
            old(self).pending().len() > 0 ==> (polled matches Polled::Block(b) && b@ == old(
                self,
            ).pending().first()),
            old(self).pending().len() > 0 ==> final(self).pending() == old(
                self,
            ).pending().drop_first(),
            old(self).pending().len() == 0 ==> final(self).pending() == old(self).pending(),
            old(self).pending().len() == 0 && old(self).producer_connected() ==> polled is Empty,
            old(self).pending().len() == 0 && !old(self).producer_connected()
                ==> polled is Disconnected,
    {
        match self.queue.pop_front() {
            Some(block) => {
                assert(self.pending() =~= old(self).pending().drop_first());
                Polled::Block(block)
            },
            None => {
                if self.producer_alive {
                    Polled::Empty
                } else {
                    Polled::Disconnected
                }
            },
        }
    }

    /// The producer goes away: what is queued can still be taken.
    pub fn disconnect_producer(&mut self)
        ensures
            !final(self).producer_connected(),
            final(self).consumer_connected() == old(self).consumer_connected(),
            final(self).pending() == old(self).pending(),
    {
        self.producer_alive = false;
    }

    /// The consumer goes away: later blocks are dropped.
    pub fn disconnect_consumer(&mut self)
        ensures
            !final(self).consumer_connected(),
            final(self).producer_connected() == old(self).producer_connected(),
            final(self).pending() == old(self).pending(),
    {
        self.consumer_alive = false;
    }

    /// Moves every queued block, oldest first, to the end of `buffer`, and
    /// tells whether the producer is gone.
    pub fn drain_into(&mut self, buffer: &mut Vec<Sample>) -> (disconnected: bool)
        ensures
            final(buffer)@ == old(buffer)@ + old(self).pending_samples(),
            final(self).pending().len() == 0,
            disconnected == !old(self).producer_connected(),
            final(self).producer_connected() == old(self).producer_connected(),
            final(self).consumer_connected() == old(self).consumer_connected(),
    {
        loop
            invariant
                buffer@ + self.pending_samples() == old(buffer)@ + old(self).pending_samples(),
                self.producer_connected() == old(self).producer_connected(),
                self.consumer_connected() == old(self).consumer_connected(),
            decreases self.pending().len(),
        {
            let ghost before = self.pending();
            let ghost filled = buffer@;
            match self.try_recv() {
                Polled::Block(mut block) => {
                    proof {
                        assert(before.flatten() == before.first() + before.drop_first().flatten());
                        assert((filled + before.first()) + before.drop_first().flatten() =~= filled
                            + (before.first() + before.drop_first().flatten()));
                    }
                    buffer.append(&mut block);
                },
                Polled::Empty => {
                    assert(before.flatten() =~= Seq::<Sample>::empty());
                    assert(buffer@ + Seq::<Sample>::empty() =~= buffer@);
                    return false;
                },
                Polled::Disconnected => {
                    assert(before.flatten() =~= Seq::<Sample>::empty());
                    assert(buffer@ + Seq::<Sample>::empty() =~= buffer@);
                    return true;
                },
            }
        }
    }
}

} // verus!
