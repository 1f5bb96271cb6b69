//! Buffered inbound message queues, one FIFO per logical channel.
//!
//! The transport shell appends each message it drains from the wire, in
//! arrival order; the host takes bounded batches from the front. Nothing is
//! ever dropped here: messages beyond a batch's bound stay queued for the next
//! call, so per-call latency is bounded while order within a channel is kept.

use std::collections::HashMap;
use vstd::prelude::*;

verus! {

broadcast use vstd::std_specs::hash::group_hash_axioms;

/// One inbound message: the sender's identity and the raw payload bytes.
pub struct Message {
    pub sender: u64,
    pub payload: Vec<u8>,
}

impl View for Message {
    type V = (u64, Seq<u8>);

    open spec fn view(&self) -> (u64, Seq<u8>) {
        (self.sender, self.payload@)
    }
}

/// The sequence of (sender, payload) pairs a sequence of messages denotes.
pub open spec fn msgs_view(s: Seq<Message>) -> Seq<(u64, Seq<u8>)> {
    s.map_values(|m: Message| m@)
}

/// The queue contents of every channel: channels with nothing queued map to
/// the empty sequence.
pub open spec fn no_queued_messages() -> Map<u32, Seq<(u64, Seq<u8>)>> {
    Map::new(|c: u32| true, |c: u32| Seq::<(u64, Seq<u8>)>::empty())
}

/// Per-channel FIFO queues of inbound messages awaiting delivery.
pub struct ChannelQueues {
    queues: HashMap<u32, Vec<Message>>,
}

impl View for ChannelQueues {
    type V = Map<u32, Seq<(u64, Seq<u8>)>>;

    closed spec fn view(&self) -> Map<u32, Seq<(u64, Seq<u8>)>> {
        Map::new(|c: u32| true, |c: u32| self.channel(c))
    }
}

impl ChannelQueues {
    /// What is queued on channel `c`, oldest first.
    pub closed spec fn channel(&self, c: u32) -> Seq<(u64, Seq<u8>)> {
        if self.queues@.contains_key(c) {
            msgs_view(self.queues@[c]@)
        } else {
            Seq::empty()
        }
    }

    /// Queues with nothing buffered on any channel.
    pub fn new() -> (q: Self)
        ensures
            q@ == no_queued_messages(),
    {
        let q = ChannelQueues { queues: HashMap::new() };
        proof {
            assert(q@ =~= no_queued_messages());
        }
        q
    }

    /// Drops everything buffered on every channel.
    pub fn clear(&mut self)
        ensures
            final(self)@ == no_queued_messages(),
    {
        self.queues.clear();
        proof {
            assert(self@ =~= no_queued_messages());
        }
    }

    /// Appends one arrived message to the back of `channel`'s queue.
    pub fn push(&mut self, channel: u32, sender: u64, payload: Vec<u8>)
        ensures
            final(self)@ == old(self)@.insert(
                channel,
                old(self)@[channel].push((sender, payload@)),
            ),
    {
        let ghost prior = self@;
        let mut queue = match self.queues.remove(&channel) {
            Some(queue) => queue,
            None => Vec::new(),
        };
        assert(msgs_view(queue@) == prior[channel]);
        let ghost before_push = queue@;
        queue.push(Message { sender, payload });
        proof {
            assert(msgs_view(queue@) =~= msgs_view(before_push).push((sender, payload@)));
        }
        self.queues.insert(channel, queue);
        proof {
            assert(self@ =~= prior.insert(channel, prior[channel].push((sender, payload@))));
        }
    }

    /// Removes and returns the oldest messages of `channel`, at most `max` of
    /// them, in arrival order; the rest stay queued, still in order.
    pub fn take(&mut self, channel: u32, max: usize) -> (batch: Vec<Message>)
        ensures
            msgs_view(batch@) == old(self)@[channel].take(
                vstd::math::min(max as int, old(self)@[channel].len() as int),
            ),
            final(self)@ == old(self)@.insert(
                channel,
                old(self)@[channel].skip(
                    vstd::math::min(max as int, old(self)@[channel].len() as int),
                ),
            ),
    {
        let ghost prior = self@;
        match self.queues.remove(&channel) {
            None => {
                proof {
                    assert(prior[channel] == Seq::<(u64, Seq<u8>)>::empty());
                    assert(msgs_view(Seq::<Message>::empty()) =~= prior[channel].take(0));
                    assert(prior[channel].skip(0) =~= prior[channel]);
                    assert(self@ =~= prior.insert(channel, prior[channel].skip(0)));
                }
                Vec::new()
            },
            Some(mut queue) => {
                assert(msgs_view(queue@) == prior[channel]);
                let count = if max < queue.len() {
                    max
                } else {
                    queue.len()
                };
                let ghost k = vstd::math::min(max as int, prior[channel].len() as int);
                assert(count == k);
                let ghost whole = queue@;
                let rest = queue.split_off(count);
                proof {
                    assert(msgs_view(queue@) =~= msgs_view(whole).take(k));
                    assert(msgs_view(rest@) =~= msgs_view(whole).skip(k));
                }
                self.queues.insert(channel, rest);
                proof {
                    assert(self@ =~= prior.insert(channel, prior[channel].skip(k)));
                }
                queue
            },
        }
    }
}

} // verus!
