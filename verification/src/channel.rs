//! Bounded fan-out channel with per-receiver cursors and lag drop.
//!
//! One channel value carries the whole publish history; each [`Receiver`]
//! remembers how far into that history it has read. The channel retains only
//! the most recent `capacity` messages, so a receiver that has fallen more
//! than `capacity` messages behind observes a lag report and silently skips
//! the oldest unread messages instead of blocking the publisher. Within one
//! channel, delivery preserves publish order (FIFO) as long as no lag drop
//! occurred.

use vstd::prelude::*;

use crate::message::WebSocketMessage;

verus! {

/// Mathematical model of a channel: its capacity and the full sequence of
/// messages ever published on it, oldest first.
pub ghost struct ChannelModel {
    pub capacity: nat,
    pub history: Seq<WebSocketMessage>,
}

impl ChannelModel {
    /// Position in the history of the oldest message still retained.
    pub open spec fn first_retained(self) -> int {
        if self.history.len() <= self.capacity {
            0
        } else {
            self.history.len() - self.capacity
        }
    }

    /// How many messages have ever been published.
    pub open spec fn published(self) -> int {
        self.history.len() as int
    }
}

/// What publishing one message does to a channel: the history grows by that
/// message and nothing else changes.
pub open spec fn spec_publish(c: ChannelModel, m: WebSocketMessage) -> ChannelModel {
    ChannelModel { capacity: c.capacity, history: c.history.push(m) }
}

/// Read cursor of one subscriber: the position in the channel history of the
/// next message this subscriber will observe.
pub struct Receiver {
    pub next: usize,
}

/// Outcome of one non-blocking receive attempt.
pub enum RecvOutcome {
    /// The next unread message, in publish order.
    Message(WebSocketMessage),
    /// Nothing unread right now.
    Empty,
    /// The receiver fell behind and this many unread messages were skipped.
    Lagged(usize),
    /// The source of messages is gone.
    Closed,
}

/// A bounded multi-subscriber channel. Only the most recent `capacity`
/// messages stay available; the full history is carried as ghost state so
/// that contracts can speak about every message ever published.
pub struct Channel {
    capacity: usize,
    /// Number of messages discarded from the front of the history.
    dropped: usize,
    /// The retained tail of the history.
    buffer: Vec<WebSocketMessage>,
    history: Ghost<Seq<WebSocketMessage>>,
}

impl View for Channel {
    type V = ChannelModel;

    closed spec fn view(&self) -> ChannelModel {
        ChannelModel { capacity: self.capacity as nat, history: self.history@ }
    }
}

impl Channel {
    /// The executable state matches the model: the buffer is exactly the
    /// retained tail of the history, and it is as full as the history allows.
    pub closed spec fn wf(&self) -> bool {
        &&& 1 <= self.capacity
        &&& self.history@.len() <= usize::MAX as int
        &&& self.dropped as int == self@.first_retained()
        &&& self.buffer@ == self.history@.subrange(self.dropped as int, self.history@.len() as int)
    }

    pub fn new(capacity: usize) -> (c: Channel)
        requires
            1 <= capacity,
        ensures
            c.wf(),
            c@.capacity == capacity as nat,
            c@.history == Seq::<WebSocketMessage>::empty(),
    {
        let c = Channel {
            capacity,
            dropped: 0,
            buffer: Vec::new(),
            history: Ghost(Seq::empty()),
        };
        proof {
            assert(c.buffer@ =~= c.history@.subrange(0, 0));
        }
        c
    }

    /// How many messages have ever been published on this channel.
    pub fn published(&self) -> (n: usize)
        requires
            self.wf(),
        ensures
            n as int == self@.published(),
    {
        self.dropped + self.buffer.len()
    }

    /// Append a message to the channel. If the channel already retains
    /// `capacity` messages, the oldest retained one is discarded, so a
    /// receiver still positioned on it will lag.
    pub fn publish(&mut self, m: WebSocketMessage)
        requires
            old(self).wf(),
            old(self)@.published() < usize::MAX as int,
        ensures
            final(self).wf(),
            final(self)@ == spec_publish(old(self)@, m),
    {
        if self.buffer.len() == self.capacity {
            self.buffer.remove(0);
            self.dropped = self.dropped + 1;
        }
        self.buffer.push(m);
        proof {
            self.history@ = self.history@.push(m);
            assert(self.buffer@ =~= self.history@.subrange(
                self.dropped as int,
                self.history@.len() as int,
            ));
        }
    }

    /// A new subscriber starts at the current end of the history: it observes
    /// only messages published after it subscribed.
    pub fn subscribe(&self) -> (r: Receiver)
        requires
            self.wf(),
        ensures
            r.next as int == self@.published(),
    {
        Receiver { next: self.published() }
    }

    /// One non-blocking receive attempt for the given cursor. Exactly one of
    /// three things happens: there is nothing unread; the cursor lags behind
    /// the retained window and jumps forward over the skipped messages; or
    /// the next unread message is returned, in publish order.
    pub fn try_recv(&self, r: &mut Receiver) -> (out: RecvOutcome)
        requires
            self.wf(),
        ensures
            self@.published() <= old(r).next as int ==> {
                &&& out == RecvOutcome::Empty
                &&& final(r).next == old(r).next
            },
            (old(r).next as int) < self@.first_retained() ==> {
                &&& out == RecvOutcome::Lagged((self@.first_retained() - old(r).next) as usize)
                &&& final(r).next as int == self@.first_retained()
            },
            (self@.first_retained() <= old(r).next as int && (old(r).next as int) < self@.published()) ==> {
                &&& out == RecvOutcome::Message(self@.history[old(r).next as int])
                &&& final(r).next == old(r).next + 1
            },
    {
        let published = self.dropped + self.buffer.len();
        if r.next >= published {
            RecvOutcome::Empty
        } else if r.next < self.dropped {
            let skipped = self.dropped - r.next;
            r.next = self.dropped;
            RecvOutcome::Lagged(skipped)
        } else {
            let m = self.buffer[r.next - self.dropped].clone();
            r.next = r.next + 1;
            RecvOutcome::Message(m)
        }
    }
}

} // verus!
