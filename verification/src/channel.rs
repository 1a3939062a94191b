//! The bounded hand-off queue between producer and consumer, as a value.
//!
//! The queue holds at most `CHANNEL_CAPACITY` records in arrival order and has two
//! sides that close independently. Nothing here blocks: where a blocking channel
//! would make its caller wait, these operations answer `Full` or `Empty` and leave
//! the queue as it was, so that the caller can try again once the other side has
//! moved.
//!
//! Two threads cannot share this value; they share a blocking channel of the
//! platform, made with `CHANNEL_CAPACITY` slots. This module says what is expected
//! of that channel, and lets a whole pipeline be stepped through in one thread.

use vstd::prelude::*;
use std::collections::VecDeque;
use crate::record::Record;

verus! {

/// Number of records the channel can hold at once.
pub const CHANNEL_CAPACITY: usize = 4;

/// The channel as a mathematical value.
pub struct ChannelView {
    /// The buffered records, oldest first.
    pub buffered: Seq<Record>,
    /// Whether the producer still holds its side.
    pub sender_open: bool,
    /// Whether the consumer still holds its side.
    pub receiver_open: bool,
}

impl ChannelView {
    /// The channel never holds more than its capacity, and holds nothing once
    /// nobody is left to receive.
    pub open spec fn wf(self) -> bool {
        &&& self.buffered.len() <= CHANNEL_CAPACITY
        &&& !self.receiver_open ==> self.buffered.len() == 0
    }

    /// Whether another record would have to wait.
    pub open spec fn is_full(self) -> bool {
        self.buffered.len() >= CHANNEL_CAPACITY
    }

    /// Whether both sides are still there.
    pub open spec fn is_connected(self) -> bool {
        self.sender_open && self.receiver_open
    }
}

/// How an attempt to send ended. A record that was not taken comes back.
#[derive(Clone, Copy, Debug, PartialEq, Eq)]
pub enum SendOutcome {
    /// The record is now the newest in the buffer.
    Accepted,
    /// The buffer is full: a blocking send would wait here.
    Full(Record),
    /// A side of the channel has been closed: the record can never be delivered.
    Disconnected(Record),
}

/// How an attempt to receive ended.
#[derive(Clone, Copy, Debug, PartialEq, Eq)]
pub enum RecvOutcome {
    /// The oldest buffered record, which has left the buffer.
    Received(Record),
    /// Nothing is buffered but more may come: a blocking receive would wait here.
    Empty,
    /// Nothing is buffered and nothing will come.
    EndOfStream,
}

/// A channel with both sides open and nothing buffered.
pub open spec fn channel_new() -> ChannelView {
    ChannelView { buffered: Seq::empty(), sender_open: true, receiver_open: true }
}

/// Sending `record` into `pre`: a disconnected channel refuses, a full one makes
/// the sender wait, any other appends the record behind those already buffered.
pub open spec fn channel_send(pre: ChannelView, record: Record) -> (ChannelView, SendOutcome) {
    if !pre.is_connected() {
        (pre, SendOutcome::Disconnected(record))
    } else if pre.is_full() {
        (pre, SendOutcome::Full(record))
    } else {
        (ChannelView { buffered: pre.buffered.push(record), ..pre }, SendOutcome::Accepted)
    }
}

/// Receiving from `pre`: the oldest buffered record if there is one; otherwise the
/// end of the stream once the sender is gone, and a wait while it is not.
pub open spec fn channel_recv(pre: ChannelView) -> (ChannelView, RecvOutcome) {
    if !pre.receiver_open {
        (pre, RecvOutcome::EndOfStream)
    } else if pre.buffered.len() > 0 {
        (
            ChannelView { buffered: pre.buffered.subrange(1, pre.buffered.len() as int), ..pre },
            RecvOutcome::Received(pre.buffered[0]),
        )
    } else if !pre.sender_open {
        (pre, RecvOutcome::EndOfStream)
    } else {
        (pre, RecvOutcome::Empty)
    }
}

/// The producer lets go of its side. What is buffered stays for the consumer.
pub open spec fn channel_close_sender(pre: ChannelView) -> ChannelView {
    ChannelView { sender_open: false, ..pre }
}

/// The consumer lets go of its side. What is buffered is dropped with it.
pub open spec fn channel_close_receiver(pre: ChannelView) -> ChannelView {
    ChannelView { receiver_open: false, buffered: Seq::empty(), ..pre }
}

/// A fixed-capacity first-in, first-out queue of records with a closable side for
/// each of its two users.
pub struct Channel {
    slots: VecDeque<Record>,
    sender_open: bool,
    receiver_open: bool,
}

impl View for Channel {
    type V = ChannelView;

    closed spec fn view(&self) -> ChannelView {
        ChannelView {
            buffered: self.slots@,
            sender_open: self.sender_open,
            receiver_open: self.receiver_open,
        }
    }
}

impl Channel {
    #[verifier::type_invariant]
    spec fn bounded(self) -> bool {
        self@.wf()
    }

    /// An empty channel with both sides open.
    pub fn new() -> (channel: Channel)
        ensures
            channel@ == channel_new(),
    {
        Channel { slots: VecDeque::new(), sender_open: true, receiver_open: true }
    }

    /// Number of records waiting in the buffer; never more than the capacity.
    pub fn len(&self) -> (count: usize)
        ensures
            count == self@.buffered.len(),
            count <= CHANNEL_CAPACITY,
            self@.wf(),
    {
        proof {
            use_type_invariant(self);
        }
        self.slots.len()
    }

    /// Whether the producer still holds its side.
    pub fn sender_open(&self) -> (open: bool)
        ensures
            open == self@.sender_open,
    {
        self.sender_open
    }

    /// Whether the consumer still holds its side.
    pub fn receiver_open(&self) -> (open: bool)
        ensures
            open == self@.receiver_open,
    {
        self.receiver_open
    }

    /// Offers `record` to the channel. The record is appended only if both sides
    /// are open and the buffer has room; otherwise it is handed back and the
    /// channel does not change.
    pub fn try_send(&mut self, record: Record) -> (outcome: SendOutcome)
        ensures
            (final(self)@, outcome) == channel_send(old(self)@, record),
            final(self)@.wf(),
    {
        proof {
            use_type_invariant(&*self);
        }
        if !self.sender_open || !self.receiver_open {
            SendOutcome::Disconnected(record)
        } else if self.slots.len() >= CHANNEL_CAPACITY {
            SendOutcome::Full(record)
        } else {
            let mut slots = self.take_slots();
            slots.push_back(record);
            self.slots = slots;
            SendOutcome::Accepted
        }
    }

    /// Takes the oldest buffered record, if any. An empty buffer reports the end of
    /// the stream once the sender has closed its side.
    pub fn try_recv(&mut self) -> (outcome: RecvOutcome)
        ensures
            (final(self)@, outcome) == channel_recv(old(self)@),
            final(self)@.wf(),
    {
        proof {
            use_type_invariant(&*self);
        }
        if !self.receiver_open {
            return RecvOutcome::EndOfStream;
        }
        let mut slots = self.take_slots();
        let oldest = slots.pop_front();
        self.slots = slots;
        match oldest {
            Some(record) => RecvOutcome::Received(record),
            None => if self.sender_open {
                RecvOutcome::Empty
            } else {
                RecvOutcome::EndOfStream
            },
        }
    }

    /// Moves the buffer out, leaving an empty one in its place.
    fn take_slots(&mut self) -> (slots: VecDeque<Record>)
        ensures
            slots@ == old(self).slots@,
            final(self).slots@ == Seq::<Record>::empty(),
            final(self).sender_open == old(self).sender_open,
            final(self).receiver_open == old(self).receiver_open,
    {
        let mut slots = VecDeque::new();
        std::mem::swap(&mut self.slots, &mut slots);
        slots
    }

    /// Closes the sending side. Closing it again changes nothing.
    pub fn close_sender(&mut self)
        ensures
            final(self)@ == channel_close_sender(old(self)@),
            final(self)@.wf(),
    {
        proof {
            use_type_invariant(&*self);
        }
        self.sender_open = false;
    }

    /// Closes the receiving side and drops whatever was still buffered.
    pub fn close_receiver(&mut self)
        ensures
            final(self)@ == channel_close_receiver(old(self)@),
            final(self)@.wf(),
    {
        *self = Channel { slots: VecDeque::new(), sender_open: self.sender_open, receiver_open: false };
    }
}

/// No operation takes a channel past its capacity.
pub proof fn law_channel_stays_bounded(pre: ChannelView, record: Record)
    requires
        pre.wf(),
    ensures
        channel_new().wf(),
        channel_send(pre, record).0.wf(),
        channel_recv(pre).0.wf(),
        channel_close_sender(pre).wf(),
        channel_close_receiver(pre).wf(),
{
}

/// A full channel keeps every record it holds and hands the offered one back:
/// records wait, they are never dropped to make room.
pub proof fn law_full_channel_holds_back(pre: ChannelView, record: Record)
    requires
        pre.is_connected(),
        pre.is_full(),
    ensures
        channel_send(pre, record) == (pre, SendOutcome::Full(record)),
{
}

/// Records leave the channel in the order in which they entered it.
pub proof fn law_channel_is_fifo(pre: ChannelView, record: Record)
    requires
        pre.is_connected(),
        !pre.is_full(),
    ensures
        channel_send(pre, record).0.buffered == pre.buffered.push(record),
        pre.buffered.len() > 0 ==> channel_recv(channel_send(pre, record).0).1
            == RecvOutcome::Received(pre.buffered[0]),
        pre.buffered.len() == 0 ==> channel_recv(channel_send(pre, record).0) == (
            pre,
            RecvOutcome::Received(record),
        ),
{
    if pre.buffered.len() == 0 {
        assert(pre.buffered.push(record).subrange(1, 1) =~= pre.buffered);
    }
}

} // verus!
