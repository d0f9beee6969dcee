//! The bounded queue between the reader of the device and the dispatcher.
//!
//! One producer, one consumer, first in first out. Nothing here waits: where a
//! caller would have to, the outcome says so and the channel is left as it
//! was, so that the caller can suspend and come back with the same event.

use std::collections::VecDeque;
use vstd::prelude::*;
use crate::event::InputEvent;

verus! {

/// How many events the channel holds at most.
pub const CHANNEL_CAPACITY: usize = 32;

/// Mathematical content of an [`EventChannel`].
pub struct ChannelView {
    /// The events that were sent and not yet received, oldest first.
    pub queued: Seq<InputEvent>,
    /// Whether the producer still holds its end.
    pub sender_open: bool,
    /// Whether the consumer still holds its end.
    pub receiver_open: bool,
}

/// How an attempt to send went. An event that was not taken comes back.
#[derive(Clone, Copy, Debug, PartialEq, Eq, Structural)]
pub enum SendOutcome {
    /// The event is queued.
    Sent,
    /// The channel is full: the producer has to wait and send this event again.
    Full(InputEvent),
    /// One of the two ends has been released: this event will never be taken.
    Closed(InputEvent),
}

/// How an attempt to receive went.
#[derive(Clone, Copy, Debug, PartialEq, Eq, Structural)]
pub enum RecvOutcome {
    /// The oldest queued event.
    Event(InputEvent),
    /// Nothing is queued yet: the consumer has to wait.
    Empty,
    /// Nothing is queued and nothing will be: the stream has ended.
    EndOfStream,
}

impl ChannelView {
    /// A channel that is empty and held at both ends.
    pub open spec fn fresh() -> ChannelView {
        ChannelView { queued: Seq::empty(), sender_open: true, receiver_open: true }
    }

    /// Whether the channel holds no more than its capacity.
    pub open spec fn within_capacity(self) -> bool {
        self.queued.len() <= CHANNEL_CAPACITY
    }

    /// Whether both ends are still held.
    pub open spec fn is_open(self) -> bool {
        self.sender_open && self.receiver_open
    }

    /// The channel after an attempt to send `event`, and how the attempt went.
    pub open spec fn send(self, event: InputEvent) -> (ChannelView, SendOutcome) {
        if !self.is_open() {
            (self, SendOutcome::Closed(event))
        } else if self.queued.len() >= CHANNEL_CAPACITY {
            (self, SendOutcome::Full(event))
        } else {
            (ChannelView { queued: self.queued.push(event), ..self }, SendOutcome::Sent)
        }
    }

    /// The channel after an attempt to receive, and how the attempt went.
    /// Queued events are handed out even after an end has been released.
    pub open spec fn receive(self) -> (ChannelView, RecvOutcome) {
        if self.queued.len() > 0 {
            (ChannelView { queued: self.queued.skip(1), ..self }, RecvOutcome::Event(self.queued[0]))
        } else if self.is_open() {
            (self, RecvOutcome::Empty)
        } else {
            (self, RecvOutcome::EndOfStream)
        }
    }
}

/// Bounded first-in-first-out queue of events with a producer's and a
/// consumer's end.
pub struct EventChannel {
    queue: VecDeque<InputEvent>,
    sender_open: bool,
    receiver_open: bool,
}

impl View for EventChannel {
    type V = ChannelView;

    closed spec fn view(&self) -> ChannelView {
        ChannelView {
            queued: self.queue@,
            sender_open: self.sender_open,
            receiver_open: self.receiver_open,
        }
    }
}

impl EventChannel {
    #[verifier::type_invariant]
    spec fn holds_at_most_capacity(self) -> bool {
        self.queue@.len() <= CHANNEL_CAPACITY
    }

    /// Moves the queue out and leaves an empty one in its place.
    fn take_queue(&mut self) -> (queue: VecDeque<InputEvent>)
        ensures
            queue@ == old(self)@.queued,
            queue@.len() <= CHANNEL_CAPACITY,
            final(self)@ == (ChannelView { queued: Seq::empty(), ..old(self)@ }),
    {
        proof {
            use_type_invariant(&*self);
        }
        let mut queue: VecDeque<InputEvent> = VecDeque::new();
        core::mem::swap(&mut self.queue, &mut queue);
        queue
    }

    /// Moves `queue` in, in place of the one that is there.
    fn put_queue(&mut self, queue: VecDeque<InputEvent>)
        requires
            queue@.len() <= CHANNEL_CAPACITY,
        ensures
            final(self)@ == (ChannelView { queued: queue@, ..old(self)@ }),
    {
        let mut queue = queue;
        core::mem::swap(&mut self.queue, &mut queue);
    }

    /// An empty channel, held at both ends.
    pub fn new() -> (channel: EventChannel)
        ensures
            channel@ == ChannelView::fresh(),
    {
        EventChannel { queue: VecDeque::new(), sender_open: true, receiver_open: true }
    }

    /// The number of queued events, never above the capacity.
    pub fn len(&self) -> (n: usize)
        ensures
            n == self@.queued.len(),
            n <= CHANNEL_CAPACITY,
    {
        proof {
            use_type_invariant(self);
        }
        self.queue.len()
    }

    /// Whether nothing is queued.
    pub fn is_empty(&self) -> (empty: bool)
        ensures
            empty == (self@.queued.len() == 0),
    {
        self.queue.len() == 0
    }

    /// Whether a send would have to wait.
    pub fn is_full(&self) -> (full: bool)
        ensures
            full == (self@.queued.len() >= CHANNEL_CAPACITY),
    {
        self.queue.len() >= CHANNEL_CAPACITY
    }

    /// Queues `event` behind the others, unless the channel is full or an end
    /// has been released; then the channel stays as it is and the event comes back.
    pub fn try_send(&mut self, event: InputEvent) -> (outcome: SendOutcome)
        ensures
            (final(self)@, outcome) == old(self)@.send(event),
            final(self)@.within_capacity(),
    {
        proof {
            use_type_invariant(&*self);
        }
        if !self.sender_open || !self.receiver_open {
            SendOutcome::Closed(event)
        } else if self.queue.len() >= CHANNEL_CAPACITY {
            SendOutcome::Full(event)
        } else {
            let mut queue = self.take_queue();
            queue.push_back(event);
            self.put_queue(queue);
            SendOutcome::Sent
        }
    }

    /// Takes the oldest queued event. With nothing queued, says whether more
    /// can come.
    pub fn try_recv(&mut self) -> (outcome: RecvOutcome)
        ensures
            (final(self)@, outcome) == old(self)@.receive(),
            final(self)@.within_capacity(),
    {
        proof {
            use_type_invariant(&*self);
        }
        let mut queue = self.take_queue();
        let oldest = queue.pop_front();
        self.put_queue(queue);
        match oldest {
            Some(event) => RecvOutcome::Event(event),
            None => {
                if self.sender_open && self.receiver_open {
                    RecvOutcome::Empty
                } else {
                    RecvOutcome::EndOfStream
                }
            },
        }
    }

    /// Releases the producer's end. What is queued can still be received.
    pub fn release_sender(&mut self)
        ensures
            final(self)@ == (ChannelView { sender_open: false, ..old(self)@ }),
    {
        proof {
            use_type_invariant(&*self);
        }
        self.sender_open = false;
    }

    /// Releases the consumer's end. From now on every send is refused.
    pub fn release_receiver(&mut self)
        ensures
            final(self)@ == (ChannelView { receiver_open: false, ..old(self)@ }),
    {
        proof {
            use_type_invariant(&*self);
        }
        self.receiver_open = false;
    }
}

/// A burst: the events are sent one after the other until one is not taken.
/// Gives the channel after the burst and the number of events it took.
pub open spec fn burst_spec(channel: ChannelView, events: Seq<InputEvent>) -> (ChannelView, nat)
    decreases events.len(),
{
    if events.len() == 0 {
        (channel, 0)
    } else {
        let (next, outcome) = channel.send(events[0]);
        if outcome == SendOutcome::Sent {
            let (last, taken) = burst_spec(next, events.skip(1));
            (last, taken + 1)
        } else {
            (channel, 0)
        }
    }
}

/// One use of the channel by either end.
pub enum ChannelOp {
    Send(InputEvent),
    Receive,
}

/// What a series of uses has done.
pub struct ChannelRun {
    /// The channel after the last use.
    pub channel: ChannelView,
    /// The events that the channel took from the producer, in sending order.
    pub taken: Seq<InputEvent>,
    /// The events that the channel gave to the consumer, in receiving order.
    pub given: Seq<InputEvent>,
}

/// The uses `ops` made of `channel`, one after the other.
pub open spec fn run_ops(channel: ChannelView, ops: Seq<ChannelOp>) -> ChannelRun
    decreases ops.len(),
{
    if ops.len() == 0 {
        ChannelRun { channel, taken: Seq::empty(), given: Seq::empty() }
    } else {
        let before = run_ops(channel, ops.drop_last());
        match ops.last() {
            ChannelOp::Send(event) => {
                let (after, outcome) = before.channel.send(event);
                ChannelRun {
                    channel: after,
                    taken: if outcome == SendOutcome::Sent {
                        before.taken.push(event)
                    } else {
                        before.taken
                    },
                    given: before.given,
                }
            },
            ChannelOp::Receive => {
                let (after, outcome) = before.channel.receive();
                ChannelRun {
                    channel: after,
                    taken: before.taken,
                    given: match outcome {
                        RecvOutcome::Event(event) => before.given.push(event),
                        _ => before.given,
                    },
                }
            },
        }
    }
}

/// A burst into an open channel takes events as long as there is room and
/// not one more: the events taken are queued behind the others in their
/// order, and the first event beyond the room is refused as `Full` and
/// handed back, with the channel left as it was.
pub proof fn lemma_burst_fills_room(channel: ChannelView, events: Seq<InputEvent>)
    requires
        channel.is_open(),
        channel.within_capacity(),
    ensures
        ({
            let room = CHANNEL_CAPACITY - channel.queued.len();
            let (after, taken) = burst_spec(channel, events);
            &&& taken == if events.len() <= room { events.len() as int } else { room }
            &&& after.queued == channel.queued + events.take(taken as int)
            &&& after.is_open()
            &&& events.len() > room ==> after.send(events[taken as int]) == (
                after,
                SendOutcome::Full(events[taken as int]),
            )
        }),
    decreases events.len(),
{
    let room = CHANNEL_CAPACITY - channel.queued.len();
    let (after, taken) = burst_spec(channel, events);
    if events.len() == 0 {
        assert(channel.queued + events.take(0) =~= channel.queued);
    } else if room == 0 {
        assert(channel.queued + events.take(0) =~= channel.queued);
    } else {
        let next = channel.send(events[0]).0;
        let rest = events.skip(1);
        lemma_burst_fills_room(next, rest);
        let (last, n) = burst_spec(next, rest);
        assert(after == last && taken == n + 1);
        assert(next.queued + rest.take(n as int) =~= channel.queued + events.take(taken as int));
        if events.len() > room {
            assert(rest[n as int] == events[taken as int]);
        }
    }
}

/// A burst of no more than the capacity into a fresh channel goes through
/// without waiting: every event is taken.
pub proof fn lemma_burst_within_capacity(events: Seq<InputEvent>)
    requires
        events.len() <= CHANNEL_CAPACITY,
    ensures
        burst_spec(ChannelView::fresh(), events).1 == events.len(),
        burst_spec(ChannelView::fresh(), events).0.queued == events,
{
    lemma_burst_fills_room(ChannelView::fresh(), events);
    assert(Seq::<InputEvent>::empty() + events.take(events.len() as int) =~= events);
}

/// A burst of more than the capacity into a fresh channel makes the producer
/// wait and drops nothing: the channel takes as many events as it holds, the
/// next one comes back as `Full`, and all that were taken stay queued.
pub proof fn lemma_burst_beyond_capacity(events: Seq<InputEvent>)
    requires
        events.len() > CHANNEL_CAPACITY,
    ensures
        ({
            let (after, taken) = burst_spec(ChannelView::fresh(), events);
            &&& taken == CHANNEL_CAPACITY
            &&& after.queued == events.take(CHANNEL_CAPACITY as int)
            &&& after.send(events[CHANNEL_CAPACITY as int]) == (
                after,
                SendOutcome::Full(events[CHANNEL_CAPACITY as int]),
            )
        }),
{
    lemma_burst_fills_room(ChannelView::fresh(), events);
    assert(Seq::<InputEvent>::empty() + events.take(CHANNEL_CAPACITY as int) =~= events.take(
        CHANNEL_CAPACITY as int,
    ));
}

/// First in, first out, nothing lost and nothing made up: after any series
/// of sends and receives, what was queued at the start followed by what the
/// channel took is what it gave followed by what is still queued. The
/// channel never holds more than its capacity, and an end that was held is
/// still held.
pub proof fn lemma_channel_is_fifo(channel: ChannelView, ops: Seq<ChannelOp>)
    requires
        channel.within_capacity(),
    ensures
        ({
            let run = run_ops(channel, ops);
            &&& channel.queued + run.taken == run.given + run.channel.queued
            &&& run.channel.within_capacity()
            &&& run.channel.sender_open == channel.sender_open
            &&& run.channel.receiver_open == channel.receiver_open
        }),
    decreases ops.len(),
{
    let run = run_ops(channel, ops);
    if ops.len() == 0 {
        assert(channel.queued + run.taken =~= run.given + run.channel.queued);
    } else {
        lemma_channel_is_fifo(channel, ops.drop_last());
        let before = run_ops(channel, ops.drop_last());
        match ops.last() {
            ChannelOp::Send(event) => {
                if before.channel.send(event).1 == SendOutcome::Sent {
                    assert(channel.queued + before.taken.push(event) =~= (channel.queued
                        + before.taken).push(event));
                    assert(before.given + before.channel.queued.push(event) =~= (before.given
                        + before.channel.queued).push(event));
                }
            },
            ChannelOp::Receive => {
                if before.channel.queued.len() > 0 {
                    assert(before.given.push(before.channel.queued[0])
                        + before.channel.queued.skip(1) =~= before.given + before.channel.queued);
                }
            },
        }
    }
}

} // verus!
