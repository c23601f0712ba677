//! The bounded first-in-first-out hand-off between call sites and the
//! consumer.
//!
//! A `Channel` is the state of the hand-off and nothing more: no operation
//! ever waits. Where a blocking channel would make the sender wait, `try_send`
//! gives the event back, and where it would make the consumer wait,
//! `try_recv` says so; the caller waits and tries again.

use std::collections::VecDeque;
use vstd::prelude::*;
use crate::event::LogEvent;

verus! {

/// The number of pending events that a channel holds unless told otherwise.
pub const DEFAULT_CAPACITY: usize = 100;

/// The state of a channel: the pending events, oldest first, the number of
/// events it has room for, and whether it was closed.
#[verifier::ext_equal]
pub struct ChannelState {
    pub queue: Seq<LogEvent>,
    pub capacity: nat,
    pub closed: bool,
}

impl ChannelState {
    /// Every channel has room for at least one event and never holds more
    /// than it has room for.
    pub open spec fn well_formed(self) -> bool {
        1 <= self.capacity && self.queue.len() <= self.capacity
    }

    /// An open channel without pending events.
    pub open spec fn fresh(capacity: nat) -> ChannelState {
        ChannelState { queue: Seq::empty(), capacity, closed: false }
    }

    /// Whether a send would succeed: the channel is open and has room.
    pub open spec fn accepts(self) -> bool {
        !self.closed && self.queue.len() < self.capacity
    }

    /// Whether the consumer is done: the channel is closed and empty.
    pub open spec fn finished(self) -> bool {
        self.closed && self.queue.len() == 0
    }

    /// The state after an attempt to send `event`: the event goes to the end
    /// of the queue if the channel accepts it, else nothing changes.
    pub open spec fn after_send(self, event: LogEvent) -> ChannelState {
        if self.accepts() {
            ChannelState { queue: self.queue.push(event), ..self }
        } else {
            self
        }
    }

    /// The state after an attempt to receive: the oldest pending event leaves
    /// the queue, if there is one.
    pub open spec fn after_receive(self) -> ChannelState {
        if self.queue.len() > 0 {
            ChannelState { queue: self.queue.drop_first(), ..self }
        } else {
            self
        }
    }

    /// The state after closing: pending events stay where they are.
    pub open spec fn after_close(self) -> ChannelState {
        ChannelState { closed: true, ..self }
    }

    /// A new channel is well formed, and sending, receiving and closing keep
    /// a channel well formed: it never holds more than it has room for.
    pub proof fn lemma_stays_well_formed(self, event: LogEvent)
        requires
            self.well_formed(),
        ensures
            self.capacity >= 1 ==> ChannelState::fresh(self.capacity).well_formed(),
            self.after_send(event).well_formed(),
            self.after_receive().well_formed(),
            self.after_close().well_formed(),
    {
    }
}

/// Why an event was not enqueued. The event comes back to the sender.
#[derive(Debug)]
pub enum SendError {
    /// The channel is open but has no room: a blocking sender waits.
    Full(LogEvent),
    /// The channel was closed: the event will never be accepted.
    Closed(LogEvent),
}

/// What an attempt to receive found.
#[derive(Debug)]
pub enum Received {
    /// The oldest pending event, now taken out of the channel.
    Event(LogEvent),
    /// Nothing is pending, but the channel is open: the consumer waits.
    Empty,
    /// Nothing is pending and the channel is closed: the consumer is done.
    Finished,
}

/// A bounded queue of log events with a closed flag. Every channel has room
/// for at least one event and never holds more events than it has room for.
#[derive(Debug)]
pub struct Channel {
    queue: VecDeque<LogEvent>,
    capacity: usize,
    closed: bool,
}

impl View for Channel {
    type V = ChannelState;

    closed spec fn view(&self) -> ChannelState {
        ChannelState { queue: self.queue@, capacity: self.capacity as nat, closed: self.closed }
    }
}

impl Channel {
    #[verifier::type_invariant]
    spec fn bounded(self) -> bool {
        1 <= self.capacity && self.queue@.len() <= self.capacity
    }

    /// An open, empty channel with room for `capacity` events, or `None` for
    /// a capacity of zero, with which no event could ever be sent.
    pub fn new(capacity: usize) -> (r: Option<Channel>)
        ensures
            capacity == 0 ==> r is None,
            capacity > 0 ==> r is Some && r->0@ == ChannelState::fresh(capacity as nat),
    {
        if capacity == 0 {
            None
        } else {
            Some(Channel { queue: VecDeque::new(), capacity, closed: false })
        }
    }

    /// An open, empty channel with room for `DEFAULT_CAPACITY` events.
    pub fn with_default_capacity() -> (r: Channel)
        ensures
            r@ == ChannelState::fresh(DEFAULT_CAPACITY as nat),
    {
        Channel { queue: VecDeque::new(), capacity: DEFAULT_CAPACITY, closed: false }
    }

    /// The number of events that the channel has room for.
    pub fn capacity(&self) -> (r: usize)
        ensures
            r == self@.capacity,
            self@.well_formed(),
    {
        proof {
            use_type_invariant(self);
        }
        self.capacity
    }

    /// The number of pending events.
    pub fn len(&self) -> (r: usize)
        ensures
            r == self@.queue.len(),
            self@.well_formed(),
    {
        proof {
            use_type_invariant(self);
        }
        self.queue.len()
    }

    /// Whether no event is pending.
    pub fn is_empty(&self) -> (r: bool)
        ensures
            r == (self@.queue.len() == 0),
    {
        self.queue.len() == 0
    }

    /// Whether the channel holds as many events as it has room for.
    pub fn is_full(&self) -> (r: bool)
        ensures
            r == (self@.queue.len() == self@.capacity),
            r == !(self@.queue.len() < self@.capacity),
    {
        proof {
            use_type_invariant(self);
        }
        self.queue.len() == self.capacity
    }

    /// Whether the channel was closed.
    pub fn is_closed(&self) -> (r: bool)
        ensures
            r == self@.closed,
    {
        self.closed
    }

    /// Whether the consumer is done: the channel is closed and empty.
    pub fn is_finished(&self) -> (r: bool)
        ensures
            r == self@.finished(),
    {
        self.closed && self.queue.len() == 0
    }

    /// Tries to enqueue `event` without waiting. A closed channel refuses it
    /// with `Closed`, an open one without room with `Full`; both give the
    /// event back and change nothing. Otherwise the event becomes the newest
    /// pending one.
    pub fn try_send(&mut self, event: LogEvent) -> (r: Result<(), SendError>)
        ensures
            final(self)@ == old(self)@.after_send(event),
            old(self)@.closed ==> r == Err::<(), SendError>(SendError::Closed(event)),
            !old(self)@.closed && !old(self)@.accepts() ==> r == Err::<(), SendError>(
                SendError::Full(event),
            ),
            old(self)@.accepts() ==> r is Ok,
            final(self)@.well_formed(),
    {
        proof {
            use_type_invariant(&*self);
        }
        if self.closed {
            Err(SendError::Closed(event))
        } else if self.queue.len() >= self.capacity {
            Err(SendError::Full(event))
        } else {
            let mut queue: VecDeque<LogEvent> = VecDeque::new();
            core::mem::swap(&mut self.queue, &mut queue);
            queue.push_back(event);
            core::mem::swap(&mut self.queue, &mut queue);
            Ok(())
        }
    }

    /// Takes the oldest pending event out of the channel, if there is one;
    /// closing does not take pending events away. Without a pending event the
    /// answer is `Finished` for a closed channel and `Empty` for an open one.
    pub fn try_recv(&mut self) -> (r: Received)
        ensures
            final(self)@ == old(self)@.after_receive(),
            old(self)@.queue.len() > 0 ==> r == Received::Event(old(self)@.queue[0]),
            old(self)@.queue.len() == 0 && old(self)@.closed ==> r == Received::Finished,
            old(self)@.queue.len() == 0 && !old(self)@.closed ==> r == Received::Empty,
            final(self)@.well_formed(),
    {
        proof {
            use_type_invariant(&*self);
        }
        let mut queue: VecDeque<LogEvent> = VecDeque::new();
        core::mem::swap(&mut self.queue, &mut queue);
        let oldest = queue.pop_front();
        core::mem::swap(&mut self.queue, &mut queue);
        match oldest {
            Some(event) => {
                Received::Event(event)
            },
            None => {
                if self.closed {
                    Received::Finished
                } else {
                    Received::Empty
                }
            },
        }
    }

    /// Closes the channel: from now on every send is refused, while the
    /// pending events stay to be received. Closing a closed channel changes
    /// nothing.
    pub fn close(&mut self)
        ensures
            final(self)@ == old(self)@.after_close(),
            final(self)@.well_formed(),
    {
        proof {
            use_type_invariant(&*self);
        }
        self.closed = true;
    }
}

} // verus!
