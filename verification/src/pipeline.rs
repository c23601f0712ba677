//! The decisions of the pipeline, one step at a time.
//!
//! A call site submits an event; the consumer asks what to do next; the
//! shutdown coordinator closes the channel and says whether the consumer is
//! still to be waited for. None of these waits or prints: the caller does
//! what the answer says and comes back.

use vstd::prelude::*;
use crate::channel::{Channel, ChannelState, Received, SendError};
use crate::event::LogEvent;
use crate::filter::{allowed_by, covers, AdmissionFilter};
use crate::render::{format_event, is_colored_line};
use crate::severity::{Severity, Threshold};

verus! {

/// Whether an event of the given severity from the given module is to be
/// forwarded: its severity passes the threshold and its module is allowed.
pub open spec fn admitted(
    allowlist: Set<Seq<char>>,
    threshold: Threshold,
    severity: Severity,
    module: Seq<char>,
) -> bool {
    threshold.lets_through(severity) && allowed_by(allowlist, module)
}

/// Where the threshold lets the severity through, admission is the rule of
/// the allowlist and nothing else: the target is an entry, or it starts with
/// an entry and the separator. Where the threshold stops the severity,
/// nothing is admitted.
pub proof fn lemma_admitted_by_allowlist(
    allowlist: Set<Seq<char>>,
    threshold: Threshold,
    severity: Severity,
    target: Seq<char>,
)
    ensures
        threshold.lets_through(severity) ==> (admitted(allowlist, threshold, severity, target)
            <==> exists|entry: Seq<char>|
            allowlist.contains(entry) && #[trigger] covers(entry, target)),
        forall|entry: Seq<char>|
            #[trigger] covers(entry, target) <==> (target == entry || (entry + seq![
                ':',
                ':',
            ]).is_prefix_of(target)),
        !threshold.lets_through(severity) ==> !admitted(allowlist, threshold, severity, target),
        Threshold::Trace.lets_through(severity),
{
}

/// The channel after a call site submitted `event`: an event that is not
/// admitted leaves no trace, an admitted one is sent.
pub open spec fn after_submit(
    allowlist: Set<Seq<char>>,
    threshold: Threshold,
    channel: ChannelState,
    event: LogEvent,
) -> ChannelState {
    if admitted(allowlist, threshold, event@.severity, event@.module) {
        channel.after_send(event)
    } else {
        channel
    }
}

/// What became of a submitted event.
#[derive(Debug)]
pub enum Submission {
    /// The event was not admitted and is dropped; this is no error.
    Rejected,
    /// The event is in the channel and will be printed.
    Enqueued,
    /// The channel has no room. The event comes back; the call site waits
    /// until the consumer has made room and submits it again.
    Blocked(LogEvent),
    /// The channel was closed. The event comes back and will never be
    /// accepted.
    Closed(LogEvent),
}

/// The answer that `submit` gives.
pub open spec fn submission_of(
    allowlist: Set<Seq<char>>,
    threshold: Threshold,
    channel: ChannelState,
    event: LogEvent,
) -> Submission {
    if !admitted(allowlist, threshold, event@.severity, event@.module) {
        Submission::Rejected
    } else if channel.closed {
        Submission::Closed(event)
    } else if !channel.accepts() {
        Submission::Blocked(event)
    } else {
        Submission::Enqueued
    }
}

/// What the consumer does next.
#[derive(Debug)]
pub enum ConsumerAction {
    /// Write this line to the output, then ask again.
    Print(String),
    /// Nothing is pending: wait for a send or for the close, then ask again.
    Wait,
    /// The channel is closed and empty: stop.
    Exit,
}

/// What the caller of `shutdown` does after the call.
#[derive(Clone, Copy, Debug, PartialEq, Eq, Structural)]
pub enum ShutdownAction {
    /// Wait until the consumer has printed what was pending and has stopped.
    JoinConsumer,
    /// An earlier call has taken care of the consumer: nothing is left to do.
    Nothing,
}

/// Whether an event of the given severity from the given module is to be
/// forwarded.
pub fn is_admitted(filter: &AdmissionFilter, threshold: Threshold, severity: Severity, module: &str) -> (r:
    bool)
    ensures
        r == admitted(filter@, threshold, severity, module@),
{
    threshold.admits(severity) && filter.is_allowed(module)
}

/// Submits an event for printing. An event that is not admitted is dropped
/// and nothing changes. An admitted event is sent: it becomes the newest
/// pending event, or comes back because the channel has no room or was
/// closed.
pub fn submit(
    filter: &AdmissionFilter,
    threshold: Threshold,
    channel: &mut Channel,
    event: LogEvent,
) -> (r: Submission)
    ensures
        final(channel)@ == after_submit(filter@, threshold, old(channel)@, event),
        r == submission_of(filter@, threshold, old(channel)@, event),
{
    if !is_admitted(filter, threshold, event.severity(), event.module()) {
        return Submission::Rejected;
    }
    match channel.try_send(event) {
        Ok(()) => Submission::Enqueued,
        Err(SendError::Full(event)) => Submission::Blocked(event),
        Err(SendError::Closed(event)) => Submission::Closed(event),
    }
}

/// One step of the consumer: takes the oldest pending event out of the
/// channel and hands back its line, or says that nothing is pending. The
/// consumer stops on `Exit`, which comes exactly when the channel is closed
/// and empty.
pub fn consume(channel: &mut Channel) -> (r: ConsumerAction)
    ensures
        final(channel)@ == old(channel)@.after_receive(),
        old(channel)@.queue.len() > 0 ==> (r matches ConsumerAction::Print(line) && is_colored_line(
            line@,
            old(channel)@.queue[0]@,
        )),
        old(channel)@.queue.len() == 0 && !old(channel)@.closed ==> r is Wait,
        old(channel)@.finished() <==> r is Exit,
{
    match channel.try_recv() {
        Received::Event(event) => ConsumerAction::Print(format_event(&event)),
        Received::Empty => ConsumerAction::Wait,
        Received::Finished => ConsumerAction::Exit,
    }
}

/// Remembers whether the pipeline was shut down, so that the consumer is
/// waited for exactly once however often `shutdown` is called.
#[derive(Debug)]
pub struct Coordinator {
    stopped: bool,
}

impl Coordinator {
    /// Whether `shutdown` was called.
    pub closed spec fn stopped(&self) -> bool {
        self.stopped
    }

    /// The coordinator of a running pipeline.
    pub fn new() -> (r: Coordinator)
        ensures
            !r.stopped(),
    {
        Coordinator { stopped: false }
    }

    /// Whether `shutdown` was called.
    pub fn is_stopped(&self) -> (r: bool)
        ensures
            r == self.stopped(),
    {
        self.stopped
    }

    /// Shuts the pipeline down: closes the channel, so that no further event
    /// is accepted and the consumer stops once it has printed what is
    /// pending. The first call answers `JoinConsumer`; every later call
    /// changes nothing and answers `Nothing`.
    pub fn shutdown(&mut self, channel: &mut Channel) -> (r: ShutdownAction)
        ensures
            final(self).stopped(),
            final(channel)@ == old(channel)@.after_close(),
            r == if old(self).stopped() {
                ShutdownAction::Nothing
            } else {
                ShutdownAction::JoinConsumer
            },
    {
        channel.close();
        if self.stopped {
            ShutdownAction::Nothing
        } else {
            self.stopped = true;
            ShutdownAction::JoinConsumer
        }
    }
}

} // verus!
