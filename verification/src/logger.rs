//! The pipeline in one piece, for a single thread of control.
//!
//! An `AsyncLogger` owns the admission filter, the threshold, the channel and
//! the shutdown coordinator, and steps through a run exactly as
//! `PipelineState` describes it. A program that runs call sites and consumer
//! on threads of their own takes the logger apart with `into_parts` and puts
//! each part behind the lock that suits it.

use vstd::prelude::*;
use crate::channel::{Channel, DEFAULT_CAPACITY};
use crate::event::LogEvent;
use crate::filter::{allowed_by, AdmissionFilter};
use crate::model::{PipelineState, Step};
use crate::pipeline::{
    consume,
    submit,
    submission_of,
    ConsumerAction,
    Coordinator,
    Submission,
};
use crate::render::is_colored_line;
use crate::severity::{Severity, Threshold};

verus! {

/// The state of a new pipeline: nothing pending, nothing printed, open.
pub open spec fn initial_state(allowlist: Set<Seq<char>>, threshold: Threshold, capacity: nat) -> PipelineState {
    PipelineState {
        allowlist,
        threshold,
        channel: crate::channel::ChannelState::fresh(capacity),
        printed: Seq::empty(),
        stopped: false,
    }
}

/// A log pipeline: filter, threshold, channel and coordinator.
pub struct AsyncLogger {
    filter: AdmissionFilter,
    threshold: Threshold,
    channel: Channel,
    coordinator: Coordinator,
    printed: Ghost<Seq<LogEvent>>,
}

impl View for AsyncLogger {
    type V = PipelineState;

    closed spec fn view(&self) -> PipelineState {
        PipelineState {
            allowlist: self.filter@,
            threshold: self.threshold,
            channel: self.channel@,
            printed: self.printed@,
            stopped: self.coordinator.stopped(),
        }
    }
}

impl AsyncLogger {
    /// A pipeline that allows no module yet, lets every severity through and
    /// has room for `DEFAULT_CAPACITY` pending events.
    pub fn new() -> (r: AsyncLogger)
        ensures
            r@ == initial_state(Set::empty(), Threshold::Trace, DEFAULT_CAPACITY as nat),
    {
        AsyncLogger {
            filter: AdmissionFilter::new(),
            threshold: Threshold::Trace,
            channel: Channel::with_default_capacity(),
            coordinator: Coordinator::new(),
            printed: Ghost(Seq::empty()),
        }
    }

    /// A pipeline with the given threshold and room for `capacity` pending
    /// events, or `None` for a capacity of zero.
    pub fn with_settings(threshold: Threshold, capacity: usize) -> (r: Option<AsyncLogger>)
        ensures
            capacity == 0 ==> r is None,
            capacity > 0 ==> r is Some && r->0@ == initial_state(
                Set::empty(),
                threshold,
                capacity as nat,
            ),
    {
        match Channel::new(capacity) {
            Some(channel) => Some(
                AsyncLogger {
                    filter: AdmissionFilter::new(),
                    threshold,
                    channel,
                    coordinator: Coordinator::new(),
                    printed: Ghost(Seq::empty()),
                },
            ),
            None => None,
        }
    }

    /// Allows `module` and everything below it to log.
    pub fn whitelist_module(&mut self, module: &str)
        ensures
            final(self)@ == old(self)@.after(Step::Allow(module@)),
    {
        self.filter.allow(module);
    }

    /// Takes `module` off the allowlist.
    pub fn disallow_module(&mut self, module: &str)
        ensures
            final(self)@ == old(self)@.after(Step::Disallow(module@)),
    {
        self.filter.disallow(module);
    }

    /// Whether `module` may log: it is on the allowlist, or a module above it
    /// is. The severity plays no part in the answer. Whether an event is
    /// forwarded depends on the threshold as well, which `log` applies.
    pub fn enabled(&self, severity: Severity, module: &str) -> (r: bool)
        ensures
            r == allowed_by(self@.allowlist, module@),
    {
        self.filter.is_allowed(module)
    }

    /// The threshold of this pipeline.
    pub fn threshold(&self) -> (r: Threshold)
        ensures
            r == self@.threshold,
    {
        self.threshold
    }

    /// Submits an event, as `submit` does.
    pub fn log(&mut self, event: LogEvent) -> (r: Submission)
        ensures
            final(self)@ == old(self)@.after(Step::Log(event)),
            r == submission_of(old(self)@.allowlist, old(self)@.threshold, old(self)@.channel, event),
    {
        submit(&self.filter, self.threshold, &mut self.channel, event)
    }

    /// One step of the consumer, as `consume` does. A line that comes back
    /// counts as printed.
    pub fn consume(&mut self) -> (r: ConsumerAction)
        ensures
            final(self)@ == old(self)@.after(Step::Consume),
            old(self)@.channel.queue.len() > 0 ==> (r matches ConsumerAction::Print(line)
                && is_colored_line(line@, old(self)@.channel.queue[0]@)),
            old(self)@.channel.queue.len() == 0 && !old(self)@.channel.closed ==> r is Wait,
            old(self)@.channel.finished() <==> r is Exit,
    {
        let ghost pending = self.channel@.queue;
        let r = consume(&mut self.channel);
        proof {
            if pending.len() > 0 {
                self.printed = Ghost(self.printed@.push(pending[0]));
            }
        }
        r
    }

    /// Shuts the pipeline down: closes the channel and takes out every
    /// pending event. The lines of these events come back, oldest first, for
    /// the caller to print. After that nothing is accepted and nothing comes
    /// out any more; a second call hands back no line.
    pub fn shutdown(&mut self) -> (lines: Vec<String>)
        ensures
            final(self)@ == old(self)@.after(Step::Shutdown),
            lines@.len() == old(self)@.channel.queue.len(),
            forall|i: int|
                0 <= i < lines@.len() ==> is_colored_line(
                    (#[trigger] lines@[i])@,
                    old(self)@.channel.queue[i]@,
                ),
    {
        let ghost start = self@;
        let ghost closed = PipelineState { channel: start.channel.after_close(), ..start };
        self.coordinator.shutdown(&mut self.channel);
        let mut lines: Vec<String> = Vec::new();
        loop
            invariant
                self@.allowlist == start.allowlist,
                self@.threshold == start.threshold,
                self@.stopped,
                self@.channel.closed,
                self@.channel.capacity == start.channel.capacity,
                self@.printed + self@.channel.queue == start.printed + start.channel.queue,
                lines@.len() + self@.channel.queue.len() == start.channel.queue.len(),
                forall|i: int|
                    0 <= i < self@.channel.queue.len() ==> self@.channel.queue[i]
                        == start.channel.queue[lines@.len() + i],
                forall|i: int|
                    0 <= i < lines@.len() ==> is_colored_line(
                        (#[trigger] lines@[i])@,
                        start.channel.queue[i]@,
                    ),
            ensures
                self@.channel.queue.len() == 0,
            decreases self@.channel.queue.len(),
        {
            let ghost before = self@;
            match consume(&mut self.channel) {
                ConsumerAction::Print(line) => {
                    proof {
                        self.printed = Ghost(self.printed@.push(before.channel.queue[0]));
                    }
                    lines.push(line);
                },
                _ => {
                    break ;
                },
            }
        }
        proof {
            closed.lemma_drained();
        }
        lines
    }

    /// Whether the pipeline was shut down.
    pub fn is_stopped(&self) -> (r: bool)
        ensures
            r == self@.stopped,
    {
        self.coordinator.is_stopped()
    }

    /// Takes the pipeline apart, for a program that keeps each part behind a
    /// lock of its own.
    pub fn into_parts(self) -> (r: (AdmissionFilter, Threshold, Channel, Coordinator))
        ensures
            r.0@ == self@.allowlist,
            r.1 == self@.threshold,
            r.2@ == self@.channel,
            r.3.stopped() == self@.stopped,
    {
        (self.filter, self.threshold, self.channel, self.coordinator)
    }
}

/// Sets a pipeline up for a program: the threshold is read from `level`, the
/// text of the program's configuration (empty where none is set), and falls
/// back to everything in a permissive build and to `Info` otherwise; the
/// program's own crate is allowed to log.
pub fn init(crate_name: &str, level: &str, permissive: bool) -> (r: AsyncLogger)
    ensures
        r@ == initial_state(
            set![crate_name@],
            match Threshold::parsed(level@) {
                Some(t) => t,
                None => Threshold::fallback(permissive),
            },
            DEFAULT_CAPACITY as nat,
        ),
{
    let threshold = Threshold::resolve(level, permissive);
    let mut logger = AsyncLogger {
        filter: AdmissionFilter::new(),
        threshold,
        channel: Channel::with_default_capacity(),
        coordinator: Coordinator::new(),
        printed: Ghost(Seq::empty()),
    };
    logger.whitelist_module(crate_name);
    logger
}

} // verus!
