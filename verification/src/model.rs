//! The pipeline as a whole, and what holds of every run of it.
//!
//! The state of a pipeline is its allowlist, its threshold, its channel and
//! the events that the consumer has printed so far. A run is a sequence of
//! steps, in the order in which they took effect: a module is allowed or
//! disallowed, a call site submits an event, the consumer takes one step, or
//! the pipeline is shut down. Each step changes the state as the operation of
//! the same name in this crate changes its part of it.

use vstd::prelude::*;
use crate::channel::ChannelState;
use crate::event::LogEvent;
use crate::filter::allowed_by;
use crate::pipeline::{admitted, after_submit};
use crate::severity::Threshold;

verus! {

/// The state of a pipeline.
#[verifier::ext_equal]
pub struct PipelineState {
    /// The modules that may log.
    pub allowlist: Set<Seq<char>>,
    /// The least urgent severity that is let through.
    pub threshold: Threshold,
    /// The hand-off between call sites and consumer.
    pub channel: ChannelState,
    /// The events that the consumer has printed, first to last.
    pub printed: Seq<LogEvent>,
    /// Whether the pipeline was shut down.
    pub stopped: bool,
}

/// One step of a run.
pub enum Step {
    /// `AdmissionFilter::allow`.
    Allow(Seq<char>),
    /// `AdmissionFilter::disallow`.
    Disallow(Seq<char>),
    /// `submit`. A call site that finds the channel full submits again
    /// later, which is another step.
    Log(LogEvent),
    /// `consume`, with the line printed where one comes back.
    Consume,
    /// `Coordinator::shutdown`, followed by waiting for the consumer, which
    /// goes on taking steps until the channel is empty.
    Shutdown,
}

impl PipelineState {
    /// Whether submitting `event` in this state puts it into the channel.
    pub open spec fn takes(self, event: LogEvent) -> bool {
        admitted(self.allowlist, self.threshold, event@.severity, event@.module)
            && self.channel.accepts()
    }

    /// The state after one step of the consumer: the oldest pending event, if
    /// there is one, leaves the channel and is printed.
    pub open spec fn consumed(self) -> PipelineState {
        if self.channel.queue.len() > 0 {
            PipelineState {
                channel: self.channel.after_receive(),
                printed: self.printed.push(self.channel.queue[0]),
                ..self
            }
        } else {
            self
        }
    }

    /// The state once the consumer has taken steps until nothing is pending.
    pub open spec fn drained(self) -> PipelineState
        decreases self.channel.queue.len(),
    {
        if self.channel.queue.len() > 0 {
            self.consumed().drained()
        } else {
            self
        }
    }

    /// The state after `step`.
    pub open spec fn after(self, step: Step) -> PipelineState {
        match step {
            Step::Allow(module) => PipelineState {
                allowlist: self.allowlist.insert(module),
                ..self
            },
            Step::Disallow(module) => PipelineState {
                allowlist: self.allowlist.remove(module),
                ..self
            },
            Step::Log(event) => PipelineState {
                channel: after_submit(self.allowlist, self.threshold, self.channel, event),
                ..self
            },
            Step::Consume => self.consumed(),
            Step::Shutdown => PipelineState {
                stopped: true,
                ..(PipelineState { channel: self.channel.after_close(), ..self }).drained()
            },
        }
    }

    /// The state after all of `steps`, first to last.
    pub open spec fn after_all(self, steps: Seq<Step>) -> PipelineState
        decreases steps.len(),
    {
        if steps.len() == 0 {
            self
        } else {
            self.after_all(steps.drop_last()).after(steps.last())
        }
    }

    /// The events that `steps` put into the channel, in the order in which
    /// they were accepted.
    pub open spec fn enqueued_by(self, steps: Seq<Step>) -> Seq<LogEvent>
        decreases steps.len(),
    {
        if steps.len() == 0 {
            Seq::empty()
        } else {
            let earlier = self.enqueued_by(steps.drop_last());
            match steps.last() {
                Step::Log(event) => if self.after_all(steps.drop_last()).takes(event) {
                    earlier.push(event)
                } else {
                    earlier
                },
                _ => earlier,
            }
        }
    }

    /// Draining prints the pending events in their order and leaves the
    /// channel empty; nothing else changes.
    pub proof fn lemma_drained(self)
        ensures
            self.drained() == (PipelineState {
                channel: ChannelState { queue: Seq::empty(), ..self.channel },
                printed: self.printed + self.channel.queue,
                ..self
            }),
        decreases self.channel.queue.len(),
    {
        if self.channel.queue.len() > 0 {
            self.consumed().lemma_drained();
        }
    }

    /// Shutdown closes the channel and prints every pending event, oldest
    /// first: when it returns, nothing that was sent before is left
    /// unprinted. Allowlist and threshold stay as they are.
    pub proof fn lemma_shutdown_flushes(self)
        ensures
            self.after(Step::Shutdown) == (PipelineState {
                channel: ChannelState { queue: Seq::empty(), closed: true, ..self.channel },
                printed: self.printed + self.channel.queue,
                stopped: true,
                ..self
            }),
            self.after(Step::Shutdown).channel.finished(),
    {
        (PipelineState { channel: self.channel.after_close(), ..self }).lemma_drained();
    }

    /// Shutting down twice is the same as shutting down once.
    pub proof fn lemma_shutdown_idempotent(self)
        ensures
            self.after(Step::Shutdown).after(Step::Shutdown) == self.after(Step::Shutdown),
    {
        let once = self.after(Step::Shutdown);
        self.lemma_shutdown_flushes();
        once.lemma_shutdown_flushes();
    }

    /// No step changes the threshold.
    pub proof fn lemma_threshold_is_fixed(self, steps: Seq<Step>)
        ensures
            self.after_all(steps).threshold == self.threshold,
        decreases steps.len(),
    {
        if steps.len() > 0 {
            let before = self.after_all(steps.drop_last());
            self.lemma_threshold_is_fixed(steps.drop_last());
            before.lemma_shutdown_flushes();
        }
    }

    /// First in, first out, nothing lost and nothing twice: at any point of a
    /// run, what was printed, followed by what is pending, is what was there
    /// at the start followed by the events that the channel accepted, in the
    /// order in which it accepted them. So the events of one call site are
    /// printed in the order in which it sent them.
    pub proof fn lemma_printed_in_order(self, steps: Seq<Step>)
        ensures
            self.after_all(steps).printed + self.after_all(steps).channel.queue == self.printed
                + self.channel.queue + self.enqueued_by(steps),
        decreases steps.len(),
    {
        if steps.len() > 0 {
            let before = self.after_all(steps.drop_last());
            let earlier = self.printed + self.channel.queue + self.enqueued_by(steps.drop_last());
            self.lemma_printed_in_order(steps.drop_last());
            match steps.last() {
                Step::Log(event) => {
                    if before.takes(event) {
                        assert(self.printed + self.channel.queue + self.enqueued_by(steps)
                            =~= earlier.push(event));
                    }
                },
                Step::Shutdown => {
                    before.lemma_shutdown_flushes();
                },
                _ => {},
            }
        }
    }

    /// Once the channel is closed and empty, nothing is printed any more,
    /// whatever is tried.
    pub proof fn lemma_silent_once_finished(self, steps: Seq<Step>)
        requires
            self.channel.finished(),
        ensures
            self.after_all(steps).printed == self.printed,
            self.after_all(steps).channel == self.channel,
        decreases steps.len(),
    {
        if steps.len() > 0 {
            let before = self.after_all(steps.drop_last());
            self.lemma_silent_once_finished(steps.drop_last());
            before.lemma_shutdown_flushes();
        }
    }

    /// After a shutdown, every event that the channel had accepted has been
    /// printed exactly once, in order, and nothing further is printed,
    /// whatever steps come before and after the shutdown.
    pub proof fn lemma_shutdown_is_final(self, before: Seq<Step>, after: Seq<Step>)
        ensures
            self.after_all(before).after(Step::Shutdown).after_all(after).printed == self.printed
                + self.channel.queue + self.enqueued_by(before),
            self.enqueued_by(before + seq![Step::Shutdown] + after) == self.enqueued_by(before),
    {
        let reached = self.after_all(before);
        let down = reached.after(Step::Shutdown);
        self.lemma_printed_in_order(before);
        reached.lemma_shutdown_flushes();
        down.lemma_silent_once_finished(after);
        self.lemma_run_in_two(before + seq![Step::Shutdown], after);
        self.lemma_run_in_two(before, seq![Step::Shutdown]);
        assert(seq![Step::Shutdown].drop_last() =~= Seq::<Step>::empty());
        assert(reached.enqueued_by(seq![Step::Shutdown]) =~= Seq::<LogEvent>::empty()) by {
            assert(reached.enqueued_by(Seq::<Step>::empty()) =~= Seq::<LogEvent>::empty());
        }
        down.lemma_nothing_enqueued_once_closed(after);
    }

    /// A run in two parts is the run of the second part from where the first
    /// part ended, and accepts the events of both parts.
    pub proof fn lemma_run_in_two(self, first: Seq<Step>, second: Seq<Step>)
        ensures
            self.after_all(first + second) == self.after_all(first).after_all(second),
            self.enqueued_by(first + second) == self.enqueued_by(first) + self.after_all(
                first,
            ).enqueued_by(second),
        decreases second.len(),
    {
        if second.len() > 0 {
            assert((first + second).drop_last() =~= first + second.drop_last());
            self.lemma_run_in_two(first, second.drop_last());
        }
    }

    /// A closed channel accepts nothing, and stays closed.
    pub proof fn lemma_nothing_enqueued_once_closed(self, steps: Seq<Step>)
        requires
            self.channel.closed,
        ensures
            self.enqueued_by(steps) == Seq::<LogEvent>::empty(),
            self.after_all(steps).channel.closed,
        decreases steps.len(),
    {
        if steps.len() > 0 {
            let before = self.after_all(steps.drop_last());
            self.lemma_nothing_enqueued_once_closed(steps.drop_last());
            before.lemma_shutdown_flushes();
        }
    }

    /// The channel is bounded: in every run that starts with a well-formed
    /// channel, the channel never holds more events than it has room for.
    pub proof fn lemma_channel_stays_bounded(self, steps: Seq<Step>)
        requires
            self.channel.well_formed(),
        ensures
            self.after_all(steps).channel.well_formed(),
            self.after_all(steps).channel.capacity == self.channel.capacity,
        decreases steps.len(),
    {
        if steps.len() > 0 {
            self.lemma_channel_stays_bounded(steps.drop_last());
            self.after_all(steps.drop_last()).lemma_shutdown_flushes();
        }
    }

    /// Backpressure: an open channel without room turns an admitted event
    /// away and keeps what it holds. Once the consumer has taken one step the
    /// event is accepted, and it is printed after everything that was pending
    /// before it.
    pub proof fn lemma_room_after_consume(self, event: LogEvent)
        requires
            self.channel.well_formed(),
            !self.channel.closed,
            self.channel.queue.len() == self.channel.capacity,
            admitted(self.allowlist, self.threshold, event@.severity, event@.module),
        ensures
            self.after(Step::Log(event)) == self,
            self.after(Step::Consume).takes(event),
            self.after(Step::Consume).after(Step::Log(event)).after(Step::Shutdown).printed
                == self.printed + self.channel.queue + seq![event],
    {
        let sent = self.after(Step::Consume).after(Step::Log(event));
        sent.lemma_shutdown_flushes();
        assert(sent.printed + sent.channel.queue =~= self.printed + self.channel.queue + seq![event]);
    }

    /// An event that is less urgent than the threshold leaves no trace: it is
    /// never enqueued and so never printed.
    pub proof fn lemma_below_threshold_is_dropped(self, event: LogEvent)
        requires
            event@.severity.rank() > self.threshold.rank(),
        ensures
            self.after(Step::Log(event)) == self,
            !self.takes(event),
    {
    }

    /// Every event that a run puts into the channel passes the threshold.
    pub proof fn lemma_enqueued_pass_threshold(self, steps: Seq<Step>, i: int)
        requires
            0 <= i < self.enqueued_by(steps).len(),
        ensures
            self.enqueued_by(steps)[i]@.severity.rank() <= self.threshold.rank(),
        decreases steps.len(),
    {
        if steps.len() > 0 {
            let earlier = self.enqueued_by(steps.drop_last());
            self.lemma_threshold_is_fixed(steps.drop_last());
            if i < earlier.len() {
                self.lemma_enqueued_pass_threshold(steps.drop_last(), i);
            }
        }
    }

    /// An event exactly at the threshold, from an allowed module, submitted
    /// while the channel has room, is printed: at the latest when the
    /// pipeline is shut down, after everything that was pending before it.
    pub proof fn lemma_at_threshold_is_printed(self, event: LogEvent)
        requires
            event@.severity.rank() == self.threshold.rank(),
            allowed_by(self.allowlist, event@.module),
            self.channel.accepts(),
        ensures
            self.takes(event),
            self.after(Step::Log(event)).after(Step::Shutdown).printed == self.printed
                + self.channel.queue + seq![event],
    {
        let sent = self.after(Step::Log(event));
        sent.lemma_shutdown_flushes();
    }
}

} // verus!
