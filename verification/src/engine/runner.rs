//! The run loop's decisions as a state machine.
//!
//! The caller asks for the next step, produces and sends the message it names,
//! reports how that went, and pauses when told to. Reading the clock for the
//! time limit, producing payloads, sending and pausing happen outside.
use vstd::prelude::*;

use crate::config::model::Config;
use crate::device::context::DeviceContext;
use crate::device::pool::{is_pool_device, next_cursor, DevicePool, DevicePoolView};
use crate::error::MerError;
use crate::payload::clock::{
    can_stamp, clock_config_ok, clock_from_config, stamp_step, SimClock, SimClockView, Timestamp,
};
use crate::protocols::sender::SendResult;
use crate::report::metrics::Metrics;

verus! {

/// What the run does next.
#[derive(Debug)]
pub enum RunStep {
    /// Every message has been handled.
    Finished,
    /// The time limit was reached after `sent` messages; the run stops.
    DurationLimitReached { sent: usize },
    /// Produce the payload of message `seq` for `device`, stamped `ts`, and send it.
    Send { device: DeviceContext, seq: usize, ts: Timestamp },
}

/// How one message went.
#[derive(Debug, Clone, Copy, PartialEq, Eq, Structural)]
pub enum MessageOutcome {
    /// Its payload could not be produced; nothing was sent.
    PayloadFailed,
    /// It was delivered, `bytes` long.
    Delivered { bytes: usize },
    /// Sending it failed or the transport reported a failure.
    SendFailed,
}

/// The outcome a transport's report stands for.
pub fn outcome_of(report: &SendResult) -> (res: MessageOutcome)
    ensures
        res == (if report.success {
            MessageOutcome::Delivered { bytes: report.bytes_sent }
        } else {
            MessageOutcome::SendFailed
        }),
{
    if report.success {
        MessageOutcome::Delivered { bytes: report.bytes_sent }
    } else {
        MessageOutcome::SendFailed
    }
}

/// The state of a run.
pub struct RunStateView {
    pub total: nat,
    pub duration_secs: Option<u64>,
    pub interval_ms: u64,
    /// Messages handled so far; also the sequence number of the next one.
    pub handled: nat,
    pub pool: DevicePoolView,
    pub clock: SimClockView,
    pub metrics: Metrics,
    /// A message was handed out and its outcome is not reported yet.
    pub in_flight: bool,
    /// The time limit stopped the run.
    pub stopped: bool,
}

/// A run in progress.
pub struct RunState {
    total: usize,
    duration_secs: Option<u64>,
    interval_ms: u64,
    /// The messages handled so far and their counters, which change together.
    progress: (usize, Metrics),
    pool: DevicePool,
    clock: SimClock,
    in_flight: bool,
    stopped: bool,
}

impl View for RunState {
    type V = RunStateView;

    closed spec fn view(&self) -> RunStateView {
        RunStateView {
            total: self.total as nat,
            duration_secs: self.duration_secs,
            interval_ms: self.interval_ms,
            handled: self.progress.0 as nat,
            pool: self.pool@,
            clock: self.clock@,
            metrics: self.progress.1,
            in_flight: self.in_flight,
            stopped: self.stopped,
        }
    }
}

/// Whether the time limit has been reached after `elapsed_secs` whole seconds.
pub open spec fn limit_reached(duration_secs: Option<u64>, elapsed_secs: u64) -> bool {
    duration_secs matches Some(d) && elapsed_secs >= d
}

/// Counting law of a run: every message handled so far is counted once, either
/// as a success or as a failure, and every failure as an error.
pub open spec fn counts_consistent(s: RunStateView) -> bool {
    &&& s.metrics.wf()
    &&& s.metrics.total_sent == s.handled
}

/// Whether the next step hands out a message.
pub open spec fn sends_next(s: RunStateView, elapsed_secs: u64) -> bool {
    !s.stopped && s.handled < s.total && !limit_reached(s.duration_secs, elapsed_secs)
}

impl RunState {
    /// Every handled message is counted once, as a success or as a failure; the
    /// pool has a device whenever there is a message to send.
    pub closed spec fn wf(&self) -> bool {
        &&& self.progress.0 <= self.total
        &&& self.total > 0 ==> self.pool@.devices.len() > 0
        &&& self.progress.1.wf()
        &&& self.progress.1.total_sent == self.progress.0
        &&& self.in_flight ==> self.progress.0 < self.total
        &&& self.in_flight ==> !self.stopped
    }

    /// A run of the messages a configuration asks for, with its devices and clock.
    pub fn begin(config: &Config) -> (res: Result<Self, MerError>)
        requires
            config.device.count > 0 || config.run.total_messages == 0,
        ensures
            res is Ok <==> clock_config_ok(config.time),
            res matches Ok(r) ==> {
                &&& r.wf()
                &&& r@.total == config.run.total_messages
                &&& r@.duration_secs == config.run.duration_secs
                &&& r@.interval_ms == config.run.interval_ms
                &&& counts_consistent(r@)
                &&& r@.handled == 0
                &&& r@.pool.devices.len() == config.device.count
                &&& forall|i: int|
                    0 <= i < config.device.count ==> is_pool_device(
                        #[trigger] r@.pool.devices[i],
                        config.device.id_prefix@,
                        i,
                    )
                &&& r@.pool.cursor == 0
                &&& clock_from_config(config.time, r@.clock)
                &&& r@.metrics.is_zero()
                &&& !r@.in_flight
                &&& !r@.stopped
            },
    {
        let pool = DevicePool::new(config.device.count, config.device.id_prefix.as_str());
        let clock = SimClock::from_config(&config.time)?;
        Ok(
            RunState {
                total: config.run.total_messages,
                duration_secs: config.run.duration_secs,
                interval_ms: config.run.interval_ms,
                progress: (0, Metrics::new()),
                pool,
                clock,
                in_flight: false,
                stopped: false,
            },
        )
    }

    /// Whether the next step, after `elapsed_secs` whole seconds, hands out a message.
    pub fn sends_next(&self, elapsed_secs: u64) -> (res: bool)
        ensures
            res == sends_next(self@, elapsed_secs),
    {
        let limit = match self.duration_secs {
            Some(d) => elapsed_secs >= d,
            None => false,
        };
        !self.stopped && self.progress.0 < self.total && !limit
    }

    /// Whether the clock can stamp the next message.
    pub fn clock_ready(&self) -> (res: bool)
        ensures
            res == can_stamp(self@.clock, self@.handled),
    {
        self.clock.can_stamp(self.progress.0)
    }

    /// The next step, `elapsed_secs` whole seconds into the run. When it hands out a
    /// message, the message takes the pool's next device, the next sequence number
    /// and the clock's stamp for that number.
    pub fn next_step(&mut self, elapsed_secs: u64) -> (res: RunStep)
        requires
            old(self).wf(),
            !old(self)@.in_flight,
            sends_next(old(self)@, elapsed_secs) ==> can_stamp(old(self)@.clock, old(self)@.handled),
        ensures
            final(self).wf(),
            counts_consistent(final(self)@),
            final(self)@.total == old(self)@.total,
            final(self)@.duration_secs == old(self)@.duration_secs,
            final(self)@.handled == old(self)@.handled,
            final(self)@.metrics == old(self)@.metrics,
            final(self)@.pool.devices == old(self)@.pool.devices,
            (old(self)@.stopped || old(self)@.handled >= old(self)@.total) ==> {
                &&& res is Finished
                &&& final(self)@ == old(self)@
            },
            (!old(self)@.stopped && old(self)@.handled < old(self)@.total && limit_reached(
                old(self)@.duration_secs,
                elapsed_secs,
            )) ==> {
                &&& res == (RunStep::DurationLimitReached { sent: old(self)@.handled as usize })
                &&& final(self)@.stopped
                &&& !final(self)@.in_flight
                &&& final(self)@.pool == old(self)@.pool
                &&& final(self)@.clock == old(self)@.clock
            },
            sends_next(old(self)@, elapsed_secs) ==> {
                &&& res matches RunStep::Send { device, seq, ts } && device == old(self)@.pool.devices[old(self)@.pool.cursor as int]
                    && seq == old(self)@.handled && stamp_step(
                    old(self)@.clock,
                    final(self)@.clock,
                    old(self)@.handled,
                    ts,
                )
                &&& final(self)@.pool.cursor == next_cursor(
                    old(self)@.pool.cursor,
                    old(self)@.pool.devices.len(),
                )
                &&& final(self)@.in_flight
                &&& !final(self)@.stopped
            },
    {
        if self.stopped || self.progress.0 >= self.total {
            return RunStep::Finished;
        }
        if let Some(d) = self.duration_secs {
            if elapsed_secs >= d {
                self.stopped = true;
                return RunStep::DurationLimitReached { sent: self.progress.0 };
            }
        }
        let device = self.pool.next().clone();
        let seq = self.progress.0;
        let ts = self.clock.timestamp(seq);
        self.in_flight = true;
        RunStep::Send { device, seq, ts }
    }

    /// Like `next_step`, but answers `None`, changing nothing, where the clock
    /// cannot stamp the message it would hand out.
    pub fn try_next_step(&mut self, elapsed_secs: u64) -> (res: Option<RunStep>)
        requires
            old(self).wf(),
            !old(self)@.in_flight,
        ensures
            final(self).wf(),
            res is None <==> (sends_next(old(self)@, elapsed_secs) && !can_stamp(
                old(self)@.clock,
                old(self)@.handled,
            )),
            res is None ==> final(self)@ == old(self)@,
    {
        if self.sends_next(elapsed_secs) && !self.clock_ready() {
            return None;
        }
        Some(self.next_step(elapsed_secs))
    }

    /// Records how the message handed out went. Answers whether to pause before the
    /// next message: after a message that was sent, unless it was the last one.
    pub fn finish_message(&mut self, outcome: MessageOutcome) -> (pause: bool)
        requires
            old(self).wf(),
            old(self)@.in_flight,
        ensures
            final(self).wf(),
            counts_consistent(final(self)@),
            !final(self)@.in_flight,
            final(self)@.handled == old(self)@.handled + 1,
            final(self)@.total == old(self)@.total,
            final(self)@.duration_secs == old(self)@.duration_secs,
            final(self)@.stopped == old(self)@.stopped,
            final(self)@.pool == old(self)@.pool,
            final(self)@.clock == old(self)@.clock,
            pause == (outcome != MessageOutcome::PayloadFailed && old(self)@.handled + 1
                < old(self)@.total),
            match outcome {
                MessageOutcome::Delivered { bytes } => {
                    &&& final(self)@.metrics.total_success == old(self)@.metrics.total_success + 1
                    &&& final(self)@.metrics.total_failed == old(self)@.metrics.total_failed
                    &&& final(self)@.metrics.total_bytes == vstd::wrapping::u64_specs::wrapping_add(
                        old(self)@.metrics.total_bytes,
                        bytes as u64,
                    )
                },
                _ => {
                    &&& final(self)@.metrics.total_success == old(self)@.metrics.total_success
                    &&& final(self)@.metrics.total_failed == old(self)@.metrics.total_failed + 1
                    &&& final(self)@.metrics.total_bytes == old(self)@.metrics.total_bytes
                },
            },
    {
        let (was, mut metrics) = self.progress;
        match outcome {
            MessageOutcome::Delivered { bytes } => metrics.record_success(bytes),
            _ => metrics.record_failure(),
        }
        self.in_flight = false;
        self.progress = (was + 1, metrics);
        outcome != MessageOutcome::PayloadFailed && was + 1 < self.total
    }

    /// The pause between messages, in milliseconds.
    pub fn interval_ms(&self) -> (res: u64)
        ensures
            res == self@.interval_ms,
    {
        self.interval_ms
    }

    /// The counters of the run so far.
    pub fn metrics(&self) -> (res: Metrics)
        ensures
            res == self@.metrics,
    {
        self.progress.1
    }

    /// The number of messages the run is to send.
    pub fn total(&self) -> (res: usize)
        ensures
            res == self@.total,
    {
        self.total
    }

    /// The payload key the timestamp is written under.
    pub fn time_field(&self) -> (res: &str)
        ensures
            res@ == self@.clock.field,
    {
        self.clock.field()
    }
}

} // verus!
