//! The streaming scheduler: the state machine of one session. It decides,
//! from its state and from what the device just did, what the caller does
//! next; the caller performs the device calls and hands their outcomes back.

use crate::burst::BurstFlags;
use crate::clock::{ClockCursor, ClockModel};
use crate::config::{Direction, StreamConfig};
use crate::transfer::{failure_of, interpret, Completion, TransferFailure, TransferResult};
use vstd::prelude::*;

verus! {

/// Time budget of one receive call, in milliseconds.
pub const RX_TIMEOUT_MS: u32 = 10_000;

/// Time budget of one transmit call, in milliseconds.
pub const TX_TIMEOUT_MS: u32 = 1_000;

/// Where a session stands.
#[derive(Clone, Copy, Debug, PartialEq, Eq, Structural)]
pub enum Phase {
    /// Nothing has happened yet.
    Idle,
    /// The RF parameters are being applied.
    Configuring,
    /// Transfers are running; one is outstanding.
    Streaming,
    /// The session ended in good order.
    Stopped,
    /// The session ended on a fatal error.
    Faulted,
}

/// The fatal errors of a session.
#[derive(Clone, Copy, Debug, PartialEq, Eq, Structural)]
pub enum StreamError {
    /// A one-time setup call failed.
    Configuration,
    /// A transfer call failed.
    Transfer(TransferFailure),
}

/// What the caller reports to the scheduler.
#[derive(Clone, Copy, Debug, PartialEq, Eq, Structural)]
pub enum Event {
    /// The session is to begin.
    Start,
    /// Setup succeeded and the module is enabled; the device's clock reads
    /// `initial_timestamp`.
    Configured { initial_timestamp: u64 },
    /// A setup call failed.
    ConfigurationFailed,
    /// The outstanding transfer call returned.
    Transferred(Completion),
    /// The session is to stop before its next transfer.
    StopRequested,
}

/// One blocking transfer for the caller to issue.
#[derive(Clone, Copy, Debug, PartialEq, Eq, Structural)]
pub enum TransferRequest {
    /// Fill the caller's buffer with `frame_count` samples.
    Receive { timestamp: u64, frame_count: u32, timeout_ms: u32 },
    /// Send `frame_count` samples of the caller's payload, framed by `flags`.
    Transmit { timestamp: u64, frame_count: u32, flags: BurstFlags, timeout_ms: u32 },
}

impl TransferRequest {
    /// The timestamp at which the transfer is scheduled.
    pub open spec fn scheduled_at(self) -> u64 {
        match self {
            TransferRequest::Receive { timestamp, .. } => timestamp,
            TransferRequest::Transmit { timestamp, .. } => timestamp,
        }
    }

    /// The timestamp at which the transfer is scheduled.
    pub fn timestamp(&self) -> (t: u64)
        ensures
            t == self.scheduled_at(),
    {
        match self {
            TransferRequest::Receive { timestamp, .. } => *timestamp,
            TransferRequest::Transmit { timestamp, .. } => *timestamp,
        }
    }
}

/// What the caller does next.
#[derive(Clone, Copy, Debug, PartialEq, Eq, Structural)]
pub enum Action {
    /// Apply the RF parameters, enable the module, read the device's clock.
    Configure,
    /// Issue this transfer.
    Transfer(TransferRequest),
    /// Disable the module: the session is complete.
    Finish,
    /// Disable the module and tear the session down: it failed.
    Abort(StreamError),
    /// Nothing: the event does not apply where the session stands.
    Ignore,
}

/// The scheduler's answer to one event.
#[derive(Clone, Copy, Debug, PartialEq, Eq, Structural)]
pub struct Step {
    /// The outcome of the transfer that the event reported, if it reported
    /// one to a streaming session.
    pub result: Option<TransferResult>,
    /// What to do next.
    pub action: Action,
}

/// A session as plain values and unbounded numbers.
pub struct SchedulerModel {
    pub direction: Direction,
    pub sample_rate: nat,
    pub frame_count: u32,
    /// The number of transfers of a bounded session; `None` for one that runs
    /// until it is stopped or fails.
    pub limit: Option<nat>,
    pub sync_interval: nat,
    pub drift_margin: nat,
    pub phase: Phase,
    /// The clock cursor, present from the moment streaming begins.
    pub clock: Option<ClockModel>,
    /// Transfer requests handed out so far.
    pub issued: nat,
    /// Transfers that came back with samples, all or some.
    pub completed: nat,
    /// The error that ended the session, if one did.
    pub fault: Option<StreamError>,
}

impl SchedulerModel {
    /// A session that has not begun.
    pub open spec fn idle(
        direction: Direction,
        sample_rate: nat,
        frame_count: u32,
        limit: Option<nat>,
        sync_interval: nat,
        drift_margin: nat,
    ) -> SchedulerModel {
        SchedulerModel {
            direction,
            sample_rate,
            frame_count,
            limit,
            sync_interval,
            drift_margin,
            phase: Phase::Idle,
            clock: None,
            issued: 0,
            completed: 0,
            fault: None,
        }
    }

    /// Whether the event applies where the session stands.
    pub open spec fn accepts(self, event: Event) -> bool {
        match event {
            Event::Start => self.phase is Idle,
            Event::Configured { .. } | Event::ConfigurationFailed => self.phase is Configuring,
            Event::Transferred(_) | Event::StopRequested => self.phase is Streaming,
        }
    }

    /// Whether the session's budget allows one more transfer.
    pub open spec fn has_budget(self) -> bool {
        match self.limit {
            Some(n) => self.issued < n,
            None => true,
        }
    }

    /// The session after it decided on its next transfer: with budget left
    /// the clock advances and one more request is handed out, without it the
    /// session stops.
    pub open spec fn proceed(self) -> SchedulerModel {
        if self.has_budget() {
            SchedulerModel {
                phase: Phase::Streaming,
                clock: Some(self.clock->0.advance(self.sample_rate)),
                issued: self.issued + 1,
                ..self
            }
        } else {
            SchedulerModel { phase: Phase::Stopped, ..self }
        }
    }

    /// The session after `event`. An event that does not apply changes
    /// nothing.
    pub open spec fn step(self, event: Event) -> SchedulerModel {
        if !self.accepts(event) {
            self
        } else {
            match event {
                Event::Start => SchedulerModel { phase: Phase::Configuring, ..self },
                Event::ConfigurationFailed => SchedulerModel {
                    phase: Phase::Faulted,
                    fault: Some(StreamError::Configuration),
                    ..self
                },
                Event::Configured { initial_timestamp } => (SchedulerModel {
                    clock: Some(
                        ClockModel::seeded(
                            initial_timestamp as nat,
                            self.sync_interval,
                            self.drift_margin,
                        ),
                    ),
                    ..self
                }).proceed(),
                Event::Transferred(completion) => if completion.failed() {
                    SchedulerModel {
                        phase: Phase::Faulted,
                        fault: Some(StreamError::Transfer(completion.failure()->0)),
                        ..self
                    }
                } else {
                    (SchedulerModel {
                        clock: Some(self.clock->0.observe(completion.timestamp as nat)),
                        completed: self.completed + 1,
                        ..self
                    }).proceed()
                },
                Event::StopRequested => SchedulerModel { phase: Phase::Stopped, ..self },
            }
        }
    }

    /// The transfer that a streaming session has outstanding: scheduled at
    /// the clock's timestamp, for one frame count, and a transmit exactly
    /// where the burst framer gives it flags.
    pub open spec fn request(self) -> TransferRequest {
        match BurstFlags::framing(self.direction) {
            None => TransferRequest::Receive {
                timestamp: self.clock->0.current as u64,
                frame_count: self.frame_count,
                timeout_ms: RX_TIMEOUT_MS,
            },
            Some(flags) => TransferRequest::Transmit {
                timestamp: self.clock->0.current as u64,
                frame_count: self.frame_count,
                flags,
                timeout_ms: TX_TIMEOUT_MS,
            },
        }
    }

    /// What the caller is told to do after `event`.
    pub open spec fn action(self, event: Event) -> Action {
        if !self.accepts(event) {
            Action::Ignore
        } else {
            let next = self.step(event);
            match next.phase {
                Phase::Idle => Action::Ignore,
                Phase::Configuring => Action::Configure,
                Phase::Streaming => Action::Transfer(next.request()),
                Phase::Stopped => Action::Finish,
                Phase::Faulted => Action::Abort(next.fault->0),
            }
        }
    }

    /// The transfer outcome that `event` reports to a streaming session.
    pub open spec fn report(self, event: Event) -> Option<TransferResult> {
        match event {
            Event::Transferred(completion) => if self.phase is Streaming {
                Some(completion.result(self.frame_count))
            } else {
                None
            },
            _ => None,
        }
    }

    /// Every number of the session fits in 64 bits.
    pub open spec fn representable(self) -> bool {
        &&& self.issued <= u64::MAX
        &&& self.clock matches Some(clock) ==> clock.next_resync <= u64::MAX
    }

    /// The completion of the outstanding transfer when the device does
    /// exactly as asked: the call succeeds in full, at the scheduled
    /// timestamp.
    pub open spec fn echo(self) -> Completion {
        Completion {
            status_code: 0,
            status_flags: 0,
            actual_count: self.frame_count,
            timestamp: self.clock->0.current as u64,
        }
    }

    /// The session after `transfers` transfers in a row came back exactly as
    /// asked.
    pub open spec fn after_echoes(self, transfers: nat) -> SchedulerModel
        decreases transfers,
    {
        if transfers == 0 {
            self
        } else {
            let before = self.after_echoes((transfers - 1) as nat);
            before.step(Event::Transferred(before.echo()))
        }
    }

    /// The session after the outstanding transfer and each one after it
    /// returned as `completions` say, in order.
    pub open spec fn feed(self, completions: Seq<Completion>) -> SchedulerModel
        decreases completions.len(),
    {
        if completions.len() == 0 {
            self
        } else {
            self.feed(completions.drop_last()).step(Event::Transferred(completions.last()))
        }
    }
}

/// The scheduler of one streaming session.
#[derive(Debug)]
pub struct Scheduler<'a> {
    config: &'a StreamConfig,
    unbounded: bool,
    sync_interval: u64,
    drift_margin: u64,
    phase: Phase,
    clock: Option<ClockCursor>,
    issued: u64,
    completed: u64,
    fault: Option<StreamError>,
}

impl<'a> View for Scheduler<'a> {
    type V = SchedulerModel;

    closed spec fn view(&self) -> SchedulerModel {
        SchedulerModel {
            direction: self.config@.direction,
            sample_rate: self.config@.sample_rate as nat,
            frame_count: self.config@.frame_count,
            limit: if self.unbounded {
                None
            } else {
                Some(self.config@.iteration_count as nat)
            },
            sync_interval: self.sync_interval as nat,
            drift_margin: self.drift_margin as nat,
            phase: self.phase,
            clock: match self.clock {
                Some(cursor) => Some(cursor@),
                None => None,
            },
            issued: self.issued as nat,
            completed: self.completed as nat,
            fault: self.fault,
        }
    }
}

impl<'a> Scheduler<'a> {
    /// The configuration that the session runs under.
    pub closed spec fn configuration(&self) -> &StreamConfig {
        self.config
    }

    /// The invariant of a scheduler: a valid configuration and a positive
    /// resync interval; a clock exactly from the moment streaming began, with
    /// the session's interval and margin; one transfer outstanding while
    /// streaming and none otherwise; a bounded session within its budget; a
    /// fault exactly when faulted.
    pub closed spec fn wf(&self) -> bool {
        &&& self.config.wf()
        &&& self.sync_interval > 0
        &&& (self.phase is Idle || self.phase is Configuring) ==> self.clock is None && self.issued
            == 0
        &&& self.phase is Streaming ==> self.clock is Some && self.issued == self.completed + 1
        &&& !(self.phase is Streaming) ==> self.issued == self.completed || self.issued
            == self.completed + 1
        &&& self.clock matches Some(cursor) ==> cursor@.sync_interval == self.sync_interval
            && cursor@.drift_margin == self.drift_margin
        &&& !self.unbounded ==> self.issued <= self.config@.iteration_count
        &&& self.phase is Faulted <==> self.fault is Some
    }

    /// Whether the session after `event` still fits in 64 bits, so that
    /// `step` may be called with it.
    pub open spec fn admits(&self, event: Event) -> bool {
        self@.step(event).representable()
    }

    /// A scheduler for a session under `config`, not yet begun. A bounded
    /// session makes `iteration_count` transfers; an unbounded one runs until
    /// it is stopped or fails.
    pub fn new(config: &'a StreamConfig, sync_interval: u64, drift_margin: u64, unbounded: bool) -> (s:
        Scheduler<'a>)
        requires
            config.wf(),
            sync_interval > 0,
        ensures
            s.wf(),
            s.configuration() == config,
            s@ == SchedulerModel::idle(
                config@.direction,
                config@.sample_rate as nat,
                config@.frame_count,
                if unbounded {
                    None
                } else {
                    Some(config@.iteration_count as nat)
                },
                sync_interval as nat,
                drift_margin as nat,
            ),
    {
        Scheduler {
            config,
            unbounded,
            sync_interval,
            drift_margin,
            phase: Phase::Idle,
            clock: None,
            issued: 0,
            completed: 0,
            fault: None,
        }
    }

    /// Tells whether the session's budget allows one more transfer.
    fn budget_left(&self) -> (left: bool)
        ensures
            left == self@.has_budget(),
    {
        self.unbounded || self.issued < self.config.iteration_count()
    }

    /// Tells whether `step` may be called with `event`.
    pub fn can_step(&self, event: &Event) -> (ok: bool)
        requires
            self.wf(),
        ensures
            ok == self.admits(*event),
    {
        proof {
            if let Some(cursor) = self.clock {
                cursor.fits();
            }
        }
        match event {
            Event::Configured { initial_timestamp } => {
                if self.phase != Phase::Configuring {
                    true
                } else {
                    self.sync_interval <= u64::MAX - *initial_timestamp
                }
            },
            Event::Transferred(completion) => {
                if self.phase != Phase::Streaming || completion.status_code != 0 {
                    true
                } else {
                    let cursor = self.clock.unwrap();
                    if !cursor.accepts(completion.timestamp) {
                        false
                    } else {
                        !self.unbounded || self.issued < u64::MAX
                    }
                }
            },
            _ => true,
        }
    }

    /// Takes one event if the session after it fits in 64 bits, and leaves
    /// the session untouched if it does not.
    pub fn try_step(&mut self, event: Event) -> (out: Option<Step>)
        requires
            old(self).wf(),
        ensures
            final(self).wf(),
            final(self).configuration() == old(self).configuration(),
            out is Some <==> old(self).admits(event),
            out matches Some(step) ==> final(self)@ == old(self)@.step(event) && step.action
                == old(self)@.action(event) && step.result == old(self)@.report(event),
            out is None ==> final(self)@ == old(self)@,
    {
        if self.can_step(&event) {
            Some(self.step(event))
        } else {
            None
        }
    }

    /// Where the session stands.
    pub fn phase(&self) -> (phase: Phase)
        ensures
            phase == self@.phase,
    {
        self.phase
    }

    /// The clock cursor, once streaming has begun.
    pub fn clock(&self) -> (clock: Option<ClockCursor>)
        ensures
            clock is Some <==> self@.clock is Some,
            clock matches Some(cursor) ==> cursor@ == self@.clock->0,
    {
        self.clock
    }

    /// The number of transfer requests handed out so far.
    pub fn transfers_issued(&self) -> (n: u64)
        ensures
            n == self@.issued,
    {
        self.issued
    }

    /// The number of transfers that came back with samples, all or some.
    pub fn transfers_completed(&self) -> (n: u64)
        ensures
            n == self@.completed,
    {
        self.completed
    }

    /// The error that ended the session, if one did.
    pub fn fault(&self) -> (fault: Option<StreamError>)
        ensures
            fault == self@.fault,
    {
        self.fault
    }

    /// The configuration that the session runs under.
    pub fn config(&self) -> (config: &StreamConfig)
        ensures
            config == self.configuration(),
    {
        self.config
    }

    /// Builds the request for the transfer at `timestamp`.
    fn request_at(&self, timestamp: u64) -> (request: TransferRequest)
        requires
            self.clock matches Some(cursor) && cursor@.current == timestamp,
        ensures
            request == self@.request(),
    {
        match BurstFlags::frame(self.config.direction()) {
            None => TransferRequest::Receive {
                timestamp,
                frame_count: self.config.frame_count(),
                timeout_ms: RX_TIMEOUT_MS,
            },
            Some(flags) => TransferRequest::Transmit {
                timestamp,
                frame_count: self.config.frame_count(),
                flags,
                timeout_ms: TX_TIMEOUT_MS,
            },
        }
    }

    /// Decides on the next transfer of a session whose clock is up to date.
    fn proceed(&mut self) -> (action: Action)
        requires
            old(self).config.wf(),
            old(self).clock is Some,
            old(self)@.proceed().representable(),
        ensures
            final(self)@ == old(self)@.proceed(),
            final(self).config == old(self).config,
            final(self).unbounded == old(self).unbounded,
            final(self).sync_interval == old(self).sync_interval,
            final(self).drift_margin == old(self).drift_margin,
            final(self).completed == old(self).completed,
            final(self).fault == old(self).fault,
            final(self).clock is Some,
            final(self).clock->0@.sync_interval == old(self).clock->0@.sync_interval,
            final(self).clock->0@.drift_margin == old(self).clock->0@.drift_margin,
            final(self).phase is Streaming || final(self).phase is Stopped,
            final(self).phase is Streaming ==> final(self).issued == old(self).issued + 1
                && action == Action::Transfer(final(self)@.request()),
            final(self).phase is Stopped ==> final(self).issued == old(self).issued && action
                == Action::Finish,
    {
        if self.budget_left() {
            let mut cursor = self.clock.unwrap();
            let timestamp = cursor.advance(self.config.sample_rate());
            self.clock = Some(cursor);
            self.issued = self.issued + 1;
            self.phase = Phase::Streaming;
            Action::Transfer(self.request_at(timestamp))
        } else {
            self.phase = Phase::Stopped;
            Action::Finish
        }
    }

    /// Takes one event and answers with what the caller does next.
    pub fn step(&mut self, event: Event) -> (out: Step)
        requires
            old(self).wf(),
            old(self).admits(event),
        ensures
            final(self).wf(),
            final(self).configuration() == old(self).configuration(),
            final(self)@ == old(self)@.step(event),
            out.action == old(self)@.action(event),
            out.result == old(self)@.report(event),
    {
        match event {
            Event::Start => {
                if self.phase == Phase::Idle {
                    self.phase = Phase::Configuring;
                    Step { result: None, action: Action::Configure }
                } else {
                    Step { result: None, action: Action::Ignore }
                }
            },
            Event::ConfigurationFailed => {
                if self.phase == Phase::Configuring {
                    self.phase = Phase::Faulted;
                    self.fault = Some(StreamError::Configuration);
                    Step { result: None, action: Action::Abort(StreamError::Configuration) }
                } else {
                    Step { result: None, action: Action::Ignore }
                }
            },
            Event::Configured { initial_timestamp } => {
                if self.phase == Phase::Configuring {
                    self.clock = Some(
                        ClockCursor::seed(initial_timestamp, self.sync_interval, self.drift_margin),
                    );
                    let action = self.proceed();
                    Step { result: None, action }
                } else {
                    Step { result: None, action: Action::Ignore }
                }
            },
            Event::Transferred(completion) => {
                if self.phase == Phase::Streaming {
                    let result = interpret(completion, self.config.frame_count());
                    match failure_of(completion) {
                        Some(failure) => {
                            let error = StreamError::Transfer(failure);
                            self.phase = Phase::Faulted;
                            self.fault = Some(error);
                            Step { result: Some(result), action: Action::Abort(error) }
                        },
                        None => {
                            let mut cursor = self.clock.unwrap();
                            cursor.observe(completion.timestamp);
                            self.clock = Some(cursor);
                            self.completed = self.completed + 1;
                            let action = self.proceed();
                            Step { result: Some(result), action }
                        },
                    }
                } else {
                    Step { result: None, action: Action::Ignore }
                }
            },
            Event::StopRequested => {
                if self.phase == Phase::Streaming {
                    self.phase = Phase::Stopped;
                    Step { result: None, action: Action::Finish }
                } else {
                    Step { result: None, action: Action::Ignore }
                }
            },
        }
    }
}

/// Every completion of `completions` reports a call that succeeded, with or
/// without an overrun.
pub open spec fn all_succeed(completions: Seq<Completion>) -> bool {
    forall|i: int| 0 <= i < completions.len() ==> !(#[trigger] completions[i]).failed()
}

/// Where a bounded session stands after its first `completions.len()`
/// transfers all succeeded: still streaming with one more request out while
/// the budget lasts, stopped once it is used up.
proof fn successes_follow_the_budget(
    start: SchedulerModel,
    initial_timestamp: u64,
    budget: nat,
    completions: Seq<Completion>,
)
    requires
        start.phase is Idle,
        start.issued == 0,
        start.completed == 0,
        start.fault is None,
        start.limit == Some(budget),
        completions.len() <= budget,
        all_succeed(completions),
    ensures
        ({
            let end = start.step(Event::Start).step(Event::Configured { initial_timestamp }).feed(
                completions,
            );
            &&& end.limit == Some(budget)
            &&& end.fault is None
            &&& end.completed == completions.len()
            &&& completions.len() < budget ==> end.phase is Streaming && end.issued
                == completions.len() + 1
            &&& completions.len() == budget ==> end.phase is Stopped && end.issued == budget
        }),
    decreases completions.len(),
{
    if completions.len() > 0 {
        successes_follow_the_budget(start, initial_timestamp, budget, completions.drop_last());
    }
}

/// A bounded session whose transfers all succeed issues exactly as many
/// transfers as its budget says, completes each of them, and then stands
/// stopped without a fault.
pub proof fn bounded_session_spends_its_budget(
    start: SchedulerModel,
    initial_timestamp: u64,
    completions: Seq<Completion>,
)
    requires
        start.phase is Idle,
        start.issued == 0,
        start.completed == 0,
        start.fault is None,
        start.limit == Some(completions.len()),
        all_succeed(completions),
    ensures
        ({
            let end = start.step(Event::Start).step(Event::Configured { initial_timestamp }).feed(
                completions,
            );
            &&& end.phase is Stopped
            &&& end.issued == completions.len()
            &&& end.completed == completions.len()
            &&& end.fault is None
        }),
{
    successes_follow_the_budget(start, initial_timestamp, completions.len(), completions);
}

/// A bounded session whose transfer number `completions.len()` is the first
/// to fail has issued exactly that many transfers, and stands faulted with the
/// failure of that call.
pub proof fn failed_transfer_ends_the_session(
    start: SchedulerModel,
    initial_timestamp: u64,
    budget: nat,
    completions: Seq<Completion>,
)
    requires
        start.phase is Idle,
        start.issued == 0,
        start.completed == 0,
        start.fault is None,
        start.limit == Some(budget),
        1 <= completions.len() <= budget,
        all_succeed(completions.drop_last()),
        completions.last().failed(),
    ensures
        ({
            let end = start.step(Event::Start).step(Event::Configured { initial_timestamp }).feed(
                completions,
            );
            &&& end.phase is Faulted
            &&& end.issued == completions.len()
            &&& end.completed == completions.len() - 1
            &&& end.fault == Some(StreamError::Transfer(completions.last().failure()->0))
        }),
{
    successes_follow_the_budget(start, initial_timestamp, budget, completions.drop_last());
}

/// Where a steady bounded session stands after `transfers` transfers came
/// back exactly as asked: its clock one margin further for each transfer
/// handed out, and stopped once the budget is used up.
proof fn steady_session_keeps_its_pace(
    start: SchedulerModel,
    initial_timestamp: u64,
    budget: nat,
    transfers: nat,
)
    requires
        start.phase is Idle,
        start.issued == 0,
        start.completed == 0,
        start.fault is None,
        start.limit == Some(budget),
        budget * start.drift_margin + start.sample_rate < start.sync_interval,
        initial_timestamp + start.sync_interval <= u64::MAX,
        transfers <= budget,
    ensures
        ({
            let end = start.step(Event::Start).step(
                Event::Configured { initial_timestamp },
            ).after_echoes(transfers);
            let seeded = ClockModel::seeded(
                initial_timestamp as nat,
                start.sync_interval,
                start.drift_margin,
            );
            &&& end.limit == Some(budget)
            &&& end.sync_interval == start.sync_interval
            &&& end.drift_margin == start.drift_margin
            &&& end.sample_rate == start.sample_rate
            &&& end.fault is None
            &&& end.completed == transfers
            &&& end.clock == Some(
                ClockModel {
                    current: (initial_timestamp + end.issued * start.drift_margin) as nat,
                    ..seeded
                },
            )
            &&& transfers < budget ==> end.phase is Streaming && end.issued == transfers + 1
            &&& transfers == budget ==> end.phase is Stopped && end.issued == budget
        }),
    decreases transfers,
{
    let margin = start.drift_margin;
    if transfers == 0 {
        assert(0 * margin == 0 && 1 * margin == margin) by (nonlinear_arith);
        assert(budget >= 1 ==> margin <= budget * margin) by (nonlinear_arith);
    } else {
        let earlier = (transfers - 1) as nat;
        steady_session_keeps_its_pace(start, initial_timestamp, budget, earlier);
        assert(transfers * margin + margin == (transfers + 1) * margin) by (nonlinear_arith);
        assert(transfers < budget ==> (transfers + 1) * margin <= budget * margin)
            by (nonlinear_arith);
    }
}

/// A steady bounded session ends on schedule. Where no resync comes due
/// within the budget and the device does each transfer exactly as asked, the
/// session spends its budget, stops without a fault, and leaves its clock
/// exactly one margin past the initial timestamp for each transfer.
pub proof fn steady_session_ends_on_schedule(
    start: SchedulerModel,
    initial_timestamp: u64,
    budget: nat,
)
    requires
        start.phase is Idle,
        start.issued == 0,
        start.completed == 0,
        start.fault is None,
        start.limit == Some(budget),
        budget * start.drift_margin + start.sample_rate < start.sync_interval,
        initial_timestamp + start.sync_interval <= u64::MAX,
    ensures
        ({
            let end = start.step(Event::Start).step(
                Event::Configured { initial_timestamp },
            ).after_echoes(budget);
            &&& end.phase is Stopped
            &&& end.fault is None
            &&& end.issued == budget
            &&& end.completed == budget
            &&& end.clock is Some
            &&& end.clock->0.current == initial_timestamp + budget * start.drift_margin
            &&& end.clock->0.next_resync == initial_timestamp + start.sync_interval
        }),
{
    steady_session_keeps_its_pace(start, initial_timestamp, budget, budget);
}

/// An unbounded session whose transfers all succeed never stops by itself:
/// after any number of them it is streaming, with the next request out.
pub proof fn unbounded_session_keeps_streaming(
    start: SchedulerModel,
    initial_timestamp: u64,
    completions: Seq<Completion>,
)
    requires
        start.phase is Idle,
        start.issued == 0,
        start.completed == 0,
        start.fault is None,
        start.limit is None,
        all_succeed(completions),
    ensures
        ({
            let end = start.step(Event::Start).step(Event::Configured { initial_timestamp }).feed(
                completions,
            );
            &&& end.phase is Streaming
            &&& end.issued == completions.len() + 1
            &&& end.completed == completions.len()
            &&& end.limit is None
            &&& end.fault is None
        }),
    decreases completions.len(),
{
    if completions.len() > 0 {
        unbounded_session_keeps_streaming(start, initial_timestamp, completions.drop_last());
    }
}

/// A session moves along the edges of its state machine only: an event
/// leaves it where it stands, or takes it from idle to configuring, from
/// configuring to streaming, or from configuring or streaming to one of the
/// two ends. Whenever it is left streaming after an event that applied, its
/// outstanding transfer is scheduled at or before the resync point.
pub proof fn session_follows_its_machine(session: SchedulerModel, event: Event)
    ensures
        ({
            let next = session.step(event);
            ||| next.phase == session.phase
            ||| session.phase is Idle && next.phase is Configuring
            ||| session.phase is Configuring && (next.phase is Streaming || next.phase is Stopped
                || next.phase is Faulted)
            ||| session.phase is Streaming && (next.phase is Stopped || next.phase is Faulted)
        }),
        session.accepts(event) && session.step(event).phase is Streaming ==> session.step(
            event,
        ).clock->0.in_sync(),
        session.step(event).phase is Faulted && !(session.phase is Faulted) ==> session.step(
            event,
        ).fault is Some,
{
}

/// The count of issued transfers is the count of transfer requests handed
/// out: an event raises it by one exactly when its answer is a transfer
/// request, and leaves it alone otherwise.
pub proof fn issued_counts_requests(session: SchedulerModel, event: Event)
    ensures
        session.step(event).issued == session.issued + (if session.action(event) is Transfer {
            1nat
        } else {
            0nat
        }),
{
}

/// A session that stopped or faulted stays as it is: no event changes it, and
/// none is answered with anything to do.
pub proof fn ended_session_stays_ended(session: SchedulerModel, event: Event)
    requires
        session.phase is Stopped || session.phase is Faulted,
    ensures
        session.step(event) == session,
        session.action(event) == Action::Ignore,
{
}

/// An overrun advances the session exactly as a full success does. Of two
/// completions of calls that succeeded with the same timestamp, one flagged
/// as an overrun and one not, both leave a streaming session in the same
/// state with the same thing to do next, which is never to abort; only the
/// reported outcome tells them apart.
pub proof fn overrun_advances_like_success(
    session: SchedulerModel,
    short: Completion,
    full: Completion,
)
    requires
        session.phase is Streaming,
        !short.failed(),
        short.overrun(),
        !full.failed(),
        !full.overrun(),
        short.timestamp == full.timestamp,
    ensures
        session.step(Event::Transferred(short)) == session.step(Event::Transferred(full)),
        session.action(Event::Transferred(short)) == session.action(Event::Transferred(full)),
        !(session.step(Event::Transferred(short)).phase is Faulted),
        !(session.action(Event::Transferred(short)) is Abort),
        session.report(Event::Transferred(short)) == Some(short.result(session.frame_count)),
        short.result(session.frame_count).status == crate::transfer::TransferStatus::Overrun,
        short.actual_count < session.frame_count ==> short.result(session.frame_count).actual_count
            == short.actual_count,
{
}

} // verus!
