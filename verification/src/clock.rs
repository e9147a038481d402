//! The clock tracker: the device-relative sample-timestamp cursor from which
//! every transfer is scheduled, and the periodic resynchronisation that keeps
//! the schedule from drifting away from the device's own clock.

use vstd::prelude::*;

verus! {

/// The cursor as unbounded numbers. Contracts and laws are stated over this
/// model, so that none of them has to speak of 64-bit limits.
pub struct ClockModel {
    /// Timestamp most recently scheduled or reported, in samples.
    pub current: nat,
    /// Timestamp at which the schedule next realigns with the device.
    pub next_resync: nat,
    /// Distance between two resync points, in samples.
    pub sync_interval: nat,
    /// Slack granted to the schedule, and the step by which it advances
    /// while no resync is due.
    pub drift_margin: nat,
}

impl ClockModel {
    /// A fresh cursor at `initial`, with its first resync one interval away.
    pub open spec fn seeded(initial: nat, sync_interval: nat, drift_margin: nat) -> ClockModel {
        ClockModel {
            current: initial,
            next_resync: initial + sync_interval,
            sync_interval,
            drift_margin,
        }
    }

    /// Whether the next resync point lies within one margin window of the
    /// cursor: `next_resync - current <= drift_margin + sample_rate`, over the
    /// integers (a cursor already past the resync point is within the window).
    pub open spec fn resync_due(self, sample_rate: nat) -> bool {
        self.next_resync - self.current <= self.drift_margin + sample_rate
    }

    /// The timestamp of the next transfer: the resync point when it is due,
    /// else one step of `drift_margin` past the cursor.
    pub open spec fn scheduled(self, sample_rate: nat) -> nat {
        if self.resync_due(sample_rate) {
            self.next_resync
        } else {
            self.current + self.drift_margin
        }
    }

    /// The cursor moved to the next scheduled timestamp.
    pub open spec fn advance(self, sample_rate: nat) -> ClockModel {
        ClockModel { current: self.scheduled(sample_rate), ..self }
    }

    /// The cursor after the device reported `actual`: the report is recorded,
    /// and a report that lands on the resync point moves that point one
    /// interval on.
    pub open spec fn observe(self, actual: nat) -> ClockModel {
        ClockModel {
            current: actual,
            next_resync: if actual == self.next_resync {
                actual + self.sync_interval
            } else {
                self.next_resync
            },
            ..self
        }
    }

    /// The cursor has not passed the next resync point.
    pub open spec fn in_sync(self) -> bool {
        self.current <= self.next_resync
    }

    /// The cursor is at most one scheduling step past the next resync point.
    pub open spec fn drift_bounded(self) -> bool {
        self.current <= self.next_resync + self.drift_margin
    }

    /// A report that the device may give after the cursor was advanced without
    /// breaking the drift bound: the resync point itself, or anything up to
    /// one scheduling step past it.
    pub open spec fn tolerates(self, actual: nat) -> bool {
        actual <= self.next_resync + self.drift_margin
    }

    /// The cursor after one advance/observe cycle for each entry of
    /// `observed`, in order.
    pub open spec fn after_cycles(self, sample_rate: nat, observed: Seq<nat>) -> ClockModel
        decreases observed.len(),
    {
        if observed.len() == 0 {
            self
        } else {
            self.after_cycles(sample_rate, observed.drop_last()).advance(sample_rate).observe(
                observed.last(),
            )
        }
    }

    /// The cursor after `cycles` advance/observe cycles in each of which the
    /// device reports exactly the timestamp that was scheduled.
    pub open spec fn after_echoes(self, sample_rate: nat, cycles: nat) -> ClockModel
        decreases cycles,
    {
        if cycles == 0 {
            self
        } else {
            let advanced = self.after_echoes(sample_rate, (cycles - 1) as nat).advance(sample_rate);
            advanced.observe(advanced.current)
        }
    }

    /// Every report of `observed` is one the cursor tolerates at the moment it
    /// arrives.
    pub open spec fn tolerates_all(self, sample_rate: nat, observed: Seq<nat>) -> bool
        decreases observed.len(),
    {
        observed.len() == 0 || (self.tolerates_all(sample_rate, observed.drop_last())
            && self.after_cycles(sample_rate, observed.drop_last()).advance(
            sample_rate,
        ).tolerates(observed.last()))
    }
}

/// The number of samples that pass in `millis` milliseconds at `sample_rate`
/// samples per second, rounded down.
pub open spec fn samples_per(sample_rate: u32, millis: u32) -> nat {
    (sample_rate * millis / 1000) as nat
}

/// Converts a duration in milliseconds to a count of samples.
pub fn samples_in(sample_rate: u32, millis: u32) -> (samples: u64)
    ensures
        samples == samples_per(sample_rate, millis),
{
    assert(sample_rate * millis <= 0xffff_ffff * 0xffff_ffff) by (nonlinear_arith)
        requires
            0 <= sample_rate <= 0xffff_ffff,
            0 <= millis <= 0xffff_ffff,
    ;
    (sample_rate as u64) * (millis as u64) / 1000
}

/// The sample-timestamp cursor of one streaming session.
#[derive(Clone, Copy, Debug)]
pub struct ClockCursor {
    current_timestamp: u64,
    sync_interval: u64,
    next_resync: u64,
    drift_margin: u64,
}

impl View for ClockCursor {
    type V = ClockModel;

    closed spec fn view(&self) -> ClockModel {
        ClockModel {
            current: self.current_timestamp as nat,
            next_resync: self.next_resync as nat,
            sync_interval: self.sync_interval as nat,
            drift_margin: self.drift_margin as nat,
        }
    }
}

impl ClockCursor {
    /// A cursor is well formed when its resync interval is positive.
    pub open spec fn wf(&self) -> bool {
        self@.sync_interval > 0
    }

    /// Whether reporting `actual` keeps the next resync point within 64 bits.
    pub open spec fn can_observe(&self, actual: u64) -> bool {
        self@.observe(actual as nat).next_resync <= u64::MAX
    }

    /// Starts a cursor at the device's current timestamp.
    pub fn seed(initial_timestamp: u64, sync_interval: u64, drift_margin: u64) -> (cursor:
        ClockCursor)
        requires
            sync_interval > 0,
            initial_timestamp + sync_interval <= u64::MAX,
        ensures
            cursor.wf(),
            cursor@ == ClockModel::seeded(
                initial_timestamp as nat,
                sync_interval as nat,
                drift_margin as nat,
            ),
    {
        ClockCursor {
            current_timestamp: initial_timestamp,
            sync_interval,
            next_resync: initial_timestamp + sync_interval,
            drift_margin,
        }
    }

    /// Moves the cursor to the timestamp of the next transfer and returns it.
    pub fn advance(&mut self, sample_rate: u32) -> (scheduled: u64)
        ensures
            final(self)@ == old(self)@.advance(sample_rate as nat),
            scheduled == old(self)@.scheduled(sample_rate as nat),
            final(self).wf() == old(self).wf(),
    {
        let due = if self.current_timestamp >= self.next_resync {
            true
        } else {
            let gap: u64 = self.next_resync - self.current_timestamp;
            let window: u128 = self.drift_margin as u128 + sample_rate as u128;
            gap as u128 <= window
        };
        if due {
            self.current_timestamp = self.next_resync;
        } else {
            self.current_timestamp = self.current_timestamp + self.drift_margin;
        }
        self.current_timestamp
    }

    /// Tells whether `observe` may be called with `actual_timestamp`.
    pub fn accepts(&self, actual_timestamp: u64) -> (ok: bool)
        ensures
            ok == self.can_observe(actual_timestamp),
    {
        actual_timestamp != self.next_resync || self.sync_interval <= u64::MAX
            - actual_timestamp
    }

    /// Records the timestamp that the device reported for a transfer.
    pub fn observe(&mut self, actual_timestamp: u64)
        requires
            old(self).can_observe(actual_timestamp),
        ensures
            final(self)@ == old(self)@.observe(actual_timestamp as nat),
            final(self).wf() == old(self).wf(),
    {
        if actual_timestamp == self.next_resync {
            self.next_resync = actual_timestamp + self.sync_interval;
        }
        self.current_timestamp = actual_timestamp;
    }

    /// Every number of the cursor fits in 64 bits.
    pub proof fn fits(&self)
        ensures
            self@.current <= u64::MAX,
            self@.next_resync <= u64::MAX,
            self@.sync_interval <= u64::MAX,
            self@.drift_margin <= u64::MAX,
    {
    }

    /// The timestamp most recently scheduled or reported.
    pub fn current_timestamp(&self) -> (t: u64)
        ensures
            t == self@.current,
    {
        self.current_timestamp
    }

    /// The timestamp at which the schedule next realigns with the device.
    pub fn next_resync(&self) -> (t: u64)
        ensures
            t == self@.next_resync,
    {
        self.next_resync
    }

    /// The distance between two resync points.
    pub fn sync_interval(&self) -> (n: u64)
        ensures
            n == self@.sync_interval,
    {
        self.sync_interval
    }

    /// The slack of the schedule, which is also its step.
    pub fn drift_margin(&self) -> (n: u64)
        ensures
            n == self@.drift_margin,
    {
        self.drift_margin
    }
}

/// Drift stays bounded: however many advance/observe cycles a freshly seeded
/// cursor goes through, it never stands more than one scheduling step past its
/// next resync point, and the timestamp scheduled next never lies past that
/// point. This holds for every positive resync interval and every margin, as
/// long as each report is one that the cursor tolerates when it arrives. The
/// margin itself stays the one that the cursor was seeded with.
pub proof fn drift_stays_bounded(
    initial: nat,
    sync_interval: nat,
    drift_margin: nat,
    sample_rate: nat,
    observed: Seq<nat>,
)
    requires
        sync_interval > 0,
        ClockModel::seeded(initial, sync_interval, drift_margin).tolerates_all(
            sample_rate,
            observed,
        ),
    ensures
        ClockModel::seeded(initial, sync_interval, drift_margin).after_cycles(
            sample_rate,
            observed,
        ).drift_bounded(),
        ClockModel::seeded(initial, sync_interval, drift_margin).after_cycles(
            sample_rate,
            observed,
        ).advance(sample_rate).in_sync(),
        ClockModel::seeded(initial, sync_interval, drift_margin).after_cycles(
            sample_rate,
            observed,
        ).drift_margin == drift_margin,
    decreases observed.len(),
{
    if observed.len() > 0 {
        drift_stays_bounded(initial, sync_interval, drift_margin, sample_rate, observed.drop_last());
    }
}

/// A resync is applied once: when the cursor stands on the resync point, the
/// report of that timestamp moves the point exactly one interval on, and a
/// second report of the same timestamp changes nothing.
pub proof fn resync_applies_once(cursor: ClockModel)
    requires
        cursor.sync_interval > 0,
        cursor.current == cursor.next_resync,
    ensures
        cursor.observe(cursor.current).next_resync == cursor.current + cursor.sync_interval,
        cursor.observe(cursor.current).current == cursor.current,
        cursor.observe(cursor.current).observe(cursor.current) == cursor.observe(cursor.current),
{
}

/// The schedule is steady between resyncs: while the resync point stays out
/// of the window, a device that reports each scheduled timestamp moves the
/// cursor by exactly one `drift_margin` per cycle and leaves the resync point
/// where it is.
pub proof fn schedule_is_steady(
    initial: nat,
    sync_interval: nat,
    drift_margin: nat,
    sample_rate: nat,
    cycles: nat,
)
    requires
        cycles * drift_margin + sample_rate < sync_interval,
    ensures
        ClockModel::seeded(initial, sync_interval, drift_margin).after_echoes(sample_rate, cycles)
            == (ClockModel {
            current: initial + cycles * drift_margin,
            ..ClockModel::seeded(initial, sync_interval, drift_margin)
        }),
    decreases cycles,
{
    if cycles == 0 {
        assert(cycles * drift_margin == 0) by (nonlinear_arith)
            requires
                cycles == 0,
        ;
    } else {
        let earlier = (cycles - 1) as nat;
        assert(earlier * drift_margin + drift_margin == cycles * drift_margin) by (nonlinear_arith)
            requires
                earlier + 1 == cycles,
        ;
        schedule_is_steady(initial, sync_interval, drift_margin, sample_rate, earlier);
    }
}

/// The schedule keeps its order: from a cursor that has not passed its resync
/// point, the next scheduled timestamp is never earlier than the cursor, a
/// report at or before the resync point leaves the cursor short of the point
/// that then applies, and a report no earlier than the schedule never sets
/// the cursor back.
pub proof fn schedule_keeps_order(cursor: ClockModel, sample_rate: nat, actual: nat)
    requires
        cursor.in_sync(),
    ensures
        cursor.scheduled(sample_rate) >= cursor.current,
        cursor.advance(sample_rate).in_sync(),
        actual <= cursor.next_resync ==> cursor.observe(actual).in_sync(),
        actual >= cursor.scheduled(sample_rate) ==> cursor.advance(sample_rate).observe(
            actual,
        ).current >= cursor.current,
{
}

} // verus!
