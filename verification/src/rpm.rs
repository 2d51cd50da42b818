//! The reading tracker: the last reading seen, and for how long it has not
//! changed.
//!
//! A simulator that is paused or between sessions may keep sending packets
//! that all decode to one reading. The tracker counts such repeats up to a
//! threshold; at the threshold the source counts as stale.

use crate::binary32::Binary32;
use crate::telemetry::{TelemetryParser, TelemetryReading};
use vstd::prelude::*;

verus! {

/// The number of repeats in a row at which a reading is stale. The counter
/// stops there.
pub const STALENESS_THRESHOLD: u8 = 5;

/// What a tracker knows: the last reading that differed from the one before
/// it, and how many times it has been seen again since.
pub struct TrackerState {
    pub reading: TelemetryReading,
    pub staleness: nat,
}

impl TrackerState {
    /// A tracker that has seen nothing yet.
    pub open spec fn initial() -> TrackerState {
        TrackerState { reading: TelemetryReading::no_signal(), staleness: 0 }
    }

    /// The counter is within its bound.
    pub open spec fn wf(self) -> bool {
        self.staleness <= STALENESS_THRESHOLD
    }

    /// The counter has reached the threshold.
    pub open spec fn stale(self) -> bool {
        self.staleness >= STALENESS_THRESHOLD
    }

    /// The state after one more reading.
    ///
    /// A reading that is the same as the stored one, compared as numbers,
    /// adds one to the counter unless it is at the threshold, and changes
    /// nothing else. Any other reading replaces the stored one and sets the
    /// counter to zero.
    pub open spec fn observe(self, reading: TelemetryReading) -> TrackerState {
        if self.reading.same_as(reading) {
            TrackerState {
                reading: self.reading,
                staleness: if self.staleness < STALENESS_THRESHOLD {
                    self.staleness + 1
                } else {
                    self.staleness
                },
            }
        } else {
            TrackerState { reading, staleness: 0 }
        }
    }

    /// The state after one reading has been seen `times` times in a row.
    pub open spec fn observe_repeated(self, reading: TelemetryReading, times: nat) -> TrackerState
        decreases times,
    {
        if times == 0 {
            self
        } else {
            self.observe_repeated(reading, (times - 1) as nat).observe(reading)
        }
    }

    /// The state after a run of readings, first to last.
    pub open spec fn observe_all(self, readings: Seq<TelemetryReading>) -> TrackerState
        decreases readings.len(),
    {
        if readings.len() == 0 {
            self
        } else {
            self.observe_all(readings.drop_last()).observe(readings.last())
        }
    }
}

/// The smaller of a count and the staleness threshold.
pub open spec fn capped(count: nat) -> nat {
    if count < STALENESS_THRESHOLD {
        count
    } else {
        STALENESS_THRESHOLD as nat
    }
}

/// Seeing the stored reading again, any number of times, leaves it stored
/// and adds that number to the counter, up to the threshold: below the
/// threshold the counter grows by exactly the number of repeats, and once
/// the sum reaches the threshold the tracker is stale.
pub proof fn lemma_repeats_add_up(state: TrackerState, reading: TelemetryReading, times: nat)
    requires
        state.wf(),
        state.reading.same_as(reading),
    ensures
        state.observe_repeated(reading, times).reading == state.reading,
        state.observe_repeated(reading, times).staleness == capped(state.staleness + times),
        state.staleness + times < STALENESS_THRESHOLD ==> state.observe_repeated(
            reading,
            times,
        ).staleness == state.staleness + times,
        state.observe_repeated(reading, times).stale() <==> state.staleness + times
            >= STALENESS_THRESHOLD,
    decreases times,
{
    if times > 0 {
        lemma_repeats_add_up(state, reading, (times - 1) as nat);
    }
}

/// One reading without a NaN in it, seen any number of times in a row, is
/// the stored one afterwards, as a number. If it was the stored one before,
/// every sighting counted; if not, the first one put it in store with the
/// counter at zero, and the others counted.
pub proof fn lemma_same_reading_fed(state: TrackerState, reading: TelemetryReading, times: nat)
    requires
        state.wf(),
        !reading.has_nan(),
        times >= 1,
    ensures
        state.observe_repeated(reading, times).reading.same_as(reading),
        state.reading.same_as(reading) ==> state.observe_repeated(reading, times) == (TrackerState {
            reading: state.reading,
            staleness: capped(state.staleness + times),
        }),
        !state.reading.same_as(reading) ==> state.observe_repeated(reading, times)
            == (TrackerState { reading, staleness: capped((times - 1) as nat) }),
    decreases times,
{
    if times > 1 {
        lemma_same_reading_fed(state, reading, (times - 1) as nat);
    } else {
        assert(state.observe_repeated(reading, 0) == state);
    }
}

/// A reading that differs from the stored one replaces it and sets the
/// counter to zero in the same step, so the tracker is not stale after it,
/// however stale it was.
pub proof fn lemma_change_resets(state: TrackerState, reading: TelemetryReading)
    requires
        !state.reading.same_as(reading),
    ensures
        state.observe(reading) == (TrackerState { reading, staleness: 0 }),
        !state.observe(reading).stale(),
{
}

/// The counter never passes the threshold, whatever readings arrive and
/// however many.
pub proof fn lemma_staleness_bounded(state: TrackerState, readings: Seq<TelemetryReading>)
    requires
        state.wf(),
    ensures
        state.observe_all(readings).wf(),
    decreases readings.len(),
{
    if readings.len() > 0 {
        lemma_staleness_bounded(state, readings.drop_last());
    }
}

/// The counter never passes the threshold, however often one reading is
/// repeated.
pub proof fn lemma_repeats_bounded(state: TrackerState, reading: TelemetryReading, times: nat)
    requires
        state.wf(),
    ensures
        state.observe_repeated(reading, times).wf(),
    decreases times,
{
    if times > 0 {
        lemma_repeats_bounded(state, reading, (times - 1) as nat);
    }
}

/// The reading tracker.
pub struct RPM {
    current: Binary32,
    max: Binary32,
    idle: Binary32,
    staleness: u8,
    is_race_active: bool,
}

impl View for RPM {
    type V = TrackerState;

    closed spec fn view(&self) -> TrackerState {
        TrackerState {
            reading: TelemetryReading {
                current_rpm: self.current,
                max_rpm: self.max,
                idle_rpm: self.idle,
                race_active: self.is_race_active,
            },
            staleness: self.staleness as nat,
        }
    }
}

impl RPM {
    #[verifier::type_invariant]
    spec fn counter_in_bound(self) -> bool {
        self.staleness <= STALENESS_THRESHOLD
    }

    /// A tracker that has seen nothing yet: it holds the reading of no
    /// signal and its counter is zero.
    pub fn new() -> (r: RPM)
        ensures
            r@ == TrackerState::initial(),
    {
        RPM {
            current: Binary32::zero_value(),
            max: Binary32::zero_value(),
            idle: Binary32::zero_value(),
            staleness: 0,
            is_race_active: false,
        }
    }

    fn increment_staleness(&mut self)
        ensures
            final(self)@.reading == old(self)@.reading,
            final(self)@.staleness == (if old(self)@.staleness < STALENESS_THRESHOLD {
                old(self)@.staleness + 1
            } else {
                old(self)@.staleness
            }),
    {
        if self.staleness < STALENESS_THRESHOLD {
            self.staleness += 1;
        }
    }

    fn reset_staleness(&mut self)
        ensures
            final(self)@.reading == old(self)@.reading,
            final(self)@.staleness == 0,
    {
        if self.staleness != 0 {
            self.staleness = 0;
        }
    }

    /// Whether the counter has reached the threshold.
    pub fn is_stale(&self) -> (r: bool)
        ensures
            r == self@.stale(),
    {
        self.staleness >= STALENESS_THRESHOLD
    }

    /// The number of times in a row that the stored reading has been seen
    /// again, up to the threshold.
    pub fn staleness(&self) -> (r: u8)
        ensures
            r == self@.staleness,
            r <= STALENESS_THRESHOLD,
    {
        proof {
            use_type_invariant(self);
        }
        self.staleness
    }

    /// The stored speeds, as `(current, max, idle)`.
    pub fn state(&self) -> (r: (Binary32, Binary32, Binary32))
        ensures
            r == (self@.reading.current_rpm, self@.reading.max_rpm, self@.reading.idle_rpm),
    {
        (self.current, self.max, self.idle)
    }

    /// The stored reading.
    pub fn reading(&self) -> (r: TelemetryReading)
        ensures
            r == self@.reading,
    {
        TelemetryReading {
            current_rpm: self.current,
            max_rpm: self.max,
            idle_rpm: self.idle,
            race_active: self.is_race_active,
        }
    }

    /// Takes one decoded reading into account.
    pub fn observe(&mut self, reading: TelemetryReading)
        ensures
            final(self)@ == old(self)@.observe(reading),
            final(self)@.wf(),
    {
        proof {
            use_type_invariant(&*self);
        }
        if self.reading().matches(&reading) {
            self.increment_staleness();
        } else {
            self.reset_staleness();
            self.current = reading.current_rpm;
            self.max = reading.max_rpm;
            self.idle = reading.idle_rpm;
            self.is_race_active = reading.race_active;
        }
    }

    /// Decodes one packet with the given decoder and takes its reading into
    /// account.
    pub fn update(&mut self, data: &[u8], parser: &dyn TelemetryParser)
        ensures
            final(self)@ == old(self)@.observe(parser.reading(data@)),
            final(self)@.wf(),
    {
        let decoded = parser.parse_rpm_data(data);
        self.observe(TelemetryReading::from_tuple(decoded));
    }

    /// Whether the stored reading says that a race is on.
    pub fn is_race_active(&self) -> (r: bool)
        ensures
            r == self@.reading.race_active,
    {
        self.is_race_active
    }
}

impl Default for RPM {
    fn default() -> (r: RPM)
        ensures
            r@ == TrackerState::initial(),
    {
        RPM::new()
    }
}

} // verus!
