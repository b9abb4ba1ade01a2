//! The countdown clock: a start instant, a total duration, and the two
//! states of a countdown.

use std::time::{Duration, Instant};
use vstd::prelude::*;

verus! {

/// `std::time::Instant`, carried through as an opaque value.
#[verifier::external_type_specification]
#[verifier::external_body]
pub struct ExInstant(std::time::Instant);

/// `Instant::now` reads the monotonic clock. Nothing is claimed of the
/// instant it returns.
pub assume_specification[ std::time::Instant::now ]() -> (now: Instant);

/// `Instant::saturating_duration_since` measures the time from `earlier` to
/// `later`, or gives the zero duration when `earlier` is the later one; it
/// does not panic. Nothing is claimed of the duration it returns.
pub assume_specification[ std::time::Instant::saturating_duration_since ](
    later: &Instant,
    earlier: Instant,
) -> (elapsed: Duration);

/// `Duration::as_secs` gives the whole seconds of a duration. Nothing is
/// claimed of the number it returns.
pub assume_specification[ std::time::Duration::as_secs ](duration: &Duration) -> (secs: u64);

/// The two states of a countdown.
#[derive(Clone, Copy, Debug, PartialEq, Eq, Structural)]
pub enum ClockState {
    Running,
    Complete,
}

/// The time readings of one tick.
#[derive(Clone, Copy, Debug, PartialEq, Eq)]
pub struct TimeCursor {
    pub elapsed_secs: u64,
    pub remaining_secs: u64,
}

/// What a [`CountdownClock`] is to the contracts.
pub ghost struct ClockModel {
    /// The configured duration, fixed for the run.
    pub total: nat,
    /// The latest reading of the seconds since the start.
    pub elapsed: nat,
    pub state: ClockState,
}

impl ClockModel {
    /// A clock that has not been ticked: it is running, whatever its total.
    pub open spec fn fresh(total: nat) -> ClockModel {
        ClockModel { total, elapsed: 0, state: ClockState::Running }
    }

    /// A complete clock has run for its total.
    pub open spec fn wf(self) -> bool {
        self.state == ClockState::Complete ==> self.elapsed >= self.total
    }

    /// The seconds left: the total less the elapsed seconds, and zero once
    /// the total is behind.
    pub open spec fn remaining(self) -> nat {
        if self.elapsed >= self.total {
            0
        } else {
            (self.total - self.elapsed) as nat
        }
    }

    /// The clock after a tick that reads `reading` seconds since the start.
    /// A reading behind the latest one counts as no progress. The clock is
    /// complete from the first tick on that finds the total reached.
    pub open spec fn advanced(self, reading: nat) -> ClockModel {
        let elapsed = if reading >= self.elapsed {
            reading
        } else {
            self.elapsed
        };
        ClockModel {
            total: self.total,
            elapsed,
            state: if self.state == ClockState::Complete || elapsed >= self.total {
                ClockState::Complete
            } else {
                ClockState::Running
            },
        }
    }

    /// The clock after one tick for each of `readings`, in order.
    pub open spec fn advanced_through(self, readings: Seq<nat>) -> ClockModel
        decreases readings.len(),
    {
        if readings.len() == 0 {
            self
        } else {
            self.advanced_through(readings.drop_last()).advanced(readings.last())
        }
    }
}

/// Counts a configured number of seconds down from the instant it was made.
#[derive(Clone, Copy, Debug)]
pub struct CountdownClock {
    started: Instant,
    total_seconds: u64,
    elapsed_seconds: u64,
    state: ClockState,
}

impl View for CountdownClock {
    type V = ClockModel;

    closed spec fn view(&self) -> ClockModel {
        ClockModel {
            total: self.total_seconds as nat,
            elapsed: self.elapsed_seconds as nat,
            state: self.state,
        }
    }
}

impl CountdownClock {
    #[verifier::type_invariant]
    spec fn inv(self) -> bool {
        self@.wf()
    }

    /// The instant at which the countdown began. It is fixed when the clock
    /// is made: no tick moves it.
    pub closed spec fn start_instant(&self) -> Instant {
        self.started
    }

    /// Starts a countdown of `total_seconds` now.
    pub fn new(total_seconds: u64) -> (clock: Self)
        ensures
            clock@ == ClockModel::fresh(total_seconds as nat),
    {
        CountdownClock {
            started: Instant::now(),
            total_seconds,
            elapsed_seconds: 0,
            state: ClockState::Running,
        }
    }

    /// Reads the whole seconds since the start off the monotonic clock.
    ///
    /// The reading is the clock's to give, so nothing is promised of it;
    /// [`CountdownClock::advance`] says what a tick makes of each reading.
    pub fn seconds_since_start(&self) -> (reading: u64) {
        let now = Instant::now();
        now.saturating_duration_since(self.started).as_secs()
    }

    /// Ticks the clock with a reading of the seconds since the start.
    pub fn advance(&mut self, reading: u64)
        ensures
            final(self)@ == old(self)@.advanced(reading as nat),
            final(self)@.wf(),
            final(self).start_instant() == old(self).start_instant(),
    {
        proof {
            use_type_invariant(&*self);
        }
        let elapsed = if reading >= self.elapsed_seconds {
            reading
        } else {
            self.elapsed_seconds
        };
        let state = if elapsed >= self.total_seconds {
            ClockState::Complete
        } else {
            ClockState::Running
        };
        *self = CountdownClock {
            started: self.started,
            total_seconds: self.total_seconds,
            elapsed_seconds: elapsed,
            state,
        };
    }

    /// Ticks the clock with the time that has passed since its start.
    ///
    /// Whatever the monotonic clock reads, the total and the start instant
    /// stay, the elapsed seconds do not go back, and the clock is complete
    /// afterwards exactly if it was before or the total is reached.
    pub fn tick(&mut self)
        ensures
            exists|reading: nat| final(self)@ == old(self)@.advanced(reading),
            final(self)@.wf(),
            final(self).start_instant() == old(self).start_instant(),
    {
        let reading = self.seconds_since_start();
        self.advance(reading);
    }

    /// The configured duration in seconds.
    pub fn total_seconds(&self) -> (total: u64)
        ensures
            total == self@.total,
    {
        self.total_seconds
    }

    /// The seconds since the start, as of the latest tick.
    pub fn elapsed_seconds(&self) -> (elapsed: u64)
        ensures
            elapsed == self@.elapsed,
    {
        self.elapsed_seconds
    }

    /// The seconds left, as of the latest tick; zero once the total is
    /// behind.
    pub fn remaining_seconds(&self) -> (remaining: u64)
        ensures
            remaining == self@.remaining(),
    {
        if self.elapsed_seconds >= self.total_seconds {
            0
        } else {
            self.total_seconds - self.elapsed_seconds
        }
    }

    /// The readings of the latest tick.
    pub fn cursor(&self) -> (cursor: TimeCursor)
        ensures
            cursor.elapsed_secs == self@.elapsed,
            cursor.remaining_secs == self@.remaining(),
    {
        TimeCursor {
            elapsed_secs: self.elapsed_seconds,
            remaining_secs: self.remaining_seconds(),
        }
    }

    /// The state of the countdown.
    pub fn state(&self) -> (state: ClockState)
        ensures
            state == self@.state,
    {
        self.state
    }

    /// Whether a tick has found the total reached.
    pub fn is_complete(&self) -> (complete: bool)
        ensures
            complete == (self@.state == ClockState::Complete),
            complete ==> self@.elapsed >= self@.total,
    {
        proof {
            use_type_invariant(self);
        }
        self.state == ClockState::Complete
    }
}

/// Ticks leave the total as it is and the clock well formed, and the
/// elapsed seconds are the largest reading so far.
proof fn lemma_advanced_through(total: nat, readings: Seq<nat>)
    ensures
        ({
            let clock = ClockModel::fresh(total).advanced_through(readings);
            &&& clock.total == total
            &&& clock.wf()
            &&& forall|i: int| 0 <= i < readings.len() ==> readings[i] <= clock.elapsed
            &&& readings.len() > 0 ==> exists|i: int|
                0 <= i < readings.len() && readings[i] == clock.elapsed
            &&& readings.len() == 0 ==> clock == ClockModel::fresh(total)
            &&& readings.len() > 0 ==> (clock.state == ClockState::Complete <==> clock.elapsed
                >= total)
        }),
    decreases readings.len(),
{
    if readings.len() > 0 {
        let before = readings.drop_last();
        lemma_advanced_through(total, before);
        let clock = ClockModel::fresh(total).advanced_through(before);
        let after = clock.advanced(readings.last());
        assert(after == ClockModel::fresh(total).advanced_through(readings));
        assert forall|i: int| 0 <= i < readings.len() implies readings[i] <= after.elapsed by {
            if i < before.len() {
                assert(before[i] == readings[i]);
            }
        }
        if after.elapsed == readings.last() {
            assert(readings[readings.len() - 1] == after.elapsed);
        } else {
            let i = choose|i: int| 0 <= i < before.len() && before[i] == clock.elapsed;
            assert(readings[i] == after.elapsed);
        }
    }
}

/// A clock is complete exactly when a tick has found the elapsed seconds at
/// the total or past it, and never earlier: after any ticks of a fresh
/// clock, it is complete if and only if one of them read the total or more.
/// Once ticked, that is to say that its elapsed seconds have reached the
/// total.
pub proof fn law_complete_exactly_when_total_reached(total: nat, readings: Seq<nat>)
    ensures
        ({
            let clock = ClockModel::fresh(total).advanced_through(readings);
            &&& clock.state == ClockState::Complete <==> exists|i: int|
                0 <= i < readings.len() && readings[i] >= total
            &&& readings.len() > 0 ==> (clock.state == ClockState::Complete <==> clock.elapsed
                >= total)
        }),
{
    lemma_advanced_through(total, readings);
    let clock = ClockModel::fresh(total).advanced_through(readings);
    if readings.len() > 0 {
        let i = choose|i: int| 0 <= i < readings.len() && readings[i] == clock.elapsed;
        if clock.state == ClockState::Complete {
            assert(readings[i] >= total);
        }
    }
}

/// Once complete, a clock never returns to running, whatever the ticks
/// that follow read.
pub proof fn law_complete_is_final(clock: ClockModel, readings: Seq<nat>)
    requires
        clock.state == ClockState::Complete,
    ensures
        clock.advanced_through(readings).state == ClockState::Complete,
    decreases readings.len(),
{
    if readings.len() > 0 {
        law_complete_is_final(clock, readings.drop_last());
    }
}

} // verus!
