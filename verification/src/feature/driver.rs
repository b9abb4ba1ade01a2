//! The terminal driver: the decisions of the tick, draw and sleep loop, as a
//! state machine. The driver says what to do next; whoever runs it does it
//! and reports how it went.

use crate::error::{exit_status, AppError, Failure, TerminalError, EXIT_FAILURE, EXIT_SUCCESS};
use crate::feature::audio::{AudioError, Beeper};
use crate::feature::countdown::{ClockModel, ClockState, CountdownClock};
use crate::feature::duration_parsing::ParsingError;
use crate::feature::render::{content_model, layout_model, render, Rect, RenderFrame};
use std::time::Instant;
use vstd::prelude::*;

verus! {

/// The seconds slept between two ticks.
pub const TICK_SECONDS: u64 = 1;

/// Where a run stands: the action that is under way.
#[derive(Clone, Copy, Debug, PartialEq, Eq, Structural)]
pub enum DriverPhase {
    /// The terminal is being taken over.
    Acquiring,
    /// A frame is being drawn.
    Drawing,
    /// The driver sleeps until the next tick.
    Sleeping,
    /// The terminal is being given back.
    Restoring,
    /// The tone is being emitted.
    Beeping,
    /// The run is over.
    Finished,
}

/// What the driver asks for.
#[derive(Clone, Copy, Debug, PartialEq, Eq, Structural)]
pub enum DriverAction {
    /// Take over the terminal.
    Acquire,
    /// Draw the frame of the driver on the whole terminal.
    Draw,
    /// Sleep for [`TICK_SECONDS`].
    Sleep,
    /// Give the terminal back as it was.
    Restore,
    /// Emit the tone.
    Beep,
    /// Leave with this status.
    Exit(u8),
}

/// How an action went.
#[derive(Clone, Copy, Debug, PartialEq, Eq, Structural)]
pub enum DriverEvent {
    Acquired,
    AcquireFailed,
    Drawn,
    DrawFailed,
    Slept,
    Restored,
    RestoreFailed,
    BeepSucceeded,
    BeepFailed,
}

/// What a [`TerminalDriver`] is to the contracts.
pub ghost struct DriverModel {
    pub clock: ClockModel,
    pub phase: DriverPhase,
    /// The first thing that failed, if anything has.
    pub failure: Option<AppError>,
}

/// The error of a terminal operation, as it reaches the top.
pub open spec fn terminal_failure(error: TerminalError) -> Option<AppError> {
    Some(AppError { failure: Failure::Terminal(error) })
}

impl DriverModel {
    /// The state in which a run begins, given what the duration specs came
    /// to: with no total to count down there is nothing to do.
    pub open spec fn initial(parsed: Result<u64, ParsingError>) -> DriverModel {
        match parsed {
            Ok(total) => DriverModel {
                clock: ClockModel::fresh(total as nat),
                phase: DriverPhase::Acquiring,
                failure: None,
            },
            Err(error) => DriverModel {
                clock: ClockModel::fresh(0),
                phase: DriverPhase::Finished,
                failure: Some(AppError { failure: Failure::Parsing(error) }),
            },
        }
    }

    /// The action that is under way in this state.
    pub open spec fn pending(self) -> DriverAction {
        match self.phase {
            DriverPhase::Acquiring => DriverAction::Acquire,
            DriverPhase::Drawing => DriverAction::Draw,
            DriverPhase::Sleeping => DriverAction::Sleep,
            DriverPhase::Restoring => DriverAction::Restore,
            DriverPhase::Beeping => DriverAction::Beep,
            DriverPhase::Finished => DriverAction::Exit(
                if self.failure is None {
                    EXIT_SUCCESS
                } else {
                    EXIT_FAILURE
                },
            ),
        }
    }

    /// This state with another phase.
    pub open spec fn at(self, phase: DriverPhase) -> DriverModel {
        DriverModel { phase, ..self }
    }

    /// This state after a failure: the terminal is given back next. Of
    /// several failures the first one stays.
    pub open spec fn failed(self, failure: Option<AppError>) -> DriverModel {
        DriverModel {
            clock: self.clock,
            phase: DriverPhase::Restoring,
            failure: if self.failure is None {
                failure
            } else {
                self.failure
            },
        }
    }

    /// The state after one more round of the loop for each of `readings`:
    /// the frame is drawn, the driver sleeps, and the clock then reads so
    /// many seconds.
    pub open spec fn after_rounds(self, readings: Seq<nat>) -> DriverModel
        decreases readings.len(),
    {
        if readings.len() == 0 {
            self
        } else {
            self.after_rounds(readings.drop_last()).next(DriverEvent::Drawn, readings.last()).next(
                DriverEvent::Slept,
                readings.last(),
            )
        }
    }

    /// The state after `event`, where the clock, if this step reads it,
    /// reads `reading` seconds since the start of the countdown.
    ///
    /// The countdown begins when the terminal is acquired. A round of the
    /// loop is a tick, a draw and a sleep. After the sleep the clock is read
    /// again: if its total is reached by then the loop is left, and
    /// otherwise the reading is the tick of the next round. So a countdown
    /// of a number of seconds takes that many rounds and no more. However
    /// the loop is left, the terminal is given back before anything else;
    /// the tone follows only a countdown that went through and a terminal
    /// that was given back. An event that does not answer the action under
    /// way changes nothing.
    pub open spec fn next(self, event: DriverEvent, reading: nat) -> DriverModel {
        match (self.phase, event) {
            (DriverPhase::Acquiring, DriverEvent::Acquired) => DriverModel {
                clock: ClockModel::fresh(self.clock.total).advanced(reading),
                phase: DriverPhase::Drawing,
                failure: self.failure,
            },
            (DriverPhase::Acquiring, DriverEvent::AcquireFailed) => self.failed(
                terminal_failure(TerminalError::Acquire),
            ),
            (DriverPhase::Drawing, DriverEvent::Drawn) => self.at(DriverPhase::Sleeping),
            (DriverPhase::Drawing, DriverEvent::DrawFailed) => self.failed(
                terminal_failure(TerminalError::Draw),
            ),
            (DriverPhase::Sleeping, DriverEvent::Slept) => DriverModel {
                clock: self.clock.advanced(reading),
                phase: if self.clock.advanced(reading).state == ClockState::Complete {
                    DriverPhase::Restoring
                } else {
                    DriverPhase::Drawing
                },
                failure: self.failure,
            },
            (DriverPhase::Restoring, DriverEvent::Restored) => if self.failure is None {
                self.at(DriverPhase::Beeping)
            } else {
                self.at(DriverPhase::Finished)
            },
            (DriverPhase::Restoring, DriverEvent::RestoreFailed) => self.failed(
                terminal_failure(TerminalError::Restore),
            ).at(DriverPhase::Finished),
            (DriverPhase::Beeping, DriverEvent::BeepSucceeded) => self.at(DriverPhase::Finished),
            (DriverPhase::Beeping, DriverEvent::BeepFailed) => self.failed(
                Some(AppError { failure: Failure::Audio(AudioError) }),
            ).at(DriverPhase::Finished),
            _ => self,
        }
    }
}

/// Drives one run of the timer.
pub struct TerminalDriver {
    clock: CountdownClock,
    phase: DriverPhase,
    failure: Option<AppError>,
}

impl View for TerminalDriver {
    type V = DriverModel;

    closed spec fn view(&self) -> DriverModel {
        DriverModel { clock: self.clock@, phase: self.phase, failure: self.failure }
    }
}

impl TerminalDriver {
    /// The instant at which the countdown of the run began. It is set when
    /// the terminal is acquired.
    pub closed spec fn start_instant(&self) -> Instant {
        self.clock.start_instant()
    }

    /// Begins a run with what the duration specs came to. A total is counted
    /// down; an error ends the run before the terminal is touched.
    pub fn start(parsed: Result<u64, ParsingError>) -> (driver: Self)
        ensures
            driver@ == DriverModel::initial(parsed),
    {
        match parsed {
            Ok(total) => TerminalDriver {
                clock: CountdownClock::new(total),
                phase: DriverPhase::Acquiring,
                failure: None,
            },
            Err(error) => TerminalDriver {
                clock: CountdownClock::new(0),
                phase: DriverPhase::Finished,
                failure: Some(AppError { failure: Failure::Parsing(error) }),
            },
        }
    }

    /// The action that is under way.
    pub fn pending(&self) -> (action: DriverAction)
        ensures
            action == self@.pending(),
    {
        match self.phase {
            DriverPhase::Acquiring => DriverAction::Acquire,
            DriverPhase::Drawing => DriverAction::Draw,
            DriverPhase::Sleeping => DriverAction::Sleep,
            DriverPhase::Restoring => DriverAction::Restore,
            DriverPhase::Beeping => DriverAction::Beep,
            DriverPhase::Finished => DriverAction::Exit(exit_status(&self.failure)),
        }
    }

    fn fail(&mut self, failure: AppError)
        ensures
            final(self)@ == old(self)@.failed(Some(failure)),
            final(self).start_instant() == old(self).start_instant(),
    {
        self.phase = DriverPhase::Restoring;
        if self.failure.is_none() {
            self.failure = Some(failure);
        }
    }

    /// Takes the event that answers the action under way and says what to
    /// do next, with `reading` for the seconds since the countdown began.
    pub fn step_at(&mut self, event: DriverEvent, reading: u64) -> (action: DriverAction)
        ensures
            final(self)@ == old(self)@.next(event, reading as nat),
            action == final(self)@.pending(),
            !(old(self)@.phase == DriverPhase::Acquiring && event == DriverEvent::Acquired)
                ==> final(self).start_instant() == old(self).start_instant(),
    {
        match (self.phase, event) {
            (DriverPhase::Acquiring, DriverEvent::Acquired) => {
                self.clock = CountdownClock::new(self.clock.total_seconds());
                self.clock.advance(reading);
                self.phase = DriverPhase::Drawing;
            },
            (DriverPhase::Acquiring, DriverEvent::AcquireFailed) => {
                self.fail(AppError { failure: Failure::Terminal(TerminalError::Acquire) });
            },
            (DriverPhase::Drawing, DriverEvent::Drawn) => {
                self.phase = DriverPhase::Sleeping;
            },
            (DriverPhase::Drawing, DriverEvent::DrawFailed) => {
                self.fail(AppError { failure: Failure::Terminal(TerminalError::Draw) });
            },
            (DriverPhase::Sleeping, DriverEvent::Slept) => {
                self.clock.advance(reading);
                if self.clock.is_complete() {
                    self.phase = DriverPhase::Restoring;
                } else {
                    self.phase = DriverPhase::Drawing;
                }
            },
            (DriverPhase::Restoring, DriverEvent::Restored) => {
                if self.failure.is_none() {
                    self.phase = DriverPhase::Beeping;
                } else {
                    self.phase = DriverPhase::Finished;
                }
            },
            (DriverPhase::Restoring, DriverEvent::RestoreFailed) => {
                self.fail(AppError { failure: Failure::Terminal(TerminalError::Restore) });
                self.phase = DriverPhase::Finished;
            },
            (DriverPhase::Beeping, DriverEvent::BeepSucceeded) => {
                self.phase = DriverPhase::Finished;
            },
            (DriverPhase::Beeping, DriverEvent::BeepFailed) => {
                self.fail(AppError { failure: Failure::Audio(AudioError) });
                self.phase = DriverPhase::Finished;
            },
            _ => {},
        }
        self.pending()
    }

    /// Takes the event that answers the action under way and says what to
    /// do next; for a tick the monotonic clock is read.
    ///
    /// The countdown begins with the terminal acquired, so the tick at that
    /// moment reads zero. Later ticks read what the clock says, and the step
    /// is the one of [`TerminalDriver::step_at`] for that reading.
    pub fn step(&mut self, event: DriverEvent) -> (action: DriverAction)
        ensures
            old(self)@.phase == DriverPhase::Acquiring ==> final(self)@ == old(self)@.next(event, 0),
            exists|reading: nat| final(self)@ == old(self)@.next(event, reading),
            action == final(self)@.pending(),
            !(old(self)@.phase == DriverPhase::Acquiring && event == DriverEvent::Acquired)
                ==> final(self).start_instant() == old(self).start_instant(),
    {
        let reading = match self.phase {
            DriverPhase::Acquiring => 0,
            _ => self.clock.seconds_since_start(),
        };
        self.step_at(event, reading)
    }

    /// Where the run stands.
    pub fn phase(&self) -> (phase: DriverPhase)
        ensures
            phase == self@.phase,
    {
        self.phase
    }

    /// The first thing that failed, if anything has.
    pub fn failure(&self) -> (failure: &Option<AppError>)
        ensures
            *failure == self@.failure,
    {
        &self.failure
    }

    /// The clock of the run.
    pub fn clock(&self) -> (clock: &CountdownClock)
        ensures
            clock@ == self@.clock,
            clock.start_instant() == self.start_instant(),
    {
        &self.clock
    }

    /// Projects the clock, as of its latest tick, onto a terminal area.
    pub fn frame(&self, area: Rect) -> (frame: RenderFrame)
        ensures
            frame.content@ == content_model(
                self@.clock.elapsed as u64,
                self@.clock.remaining() as u64,
                self@.clock.total as u64,
            ),
            frame.layout == layout_model(area),
    {
        let cursor = self.clock.cursor();
        render(cursor.elapsed_secs, cursor.remaining_secs, self.clock.total_seconds(), area)
    }
}

/// The event that reports how the tone went.
pub fn beep_outcome(result: Result<(), AudioError>) -> (event: DriverEvent)
    ensures
        event == match result {
            Ok(_) => DriverEvent::BeepSucceeded,
            Err(_) => DriverEvent::BeepFailed,
        },
{
    match result {
        Ok(_) => DriverEvent::BeepSucceeded,
        Err(_) => DriverEvent::BeepFailed,
    }
}

/// Emits the tone, once, and reports how it went. Whether the tone can be
/// emitted is the emitter's to say; either way the report answers the
/// action [`DriverAction::Beep`].
pub fn beep_event<B: Beeper>(beeper: &B) -> (event: DriverEvent)
    ensures
        event == DriverEvent::BeepSucceeded || event == DriverEvent::BeepFailed,
{
    beep_outcome(beeper.beep())
}

impl DriverModel {
    /// What holds of every state of a run: nothing has failed while the
    /// loop goes on, and the tone is in order only after a countdown that
    /// went through.
    pub open spec fn wf(self) -> bool {
        &&& self.clock.wf()
        &&& (self.phase == DriverPhase::Acquiring || self.phase == DriverPhase::Drawing
            || self.phase == DriverPhase::Sleeping) ==> self.failure is None
        &&& (self.phase == DriverPhase::Restoring && self.failure is None) ==> self.clock.state
            == ClockState::Complete
        &&& self.phase == DriverPhase::Beeping ==> self.failure is None && self.clock.state
            == ClockState::Complete
    }
}

/// A run begins well formed and stays so, whatever happens.
pub proof fn law_run_stays_well_formed(
    parsed: Result<u64, ParsingError>,
    state: DriverModel,
    event: DriverEvent,
    reading: nat,
)
    ensures
        DriverModel::initial(parsed).wf(),
        state.wf() ==> state.next(event, reading).wf(),
{
}

/// The terminal is given back on every way out: a run that has begun to
/// acquire the terminal is over only once the terminal was restored, or
/// could not be. Nothing follows the end of a run.
pub proof fn law_terminal_released_before_exit(
    state: DriverModel,
    event: DriverEvent,
    reading: nat,
)
    ensures
        state.phase == DriverPhase::Finished ==> state.next(event, reading) == state,
        state.phase != DriverPhase::Finished && state.next(event, reading).phase
            == DriverPhase::Finished ==> (state.phase == DriverPhase::Restoring && (event
            == DriverEvent::Restored || event == DriverEvent::RestoreFailed)) || state.phase
            == DriverPhase::Beeping,
        state.phase != DriverPhase::Beeping && state.next(event, reading).phase
            == DriverPhase::Beeping ==> state.phase == DriverPhase::Restoring && event
            == DriverEvent::Restored,
{
}

/// The tone is asked for only after a countdown that went through without
/// a failure, and a run exits with status zero only after the tone was
/// emitted.
pub proof fn law_tone_follows_completion(state: DriverModel, event: DriverEvent, reading: nat)
    requires
        state.wf(),
    ensures
        state.next(event, reading).pending() == DriverAction::Beep ==> state.next(
            event,
            reading,
        ).clock.state == ClockState::Complete && state.next(event, reading).failure is None,
        state.phase != DriverPhase::Finished && state.next(event, reading).pending()
            == DriverAction::Exit(EXIT_SUCCESS) ==> state.phase == DriverPhase::Beeping && event
            == DriverEvent::BeepSucceeded,
{
}

/// Rounds of a loop in which every draw succeeds keep the run in the loop
/// or leave it for the restoring of the terminal, and they leave it with
/// the clock complete.
proof fn lemma_rounds(state: DriverModel, readings: Seq<nat>)
    requires
        state.phase == DriverPhase::Drawing,
        state.failure is None,
        state.clock.wf(),
    ensures
        ({
            let end = state.after_rounds(readings);
            &&& end.failure is None
            &&& end.clock.wf()
            &&& end.clock.total == state.clock.total
            &&& end.phase == DriverPhase::Drawing || end.phase == DriverPhase::Restoring
            &&& end.phase == DriverPhase::Restoring ==> end.clock.state == ClockState::Complete
            &&& end.phase == DriverPhase::Drawing ==> end.clock.elapsed >= state.clock.elapsed
            &&& readings.len() > 0 && readings.last() >= state.clock.total ==> end.phase
                == DriverPhase::Restoring
            &&& state.clock.elapsed < state.clock.total && (forall|i: int|
                0 <= i < readings.len() ==> readings[i] < state.clock.total) ==> end.phase
                == DriverPhase::Drawing && end.clock.elapsed < state.clock.total
        }),
    decreases readings.len(),
{
    if readings.len() > 0 {
        let before = readings.drop_last();
        lemma_rounds(state, before);
        assert forall|i: int| 0 <= i < before.len() implies before[i] == readings[i] by {}
    }
}

/// The loop is left as soon as the total is reached: if the clock reads
/// the total or more after a sleep, the driver asks for the terminal to be
/// given back, and draws no further frame.
pub proof fn law_loop_is_left_once_total_is_reached(total: u64, first: nat, readings: Seq<nat>)
    requires
        readings.len() > 0,
        readings.last() >= total,
    ensures
        DriverModel::initial(Ok(total)).next(DriverEvent::Acquired, first).after_rounds(
            readings,
        ).pending() == DriverAction::Restore,
{
    lemma_rounds(DriverModel::initial(Ok(total)).next(DriverEvent::Acquired, first), readings);
}

/// The loop is not left earlier: as long as the clock reads less than the
/// total, the driver asks for the next frame.
pub proof fn law_loop_goes_on_until_total_is_reached(total: u64, first: nat, readings: Seq<nat>)
    requires
        first < total,
        forall|i: int| 0 <= i < readings.len() ==> readings[i] < total,
    ensures
        DriverModel::initial(Ok(total)).next(DriverEvent::Acquired, first).after_rounds(
            readings,
        ).pending() == DriverAction::Draw,
{
    lemma_rounds(DriverModel::initial(Ok(total)).next(DriverEvent::Acquired, first), readings);
}

/// A countdown of a number of seconds takes that many rounds and no more:
/// where every sleep lasts its second, so that the clock reads `k` seconds
/// or more after the `k`-th sleep, the loop is left after as many rounds as
/// the total has seconds.
pub proof fn law_countdown_takes_no_more_rounds_than_seconds(
    total: u64,
    first: nat,
    readings: Seq<nat>,
)
    requires
        total >= 1,
        readings.len() == total,
        forall|k: int| 0 <= k < readings.len() ==> readings[k] >= k + 1,
    ensures
        DriverModel::initial(Ok(total)).next(DriverEvent::Acquired, first).after_rounds(
            readings,
        ).pending() == DriverAction::Restore,
{
    law_loop_is_left_once_total_is_reached(total, first, readings);
}

} // verus!
