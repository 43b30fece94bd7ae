//! The driver: polls, advances and draws while it is running.
use vstd::prelude::*;
use crate::clock::{advance, clock_after};
use crate::event::{first_signal, poll_signal, signal_of, Event, LoopState};
use crate::frame::{
    empty_ledger, next_ledger, next_phase, FrameAction, FrameError, FrameEvent, FramePhase,
};
use crate::stage::{answers, stage_steps_to, DrawCall, Stage, StageContainer};

verus! {

/// How often per second the driver is meant to update its stage.
pub const UPDATE_RATE: u64 = 120;

/// How often per second the driver is meant to draw a frame.
pub const RENDER_RATE: u64 = 60;

/// Nanoseconds in a second.
pub const NANOS_PER_SECOND: u64 = 1_000_000_000;

/// The time between two ticks at `rate` ticks per second, in whole
/// nanoseconds. A rate of zero has no period.
pub open spec fn period_of(rate: u64) -> Option<u64> {
    if rate == 0 {
        None
    } else {
        Some((NANOS_PER_SECOND / rate) as u64)
    }
}

/// The time between two ticks at `rate` ticks per second.
pub fn period(rate: u64) -> (step: Option<u64>)
    ensures
        step == period_of(rate),
{
    if rate == 0 {
        None
    } else {
        Some(NANOS_PER_SECOND / rate)
    }
}

/// Whether the driver still cycles. `Stopped` is final.
#[derive(Clone, Copy, Debug, PartialEq, Eq, Structural)]
pub enum DriverState {
    Running,
    Stopped,
}

/// What a poll answers: a stopped driver says `Break` whatever is queued, a
/// running one goes by the oldest queued event.
pub open spec fn poll_answer(state: DriverState, events: Seq<Event>) -> Option<LoopState> {
    match state {
        DriverState::Stopped => Some(LoopState::Break),
        DriverState::Running => first_signal(events),
    }
}

/// How many of the queued events a poll takes off the queue: a running driver
/// takes the oldest one, if there is one, and a stopped driver takes none.
pub open spec fn examined(state: DriverState, events: Seq<Event>) -> int {
    if state == DriverState::Running && events.len() > 0 {
        1
    } else {
        0
    }
}

/// The state after a poll gave `signal`: `Break` stops the driver, anything
/// else, no signal included, leaves the state as it was.
pub open spec fn state_after(state: DriverState, signal: Option<LoopState>) -> DriverState {
    if signal == Some(LoopState::Break) {
        DriverState::Stopped
    } else {
        state
    }
}

/// The event a driver in `state` passes on to its container. A stopped driver
/// starts no frame, and gives up a frame that arrives after the stop.
pub open spec fn passed_on(state: DriverState, event: FrameEvent) -> Option<FrameEvent> {
    match (state, event) {
        (DriverState::Stopped, FrameEvent::Start(_)) => None,
        (DriverState::Stopped, FrameEvent::Acquired) => Some(FrameEvent::Cancelled),
        _ => Some(event),
    }
}

/// The clock after `event` arrived in `phase`: the frame's length is added
/// when the frame is released.
pub open spec fn clock_after_step(timestamp: u64, phase: FramePhase, event: FrameEvent) -> u64 {
    match (phase, event) {
        (FramePhase::Submitting(dt), FrameEvent::Submitted) => clock_after(timestamp, dt as nat),
        (FramePhase::Submitting(dt), FrameEvent::Refused(_)) => clock_after(timestamp, dt as nat),
        (FramePhase::Acquiring(dt), FrameEvent::Cancelled) => clock_after(timestamp, dt as nat),
        _ => timestamp,
    }
}

/// The state after `event` arrived in `phase`: a draw call refused for the
/// stage's configuration ends the run, nothing else changes the state.
pub open spec fn state_after_step(state: DriverState, phase: FramePhase, event: FrameEvent)
    -> DriverState {
    if phase is Submitting && event == FrameEvent::Refused(FrameError::Configuration) {
        DriverState::Stopped
    } else {
        state
    }
}

/// The driver around one stage.
pub struct Lab<T: Stage> {
    stage: StageContainer<T>,
    timestamp: u64,
    state: DriverState,
}

impl<T: Stage> Lab<T> {
    /// The container with the stage.
    pub closed spec fn container(&self) -> StageContainer<T> {
        self.stage
    }

    /// Nanoseconds of frames released so far.
    pub closed spec fn clock(&self) -> u64 {
        self.timestamp
    }

    /// Whether the driver still cycles.
    pub closed spec fn state(&self) -> DriverState {
        self.state
    }

    /// A running driver that owns `obj`, with its clock at zero and no frame
    /// in flight.
    pub fn new(obj: T) -> (lab: Self)
        ensures
            lab.container().obj() == obj,
            lab.container().phase() == FramePhase::Idle,
            lab.container().ledger() == empty_ledger(),
            lab.clock() == 0,
            lab.state() == DriverState::Running,
    {
        let stage = StageContainer::new(obj);
        Lab { stage, timestamp: 0, state: DriverState::Running }
    }

    /// The container, to read.
    pub fn stage(&self) -> (stage: &StageContainer<T>)
        ensures
            *stage == self.container(),
    {
        &self.stage
    }

    /// Nanoseconds of frames released so far.
    pub fn timestamp(&self) -> (timestamp: u64)
        ensures
            timestamp == self.clock(),
    {
        self.timestamp
    }

    /// Whether the driver still cycles.
    pub fn is_running(&self) -> (running: bool)
        ensures
            running == (self.state() == DriverState::Running),
    {
        match self.state {
            DriverState::Running => true,
            DriverState::Stopped => false,
        }
    }

    /// Derives the loop signal from the queued events, oldest first, and stops
    /// the driver on `Break`. A running driver examines the oldest event and
    /// takes it off the queue; the events behind it stay queued, in their
    /// order. A stopped driver leaves the queue alone. The stage and the clock
    /// are never touched.
    pub fn poll(&mut self, events: &mut Vec<Event>) -> (signal: Option<LoopState>)
        ensures
            signal == poll_answer(old(self).state(), old(events)@),
            final(self).state() == state_after(old(self).state(), signal),
            final(self).container() == old(self).container(),
            final(self).clock() == old(self).clock(),
            final(events)@ == old(events)@.skip(examined(old(self).state(), old(events)@)),
    {
        match self.state {
            DriverState::Stopped => {
                assert(events@.skip(0) =~= events@);
                Some(LoopState::Break)
            },
            DriverState::Running => {
                let signal = poll_signal(events);
                match signal {
                    Some(LoopState::Break) => {
                        self.state = DriverState::Stopped;
                    },
                    _ => {},
                }
                if events.len() > 0 {
                    let _ = events.remove(0);
                    assert(events@ =~= old(events)@.skip(1));
                } else {
                    assert(events@.skip(0) =~= events@);
                }
                signal
            },
        }
    }

    /// Advances the stage by `dt` while the driver runs. A stopped driver
    /// leaves the stage alone.
    pub fn update(&mut self, dt: u64)
        ensures
            final(self).state() == old(self).state(),
            final(self).clock() == old(self).clock(),
            old(self).state() == DriverState::Stopped ==> final(self).container() == old(
                self,
            ).container(),
            old(self).state() == DriverState::Running ==> {
                &&& old(self).container().obj().updates_to(
                    dt as nat,
                    &final(self).container().obj(),
                )
                &&& final(self).container().phase() == old(self).container().phase()
                &&& final(self).container().ledger() == old(self).container().ledger()
            },
    {
        match self.state {
            DriverState::Running => {
                self.stage.update(dt);
            },
            DriverState::Stopped => {},
        }
    }

    /// One step of drawing a frame, as the container takes it, with the
    /// driver's own rules on top. A stopped driver starts no frame: `Start` is
    /// then ignored and nothing changes. A frame that arrives after the stop
    /// is given up: the stage is not asked for anything, and the frame is
    /// presented as it was cleared. When a frame is released its length is
    /// added to the clock, and a draw call refused for the stage's
    /// configuration stops the driver.
    pub fn render(&mut self, event: FrameEvent) -> (action: FrameAction<DrawCall<T>>)
        ensures
            passed_on(old(self).state(), event) is None ==> {
                &&& action == FrameAction::<DrawCall<T>>::Ignore
                &&& *final(self) == *old(self)
            },
            passed_on(old(self).state(), event) matches Some(passed) ==> {
                &&& answers(action, old(self).container().phase(), passed, final(self).container().obj())
                &&& stage_steps_to(
                    old(self).container().obj(),
                    old(self).container().phase(),
                    passed,
                    final(self).container().obj(),
                )
                &&& final(self).container().phase() == next_phase(
                    old(self).container().phase(),
                    passed,
                )
                &&& final(self).container().ledger() == next_ledger(
                    old(self).container().ledger(),
                    old(self).container().phase(),
                    passed,
                )
                &&& final(self).clock() == clock_after_step(
                    old(self).clock(),
                    old(self).container().phase(),
                    passed,
                )
                &&& final(self).state() == state_after_step(
                    old(self).state(),
                    old(self).container().phase(),
                    passed,
                )
            },
    {
        let passed = match (self.state, event) {
            (DriverState::Stopped, FrameEvent::Start(_)) => {
                return FrameAction::Ignore;
            },
            (DriverState::Stopped, FrameEvent::Acquired) => FrameEvent::Cancelled,
            _ => event,
        };
        let phase = self.stage.frame_phase();
        let action = self.stage.draw(passed);
        match (phase, passed) {
            (FramePhase::Submitting(dt), FrameEvent::Submitted) => {
                self.timestamp = advance(self.timestamp, dt);
            },
            (FramePhase::Submitting(dt), FrameEvent::Refused(error)) => {
                self.timestamp = advance(self.timestamp, dt);
                match error {
                    FrameError::Configuration => {
                        self.state = DriverState::Stopped;
                    },
                    FrameError::Rejected => {},
                }
            },
            (FramePhase::Acquiring(dt), FrameEvent::Cancelled) => {
                self.timestamp = advance(self.timestamp, dt);
            },
            _ => {},
        }
        action
    }

    /// One cycle of the loop: poll, and while the driver still runs, update
    /// the stage by `dt` and only then start the frame that is due, if one
    /// is: `frame` holds its length. A driver that is or becomes stopped
    /// touches nothing and asks for nothing. The queue is used as `poll` uses
    /// it.
    pub fn cycle(&mut self, events: &mut Vec<Event>, dt: u64, frame: Option<u64>) -> (action:
        FrameAction<DrawCall<T>>)
        ensures
            final(self).state() == state_after(
                old(self).state(),
                poll_answer(old(self).state(), old(events)@),
            ),
            final(self).clock() == old(self).clock(),
            final(events)@ == old(events)@.skip(examined(old(self).state(), old(events)@)),
            final(self).state() == DriverState::Stopped ==> {
                &&& action == FrameAction::<DrawCall<T>>::Ignore
                &&& final(self).container() == old(self).container()
            },
            final(self).state() == DriverState::Running ==> old(self).container().obj().updates_to(
                dt as nat,
                &final(self).container().obj(),
            ),
            final(self).state() == DriverState::Running && frame is None ==> {
                &&& action == FrameAction::<DrawCall<T>>::Ignore
                &&& final(self).container().phase() == old(self).container().phase()
                &&& final(self).container().ledger() == old(self).container().ledger()
            },
            final(self).state() == DriverState::Running ==> (frame matches Some(length) ==> {
                &&& answers(
                    action,
                    old(self).container().phase(),
                    FrameEvent::Start(length),
                    final(self).container().obj(),
                )
                &&& final(self).container().phase() == next_phase(
                    old(self).container().phase(),
                    FrameEvent::Start(length),
                )
                &&& final(self).container().ledger() == next_ledger(
                    old(self).container().ledger(),
                    old(self).container().phase(),
                    FrameEvent::Start(length),
                )
            }),
    {
        let _ = self.poll(events);
        if self.is_running() {
            self.update(dt);
            match frame {
                Some(length) => self.render(FrameEvent::Start(length)),
                None => FrameAction::Ignore,
            }
        } else {
            FrameAction::Ignore
        }
    }
}

/// Once stopped, always stopped: no poll and no step of a frame brings the
/// driver back to running.
pub proof fn lemma_stopped_is_final(events: Seq<Event>, phase: FramePhase, event: FrameEvent)
    ensures
        state_after(DriverState::Stopped, poll_answer(DriverState::Stopped, events))
            == DriverState::Stopped,
        state_after_step(DriverState::Stopped, phase, event) == DriverState::Stopped,
{
}

/// A close request at the head of the queue stops a running driver.
pub proof fn lemma_close_stops(events: Seq<Event>)
    requires
        events.len() > 0,
        events[0] == Event::Closed,
    ensures
        state_after(DriverState::Running, poll_answer(DriverState::Running, events))
            == DriverState::Stopped,
{
}

/// A poll that finds anything but a close request at the head of the queue,
/// or nothing at all, leaves a running driver running.
pub proof fn lemma_other_events_keep_running(events: Seq<Event>)
    requires
        events.len() > 0 ==> events[0] != Event::Closed,
    ensures
        state_after(DriverState::Running, poll_answer(DriverState::Running, events))
            == DriverState::Running,
{
}

/// A stopped driver never has its stage touched by a step of a frame:
/// whatever the host reports, what is passed on leaves the stage as it is.
pub proof fn lemma_stopped_leaves_stage_alone<T: Stage>(
    obj: T,
    phase: FramePhase,
    event: FrameEvent,
    next: T,
)
    requires
        passed_on(DriverState::Stopped, event) matches Some(passed) && stage_steps_to(
            obj,
            phase,
            passed,
            next,
        ),
    ensures
        next == obj,
{
}

/// A poll takes at most one event off the queue, and takes one exactly when
/// it gives the signal of a running driver.
pub proof fn lemma_poll_takes_what_it_examines(state: DriverState, events: Seq<Event>)
    ensures
        0 <= examined(state, events) <= 1,
        examined(state, events) == 1 <==> state == DriverState::Running && events.len() > 0,
        examined(state, events) == 1 ==> poll_answer(state, events) == Some(
            signal_of(events[0]),
        ),
        examined(DriverState::Running, events) == 0 ==> poll_answer(DriverState::Running, events)
            is None,
{
}

} // verus!
