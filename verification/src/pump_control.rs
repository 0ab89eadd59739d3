//! The pump actuator's state machine: PWM duty programming with a
//! shutoff watchdog.
//!
//! A target intensity of `1` or more is programmed immediately. A stop
//! request (target below `1`) is debounced: the actuator enters a
//! shutdown window with a deadline two seconds ahead, and only if no
//! contrary instruction arrives before that deadline is the PWM timer
//! actually stopped. From the stopped state, further stop values are
//! ignored until a target of `1` or more restarts the timer. The PWM
//! hardware and the signal wait are driven by the owning task, which
//! feeds each observed event into [`PumpController::step`] and performs
//! the returned action.

use vstd::prelude::*;

verus! {

/// How long a stop request may be rescinded before the timer is really
/// stopped, in milliseconds.
pub const SHUTDOWN_GRACE_MS: u64 = 2000;

/// The actuator's state. `Running`: the PWM timer runs and targets are
/// applied as duty directly. `ShuttingDown`: a stop request is pending
/// until the stored deadline. `Idle`: the timer is stopped.
#[derive(Debug, Clone, Copy, PartialEq, Eq, Structural)]
pub enum PumpState {
    Running,
    ShuttingDown { deadline: u64 },
    Idle,
}

/// What the actuator's task observed: a target intensity taken from the
/// signal, or the pending shutdown deadline passing first.
#[derive(Debug, Clone, Copy, PartialEq, Eq, Structural)]
pub enum PumpEvent {
    Target(u8),
    DeadlineElapsed,
}

/// What the task must do to the PWM hardware after a step: nothing,
/// program the duty, stop the timer, or restart the timer and then
/// program the duty.
#[derive(Debug, Clone, Copy, PartialEq, Eq, Structural)]
pub enum PumpAction {
    Keep,
    SetDuty(u8),
    Stop,
    StartAndSetDuty(u8),
}

/// The transition table. `now` is the time at which the event was
/// observed, in milliseconds; it only matters for arming the shutdown
/// deadline. A target of `1` or more always ends in `Running` with the
/// duty programmed; a stop request arms or keeps a shutdown window, and
/// only the deadline passing in that window stops the timer. A
/// `DeadlineElapsed` outside the window has no armed deadline behind it
/// and changes nothing.
pub open spec fn pump_next(state: PumpState, event: PumpEvent, now: u64) -> (
    PumpState,
    PumpAction,
) {
    match (state, event) {
        (PumpState::Running, PumpEvent::Target(t)) => if t >= 1 {
            (PumpState::Running, PumpAction::SetDuty(t))
        } else {
            (PumpState::ShuttingDown { deadline: (now + SHUTDOWN_GRACE_MS) as u64 },
            PumpAction::Keep)
        },
        (PumpState::ShuttingDown { deadline }, PumpEvent::Target(t)) => if t >= 1 {
            (PumpState::Running, PumpAction::SetDuty(t))
        } else {
            (PumpState::ShuttingDown { deadline }, PumpAction::Keep)
        },
        (PumpState::ShuttingDown { .. }, PumpEvent::DeadlineElapsed) => (
            PumpState::Idle,
            PumpAction::Stop,
        ),
        (PumpState::Idle, PumpEvent::Target(t)) => if t >= 1 {
            (PumpState::Running, PumpAction::StartAndSetDuty(t))
        } else {
            (PumpState::Idle, PumpAction::Keep)
        },
        (s, PumpEvent::DeadlineElapsed) => (s, PumpAction::Keep),
    }
}

/// The pump actuator. The PWM peripheral, its clock configuration and
/// the output pin are owned by the task that runs the control loop;
/// the controller holds the state the debounce decisions depend on.
pub struct PumpController {
    pub state: PumpState,
}

impl PumpController {
    /// A fresh controller. The PWM timer runs from construction with no
    /// duty programmed, so the machine starts in `Running`, waiting for
    /// the first target.
    pub fn new() -> (r: Self)
        ensures
            r.state == PumpState::Running,
    {
        PumpController { state: PumpState::Running }
    }

    /// One step of the state machine: consumes the observed event and
    /// returns the hardware action to perform.
    pub fn step(&mut self, event: PumpEvent, now: u64) -> (action: PumpAction)
        requires
            now + SHUTDOWN_GRACE_MS <= u64::MAX,
        ensures
            (final(self).state, action) == pump_next(old(self).state, event, now),
    {
        let (next, action) = match (self.state, event) {
            (PumpState::Running, PumpEvent::Target(t)) => if t >= 1 {
                (PumpState::Running, PumpAction::SetDuty(t))
            } else {
                (PumpState::ShuttingDown { deadline: now + SHUTDOWN_GRACE_MS }, PumpAction::Keep)
            },
            (PumpState::ShuttingDown { deadline }, PumpEvent::Target(t)) => if t >= 1 {
                (PumpState::Running, PumpAction::SetDuty(t))
            } else {
                (PumpState::ShuttingDown { deadline }, PumpAction::Keep)
            },
            (PumpState::ShuttingDown { .. }, PumpEvent::DeadlineElapsed) => (
                PumpState::Idle,
                PumpAction::Stop,
            ),
            (PumpState::Idle, PumpEvent::Target(t)) => if t >= 1 {
                (PumpState::Running, PumpAction::StartAndSetDuty(t))
            } else {
                (PumpState::Idle, PumpAction::Keep)
            },
            (s, PumpEvent::DeadlineElapsed) => (s, PumpAction::Keep),
        };
        self.state = next;
        action
    }
}

/// The timer is never stopped by a signal value: only the shutdown
/// deadline passing stops it. A stop request merely arms the window,
/// so a second value arriving inside the window — whatever it is —
/// cannot itself power the timer down.
pub proof fn lemma_stop_only_on_deadline(state: PumpState, t: u8, now: u64)
    ensures
        pump_next(state, PumpEvent::Target(t), now).1 != PumpAction::Stop,
{
}

/// A contrary instruction inside the shutdown window cancels the
/// shutdown: a target of `1` or more observed while `ShuttingDown`
/// resumes `Running` with that duty, and the timer keeps running; a
/// further stop value keeps the window open with its original deadline.
pub proof fn lemma_shutdown_window(deadline: u64, t: u8, now: u64)
    ensures
        t >= 1 ==> pump_next(
            PumpState::ShuttingDown { deadline },
            PumpEvent::Target(t),
            now,
        ) == (PumpState::Running, PumpAction::SetDuty(t)),
        t < 1 ==> pump_next(PumpState::ShuttingDown { deadline }, PumpEvent::Target(t), now) == (
            PumpState::ShuttingDown { deadline },
            PumpAction::Keep,
        ),
{
}

/// A sustained stop request stops the timer exactly once: the deadline
/// passing in the shutdown window yields `Stop` and the machine goes
/// `Idle`; from `Idle` no event ever yields `Stop` again, stop values
/// are ignored, and only a target of `1` or more restarts the timer.
pub proof fn lemma_sustained_stop(deadline: u64, event: PumpEvent, now: u64)
    ensures
        pump_next(PumpState::ShuttingDown { deadline }, PumpEvent::DeadlineElapsed, now) == (
            PumpState::Idle,
            PumpAction::Stop,
        ),
        pump_next(PumpState::Idle, event, now).1 != PumpAction::Stop,
        forall|t: u8|
            t < 1 ==> pump_next(PumpState::Idle, PumpEvent::Target(t), now) == (
                PumpState::Idle,
                PumpAction::Keep,
            ),
        forall|t: u8|
            t >= 1 ==> pump_next(PumpState::Idle, PumpEvent::Target(t), now) == (
                PumpState::Running,
                PumpAction::StartAndSetDuty(t),
            ),
{
}

} // verus!
