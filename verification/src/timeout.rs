//! Step timeout handling: per-step base durations and the decision core of
//! the timer-driven scheduler.
//!
//! The scheduler's outside work — registering and clearing one-shot timers,
//! resolving the non-owning engine handle, notifying the message bus — lives
//! in the surrounding runtime. The runtime resolves the engine, calls the
//! functions here with the engine's state, and then performs the returned
//! action: register a timer for the returned duration, and on an advance
//! notify the bus that sealing should be reconsidered.

use vstd::prelude::*;

use crate::Step;
use crate::state::ConsensusState;
use crate::state::advanced;
use crate::Round;

verus! {

/// Milliseconds.
pub type Ms = usize;

/// Identifier of a registered timer.
pub type TimerToken = usize;

/// Timer token representing the consensus step timeouts.
pub const ENGINE_TIMEOUT_TOKEN: TimerToken = 0;

/// Base timeout of each step in ms.
#[derive(Debug, Clone)]
pub struct DefaultTimeouts {
    /// Base duration of the Propose step.
    pub propose: Ms,
    /// Base duration of the Prevote step.
    pub prevote: Ms,
    /// Base duration of the Precommit step.
    pub precommit: Ms,
    /// Base duration of the Commit step.
    pub commit: Ms,
}

/// Base duration configured for a step.
pub open spec fn step_duration(t: DefaultTimeouts, s: Step) -> Ms {
    match s {
        Step::Propose => t.propose,
        Step::Prevote => t.prevote,
        Step::Precommit => t.precommit,
        Step::Commit => t.commit,
    }
}

/// What is left of a step's base duration once `elapsed` ms of it have
/// passed; zero when the deadline is already behind.
pub open spec fn remaining_duration(t: DefaultTimeouts, s: Step, elapsed: Ms) -> Ms {
    if elapsed >= step_duration(t, s) {
        0
    } else {
        (step_duration(t, s) - elapsed) as Ms
    }
}

impl Default for DefaultTimeouts {
    /// One second per step.
    fn default() -> (r: DefaultTimeouts)
        ensures
            r.propose == 1000,
            r.prevote == 1000,
            r.precommit == 1000,
            r.commit == 1000,
    {
        DefaultTimeouts { propose: 1000, prevote: 1000, precommit: 1000, commit: 1000 }
    }
}

impl DefaultTimeouts {
    /// Base duration of the given step.
    pub fn for_step(&self, s: Step) -> (d: Ms)
        ensures
            d == step_duration(*self, s),
    {
        match s {
            Step::Propose => self.propose,
            Step::Prevote => self.prevote,
            Step::Precommit => self.precommit,
            Step::Commit => self.commit,
        }
    }
}

/// Message asking the scheduler to move to the next step ahead of its
/// deadline.
#[derive(Clone)]
pub struct NextStep;

/// What the runtime must do after a timer fired.
#[derive(Clone, Copy, PartialEq, Eq, Structural, Debug)]
pub enum TimeoutOutcome {
    /// The token belonged to no live deadline of this engine: nothing to do.
    Idle,
    /// The step advanced. The runtime should, best effort, notify the
    /// message bus that sealing is to be reconsidered, and register a fresh
    /// one-shot timer for `next_duration` ms; failure of either is logged
    /// and never escalated.
    Advanced {
        /// Base duration of the step just entered.
        next_duration: Ms,
    },
}

/// Decision core of the step scheduler. It owns the per-step timeouts; the
/// engine's state and the timer service stay with the runtime, which holds
/// only a non-owning handle to the engine and calls in here after resolving
/// it.
#[derive(Debug, Clone)]
pub struct TimerHandler {
    /// Per-step base timeouts the scheduler works from.
    pub timeouts: DefaultTimeouts,
}

impl TimerHandler {
    /// A handler over the given per-step timeouts.
    pub fn new(timeouts: DefaultTimeouts) -> (r: TimerHandler)
        ensures
            r.timeouts == timeouts,
    {
        TimerHandler { timeouts }
    }

    /// Duration for the very first one-shot timer: what remains of the
    /// current step's deadline when `elapsed` ms of it have already passed.
    /// Failure to register this first timer is fatal to startup and is the
    /// runtime's to surface.
    pub fn initialize(&self, state: &ConsensusState, elapsed: Ms) -> (d: Ms)
        ensures
            d == remaining_duration(self.timeouts, state.step, elapsed),
    {
        let base = self.for_current(state);
        if elapsed >= base {
            0
        } else {
            base - elapsed
        }
    }

    /// Base duration of the state's current step, used to reschedule after
    /// a transition.
    pub fn for_current(&self, state: &ConsensusState) -> (d: Ms)
        ensures
            d == step_duration(self.timeouts, state.step),
    {
        self.timeouts.for_step(state.current_step())
    }

    /// Handle a fired timer. A token that is not the engine's leaves the
    /// state untouched. On the engine's token the step always advances —
    /// there is no failure path — and the outcome carries the new step's
    /// base duration for the fresh one-shot timer, so that an engine left
    /// untouched keeps advancing once per configured step duration.
    pub fn timeout(&self, state: &mut ConsensusState, timer: TimerToken) -> (o: TimeoutOutcome)
        requires
            old(state).round < Round::MAX,
        ensures
            timer == ENGINE_TIMEOUT_TOKEN ==> {
                &&& *final(state) == advanced(*old(state))
                &&& o == (TimeoutOutcome::Advanced {
                    next_duration: step_duration(self.timeouts, advanced(*old(state)).step),
                })
            },
            timer != ENGINE_TIMEOUT_TOKEN ==> {
                &&& *final(state) == *old(state)
                &&& o == TimeoutOutcome::Idle
            },
    {
        if timer == ENGINE_TIMEOUT_TOKEN {
            state.transition();
            TimeoutOutcome::Advanced { next_duration: self.for_current(state) }
        } else {
            TimeoutOutcome::Idle
        }
    }

    /// Handle an explicit advance-now signal: the runtime clears the pending
    /// timer and registers a fresh one for the returned duration, which may
    /// be immediate. The state itself is untouched — the one subsequent
    /// transition happens when that timer fires, so an advance signal never
    /// causes a double advance.
    pub fn message(&self, state: &ConsensusState, _net_message: &NextStep) -> (d: Ms)
        ensures
            d == step_duration(self.timeouts, state.step),
    {
        self.for_current(state)
    }
}

} // verus!
