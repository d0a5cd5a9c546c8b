//! Consensus state: current step, current round and the proposed-this-step
//! flag, together with the single transition rule that timer expiry drives.

use vstd::prelude::*;

use crate::Round;
use crate::Step;
use crate::step_successor;

verus! {

/// The three counters of one engine instance. Created once per engine with
/// `step == Propose`, `round == 0`, `proposed == false`; mutated only through
/// [`ConsensusState::transition`] (and [`ConsensusState::mark_proposed`] when
/// a proposal is recorded for the current step).
#[derive(Clone, Copy, PartialEq, Eq, Structural, Debug)]
pub struct ConsensusState {
    /// Current consensus step.
    pub step: Step,
    /// Current round within the height under consensus.
    pub round: Round,
    /// Whether a proposal has been recorded for the current round's Propose
    /// step; cleared on every transition.
    pub proposed: bool,
}

/// The state a fresh engine starts from.
pub open spec fn initial_state() -> ConsensusState {
    ConsensusState { step: Step::Propose, round: 0, proposed: false }
}

/// Whether a transition out of `s` increments the round: only the
/// Precommit -> Propose and Commit -> Propose transitions do.
pub open spec fn bumps_round(s: Step) -> bool {
    s == Step::Precommit || s == Step::Commit
}

/// The transition rule: step moves to its cyclic successor, the round is
/// incremented when the prior step was Precommit or Commit, and the
/// proposed flag is cleared unconditionally.
pub open spec fn advanced(s: ConsensusState) -> ConsensusState {
    ConsensusState {
        step: step_successor(s.step),
        round: if bumps_round(s.step) { (s.round + 1) as Round } else { s.round },
        proposed: false,
    }
}

/// `n` consecutive timeout-driven transitions applied to `s`.
pub open spec fn advanced_n(s: ConsensusState, n: nat) -> ConsensusState
    decreases n,
{
    if n == 0 {
        s
    } else {
        advanced(advanced_n(s, (n - 1) as nat))
    }
}

impl ConsensusState {
    /// A fresh state: Propose step, round zero, nothing proposed.
    pub fn new() -> (r: ConsensusState)
        ensures
            r == initial_state(),
    {
        ConsensusState { step: Step::Propose, round: 0, proposed: false }
    }

    /// Perform one step transition. Always succeeds: the step becomes its
    /// cyclic successor, the round is incremented exactly when the prior
    /// step was Precommit or Commit, and the proposed flag is cleared
    /// whatever its prior value was.
    pub fn transition(&mut self)
        requires
            old(self).round < Round::MAX,
        ensures
            *final(self) == advanced(*old(self)),
            !final(self).proposed,
    {
        let next = match self.step {
            Step::Propose => Step::Prevote,
            Step::Prevote => Step::Precommit,
            Step::Precommit => {
                self.round = self.round + 1;
                Step::Propose
            },
            Step::Commit => {
                self.round = self.round + 1;
                Step::Propose
            },
        };
        self.step = next;
        self.proposed = false;
    }

    /// Record that a proposal was made for the current step; only the
    /// flag changes.
    pub fn mark_proposed(&mut self)
        ensures
            *final(self) == (ConsensusState { proposed: true, ..*old(self) }),
    {
        self.proposed = true;
    }

    /// Current step.
    pub fn current_step(&self) -> (r: Step)
        ensures
            r == self.step,
    {
        self.step
    }

    /// Current round.
    pub fn current_round(&self) -> (r: Round)
        ensures
            r == self.round,
    {
        self.round
    }

    /// Whether a proposal has been recorded for the current step.
    pub fn is_proposed(&self) -> (r: bool)
        ensures
            r == self.proposed,
    {
        self.proposed
    }
}

/// Timeout-driven progression law: starting from the initial state, the
/// `n`-th transition lands on Propose, Prevote or Precommit according to
/// `n % 3`, and the round equals `n / 3` — it is incremented exactly once
/// every third transition. Commit never arises from timeouts alone, and the
/// proposed flag is clear throughout.
pub proof fn lemma_timeout_progression(n: nat)
    requires
        n / 3 < Round::MAX,
    ensures
        advanced_n(initial_state(), n).round == n / 3,
        advanced_n(initial_state(), n).step == (if n % 3 == 0 {
            Step::Propose
        } else if n % 3 == 1 {
            Step::Prevote
        } else {
            Step::Precommit
        }),
        !advanced_n(initial_state(), n).proposed,
    decreases n,
{
    if n > 0 {
        lemma_timeout_progression((n - 1) as nat);
    }
}

/// The proposed flag is false immediately after every transition, whatever
/// its value before the transition and whatever the rest of the state.
pub proof fn lemma_transition_clears_proposed(s: ConsensusState)
    ensures
        !advanced(s).proposed,
{
}

} // verus!
