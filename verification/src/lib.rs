//! Round-based, timeout-driven consensus core: step/round bookkeeping and
//! vote collection for assembling block seals.
//!
//! The crate holds the pure heart of a Tendermint-style engine: the step
//! transition rule driven by timer expiry, the per-step timeout computation,
//! and the ordered store of signed consensus messages that quorum and seal
//! queries are answered from. Timers, message buses and signature recovery
//! are collaborators; the surrounding runtime performs them and feeds plain
//! values into the functions here.

use vstd::prelude::*;

pub mod message;
pub mod state;
pub mod timeout;
pub mod vote_collector;

verus! {

/// Block number currently under consensus.
pub type Height = usize;

/// Sub-attempt counter within a height; incremented when a cycle of steps
/// fails to finalize.
pub type Round = usize;

/// One phase of a consensus round. `Commit` is a waiting phase reached
/// externally; on its own timeout it advances to `Propose` of the next round.
#[derive(Clone, Copy, PartialEq, Eq, Structural, Debug)]
pub enum Step {
    Propose,
    Prevote,
    Precommit,
    Commit,
}

/// Fixed numeric rank of a step, used by the total order on consensus
/// messages.
pub open spec fn step_rank(s: Step) -> int {
    match s {
        Step::Propose => 0,
        Step::Prevote => 1,
        Step::Precommit => 2,
        Step::Commit => 3,
    }
}

/// Cyclic successor of a step: Propose -> Prevote -> Precommit -> Propose;
/// Commit also falls back to Propose.
pub open spec fn step_successor(s: Step) -> Step {
    match s {
        Step::Propose => Step::Prevote,
        Step::Prevote => Step::Precommit,
        Step::Precommit => Step::Propose,
        Step::Commit => Step::Propose,
    }
}

} // verus!
