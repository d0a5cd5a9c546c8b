use tendermint_core::Step;
use tendermint_core::state::ConsensusState;

#[test]
fn initial_state_is_propose_round_zero() {
    let s = ConsensusState::new();
    assert_eq!(s.current_step(), Step::Propose);
    assert_eq!(s.current_round(), 0);
    assert!(!s.is_proposed());
}

#[test]
fn timeout_sequence_cycles_steps_and_bumps_round_every_third() {
    let mut s = ConsensusState::new();
    let expected = [
        (Step::Prevote, 0),
        (Step::Precommit, 0),
        (Step::Propose, 1),
        (Step::Prevote, 1),
        (Step::Precommit, 1),
        (Step::Propose, 2),
        (Step::Prevote, 2),
    ];
    for (step, round) in expected.iter() {
        s.transition();
        assert_eq!(s.current_step(), *step);
        assert_eq!(s.current_round(), *round);
    }
}

#[test]
fn transition_clears_proposed_flag_whatever_it_was() {
    let mut s = ConsensusState::new();
    s.mark_proposed();
    assert!(s.is_proposed());
    s.transition();
    assert!(!s.is_proposed());

    // And also when the flag was already clear.
    s.transition();
    assert!(!s.is_proposed());

    // And from every step, including Commit.
    let mut c = ConsensusState { step: Step::Commit, round: 7, proposed: true };
    c.transition();
    assert!(!c.proposed);
}

#[test]
fn commit_timeout_advances_to_propose_of_next_round() {
    let mut s = ConsensusState { step: Step::Commit, round: 5, proposed: true };
    s.transition();
    assert_eq!(s.step, Step::Propose);
    assert_eq!(s.round, 6);
    assert!(!s.proposed);
}

#[test]
fn prevote_transition_keeps_round() {
    let mut s = ConsensusState { step: Step::Prevote, round: 3, proposed: false };
    s.transition();
    assert_eq!(s.step, Step::Precommit);
    assert_eq!(s.round, 3);
}
