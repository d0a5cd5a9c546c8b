use tendermint_core::Step;
use tendermint_core::state::ConsensusState;
use tendermint_core::timeout::DefaultTimeouts;
use tendermint_core::timeout::ENGINE_TIMEOUT_TOKEN;
use tendermint_core::timeout::NextStep;
use tendermint_core::timeout::TimeoutOutcome;
use tendermint_core::timeout::TimerHandler;

fn handler() -> TimerHandler {
    TimerHandler::new(DefaultTimeouts { propose: 100, prevote: 200, precommit: 300, commit: 400 })
}

#[test]
fn default_timeouts_are_one_second_per_step() {
    let t = DefaultTimeouts::default();
    assert_eq!(t.propose, 1000);
    assert_eq!(t.prevote, 1000);
    assert_eq!(t.precommit, 1000);
    assert_eq!(t.commit, 1000);
}

#[test]
fn for_step_picks_the_configured_duration() {
    let t = DefaultTimeouts { propose: 1, prevote: 2, precommit: 3, commit: 4 };
    assert_eq!(t.for_step(Step::Propose), 1);
    assert_eq!(t.for_step(Step::Prevote), 2);
    assert_eq!(t.for_step(Step::Precommit), 3);
    assert_eq!(t.for_step(Step::Commit), 4);
}

#[test]
fn initialize_returns_what_is_left_of_the_step() {
    let h = handler();
    let s = ConsensusState::new();
    assert_eq!(h.initialize(&s, 0), 100);
    assert_eq!(h.initialize(&s, 30), 70);
    assert_eq!(h.initialize(&s, 100), 0);
    assert_eq!(h.initialize(&s, 5000), 0);
}

#[test]
fn timeout_on_engine_token_advances_and_reschedules() {
    let h = handler();
    let mut s = ConsensusState::new();
    let o = h.timeout(&mut s, ENGINE_TIMEOUT_TOKEN);
    assert_eq!(s.step, Step::Prevote);
    assert_eq!(s.round, 0);
    assert!(!s.proposed);
    // The fresh timer runs for the new step's base duration.
    assert_eq!(o, TimeoutOutcome::Advanced { next_duration: 200 });
}

#[test]
fn timeout_on_foreign_token_is_a_no_op() {
    let h = handler();
    let mut s = ConsensusState { step: Step::Precommit, round: 9, proposed: true };
    let o = h.timeout(&mut s, ENGINE_TIMEOUT_TOKEN + 1);
    assert_eq!(o, TimeoutOutcome::Idle);
    assert_eq!(s.step, Step::Precommit);
    assert_eq!(s.round, 9);
    assert!(s.proposed);
}

#[test]
fn untouched_engine_keeps_advancing_once_per_duration() {
    // Every fired timer yields both an advance and the next registration,
    // so an engine left alone steps once per configured duration.
    let h = handler();
    let mut s = ConsensusState::new();
    for _ in 0..6 {
        match h.timeout(&mut s, ENGINE_TIMEOUT_TOKEN) {
            TimeoutOutcome::Advanced { next_duration } => {
                assert_eq!(next_duration, h.timeouts.for_step(s.step));
            }
            TimeoutOutcome::Idle => panic!("engine token must always advance"),
        }
    }
    assert_eq!(s.round, 2);
    assert_eq!(s.step, Step::Propose);
}

#[test]
fn advance_signal_causes_exactly_one_transition() {
    let h = handler();
    let mut s = ConsensusState::new();
    // The advance signal itself only picks the duration to reschedule with;
    // the state stays put until the rescheduled timer fires.
    let d = h.message(&s, &NextStep);
    assert_eq!(d, 100);
    assert_eq!(s.step, Step::Propose);
    assert_eq!(s.round, 0);
    // The rescheduled timer fires: exactly one transition.
    h.timeout(&mut s, ENGINE_TIMEOUT_TOKEN);
    assert_eq!(s.step, Step::Prevote);
    assert_eq!(s.round, 0);
}
