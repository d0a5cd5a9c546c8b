use tendermint_core::Step;
use tendermint_core::message::ConsensusMessage;
use tendermint_core::vote_collector::VoteCollector;

fn msg(height: usize, round: usize, step: Step, hash: Option<u8>, sig: u8) -> ConsensusMessage {
    ConsensusMessage {
        height,
        round,
        step,
        block_hash: hash.map(|b| vec![b; 32]),
        signature: vec![sig; 65],
    }
}

fn sig(b: u8) -> Vec<u8> {
    vec![b; 65]
}

#[test]
fn empty_collector_answers_empty() {
    let c = VoteCollector::new();
    assert_eq!(c.count_signatures(0, 0), 0);
    assert!(c.seal_signatures(0, 0, &None).is_empty());
}

#[test]
fn vote_is_idempotent() {
    let mut c = VoteCollector::new();
    let m = msg(5, 2, Step::Precommit, Some(0xAA), 1);
    c.vote(m.clone(), vec![7; 20]);
    let count_once = c.count_signatures(5, 2);
    let seal_once = c.seal_signatures(5, 2, &m.block_hash);
    c.vote(m.clone(), vec![7; 20]);
    assert_eq!(c.count_signatures(5, 2), count_once);
    assert_eq!(c.seal_signatures(5, 2, &m.block_hash), seal_once);
    assert_eq!(count_once, 1);
    assert_eq!(seal_once, vec![sig(1)]);
}

#[test]
fn revoting_with_another_voter_keeps_one_entry() {
    let mut c = VoteCollector::new();
    let m = msg(5, 2, Step::Precommit, Some(0xAA), 1);
    c.vote(m.clone(), vec![7; 20]);
    c.vote(m.clone(), vec![8; 20]);
    assert_eq!(c.count_signatures(5, 2), 1);
}

#[test]
fn seal_excludes_prevotes_and_other_hashes() {
    let mut c = VoteCollector::new();
    let a = msg(5, 2, Step::Propose, Some(0x01), 1);
    let b = msg(5, 2, Step::Precommit, Some(0x01), 2);
    let d = msg(5, 2, Step::Precommit, Some(0x02), 3);
    let e = msg(5, 2, Step::Prevote, Some(0x01), 4);
    c.vote(a.clone(), vec![10; 20]);
    c.vote(b.clone(), vec![11; 20]);
    c.vote(d.clone(), vec![12; 20]);
    c.vote(e.clone(), vec![13; 20]);

    // The prevote is excluded by step, the third vote by hash.
    assert_eq!(c.seal_signatures(5, 2, &a.block_hash), vec![sig(1), sig(2)]);
    assert_eq!(c.aligned_signatures(&a), vec![sig(1), sig(2)]);
    // The count spans all hashes but still excludes the prevote.
    assert_eq!(c.count_signatures(5, 2), 3);
}

#[test]
fn seal_order_follows_the_key_order_not_arrival() {
    let mut c = VoteCollector::new();
    let propose = msg(5, 2, Step::Propose, Some(0x01), 9);
    let precommit = msg(5, 2, Step::Precommit, Some(0x01), 3);
    // Inserted in reverse of their key order.
    c.vote(precommit, vec![1; 20]);
    c.vote(propose.clone(), vec![2; 20]);
    assert_eq!(c.seal_signatures(5, 2, &propose.block_hash), vec![sig(9), sig(3)]);
}

#[test]
fn identical_votes_of_two_validators_stay_distinct() {
    let mut c = VoteCollector::new();
    // Same height, round, step and hash; different signatures.
    let m1 = msg(5, 2, Step::Precommit, Some(0x01), 2);
    let m2 = msg(5, 2, Step::Precommit, Some(0x01), 1);
    c.vote(m1, vec![1; 20]);
    c.vote(m2, vec![2; 20]);
    assert_eq!(c.count_signatures(5, 2), 2);
    // Equal keys up to the signature order by the signature bytes.
    let seal = c.seal_signatures(5, 2, &Some(vec![0x01; 32]));
    assert_eq!(seal, vec![sig(1), sig(2)]);
}

#[test]
fn absent_hash_is_its_own_alignment() {
    let mut c = VoteCollector::new();
    let nil = msg(5, 2, Step::Precommit, None, 1);
    let real = msg(5, 2, Step::Precommit, Some(0x01), 2);
    c.vote(nil, vec![1; 20]);
    c.vote(real, vec![2; 20]);
    assert_eq!(c.seal_signatures(5, 2, &None), vec![sig(1)]);
    assert_eq!(c.seal_signatures(5, 2, &Some(vec![0x01; 32])), vec![sig(2)]);
    assert_eq!(c.count_signatures(5, 2), 2);
}

#[test]
fn other_rounds_and_heights_are_not_counted() {
    let mut c = VoteCollector::new();
    c.vote(msg(5, 2, Step::Precommit, Some(0x01), 1), vec![1; 20]);
    c.vote(msg(5, 3, Step::Precommit, Some(0x01), 2), vec![1; 20]);
    c.vote(msg(6, 2, Step::Precommit, Some(0x01), 3), vec![1; 20]);
    assert_eq!(c.count_signatures(5, 2), 1);
    assert_eq!(c.count_signatures(5, 3), 1);
    assert_eq!(c.count_signatures(6, 2), 1);
    assert_eq!(c.count_signatures(7, 0), 0);
}
