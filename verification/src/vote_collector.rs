//! Collects votes on hashes at each height and round.
//!
//! The store maps each full consensus message — signature included — to the
//! identity of its voter, so identical votes from different validators stay
//! distinct entries. Entries are kept in the pinned message order, and seal
//! queries answer in that order, not in arrival order.

use vstd::prelude::*;

use core::cmp::Ordering;

use crate::Height;
use crate::Round;
use crate::Step;
use crate::message::ConsensusMessage;
use crate::message::MessageView;
use crate::message::lemma_msg_ord_eq;
use crate::message::lemma_msg_ord_flip;
use crate::message::lemma_msg_ord_trans;
use crate::message::msg_is_aligned;
use crate::message::msg_is_round;
use crate::message::msg_ord;
use crate::message::opt_bytes_view;

verus! {

/// Voter identity, as recovered from the vote's signature by a collaborator
/// before the vote is handed in.
pub type Address = Vec<u8>;

/// One stored vote: the message that keys it and the voter it recovered to.
#[derive(Debug)]
struct VoteEntry {
    message: ConsensusMessage,
    voter: Address,
}

/// Mathematical image of one stored vote.
#[verifier::ext_equal]
pub ghost struct VoteEntryView {
    /// The message that keys the entry.
    pub message: MessageView,
    /// The voter the message's signature recovered to.
    pub voter: Seq<u8>,
}

impl View for VoteEntry {
    type V = VoteEntryView;

    closed spec fn view(&self) -> VoteEntryView {
        VoteEntryView { message: self.message@, voter: self.voter@ }
    }
}

/// The entries are strictly ascending in the pinned message order; in
/// particular every message keys at most one entry.
pub open spec fn sorted(s: Seq<VoteEntryView>) -> bool {
    forall|i: int, j: int|
        #![trigger s[i], s[j]]
        0 <= i < j < s.len() ==> msg_ord(s[i].message, s[j].message) == Ordering::Less
}

/// Whether some entry is keyed by the message `m`.
pub open spec fn has_entry_for(s: Seq<VoteEntryView>, m: MessageView) -> bool {
    exists|i: int| 0 <= i < s.len() && (#[trigger] s[i]).message == m
}

/// Whether an entry contributes to the seal of (`height`, `round`,
/// `block_hash`): its message is aligned with all three, and its step is
/// Propose or Precommit — a seal is the proposal signature plus precommit
/// signatures, so prevotes are excluded.
pub open spec fn is_seal_entry(
    e: VoteEntryView,
    height: Height,
    round: Round,
    block_hash: Option<Seq<u8>>,
) -> bool {
    msg_is_aligned(e.message, height, round, block_hash) && e.message.step != Step::Prevote
}

/// The signatures of the seal entries of (`height`, `round`, `block_hash`)
/// among `s`, in store order.
pub open spec fn seal_sigs(
    s: Seq<VoteEntryView>,
    height: Height,
    round: Round,
    block_hash: Option<Seq<u8>>,
) -> Seq<Seq<u8>>
    decreases s.len(),
{
    if s.len() == 0 {
        Seq::empty()
    } else {
        let init = seal_sigs(s.drop_last(), height, round, block_hash);
        if is_seal_entry(s.last(), height, round, block_hash) {
            init.push(s.last().message.signature)
        } else {
            init
        }
    }
}

/// Whether an entry is counted for (`height`, `round`): it belongs to that
/// round, whatever hash it votes for, and its step is Propose or Precommit.
pub open spec fn is_counted_entry(e: VoteEntryView, height: Height, round: Round) -> bool {
    msg_is_round(e.message, height, round) && e.message.step != Step::Prevote
}

/// How many entries of `s` are counted for (`height`, `round`), across all
/// block hashes.
pub open spec fn round_signature_count(s: Seq<VoteEntryView>, height: Height, round: Round) -> nat
    decreases s.len(),
{
    if s.len() == 0 {
        0
    } else {
        round_signature_count(s.drop_last(), height, round) + if is_counted_entry(
            s.last(),
            height,
            round,
        ) {
            1nat
        } else {
            0nat
        }
    }
}

/// The byte strings a vector of signatures holds, in order.
pub open spec fn sig_views(vs: Seq<Vec<u8>>) -> Seq<Seq<u8>>
    decreases vs.len(),
{
    if vs.len() == 0 {
        Seq::empty()
    } else {
        sig_views(vs.drop_last()).push(vs.last()@)
    }
}

/// In a well-formed store every message keys at most one entry.
pub proof fn lemma_sorted_key_unique(s: Seq<VoteEntryView>, i: int, j: int)
    requires
        sorted(s),
        0 <= i < s.len(),
        0 <= j < s.len(),
        s[i].message == s[j].message,
    ensures
        i == j,
{
    if i != j {
        lemma_msg_ord_eq(s[i].message, s[j].message);
    }
}

/// Storing all proposals, prevotes and precommits of one engine instance,
/// keyed by the full message content and ordered by the pinned message
/// order. Grows for the engine's lifetime; no pruning.
#[derive(Debug)]
pub struct VoteCollector {
    votes: Vec<VoteEntry>,
}

impl View for VoteCollector {
    type V = Seq<VoteEntryView>;

    closed spec fn view(&self) -> Seq<VoteEntryView> {
        self.votes@.map_values(|e: VoteEntry| e@)
    }
}

impl VoteCollector {
    /// The store invariant: entries strictly ascending in the message order.
    pub open spec fn wf(&self) -> bool {
        sorted(self@)
    }

    /// An empty store.
    pub fn new() -> (r: VoteCollector)
        ensures
            r@ == Seq::<VoteEntryView>::empty(),
            r.wf(),
    {
        let r = VoteCollector { votes: Vec::new() };
        proof {
            assert(r@ =~= Seq::<VoteEntryView>::empty());
        }
        r
    }

    /// Record `message -> voter`. The caller has already verified that the
    /// signature inside `message` recovers to `voter`; nothing is validated
    /// here. A message already present has its entry replaced in place, so
    /// re-inserting an identical vote leaves the store exactly as it was,
    /// and a new message is inserted at its place in the order.
    #[verifier::rlimit(60)]
    #[verifier::loop_isolation(false)]
    pub fn vote(&mut self, message: ConsensusMessage, voter: Address)
        requires
            old(self).wf(),
        ensures
            final(self).wf(),
            has_entry_for(final(self)@, message@),
            final(self)@.contains((VoteEntryView { message: message@, voter: voter@ })),
            final(self)@.len() == old(self)@.len() + (if has_entry_for(old(self)@, message@) {
                0int
            } else {
                1int
            }),
            has_entry_for(old(self)@, message@) ==> exists|i: int|
                0 <= i < old(self)@.len() && (#[trigger] old(self)@[i]).message == message@
                    && final(self)@ == old(self)@.update(
                    i,
                    (VoteEntryView { message: message@, voter: voter@ }),
                ),
            !has_entry_for(old(self)@, message@) ==> exists|i: int|
                0 <= i <= old(self)@.len() && final(self)@ == #[trigger] old(self)@.subrange(0, i)
                    + seq![(VoteEntryView { message: message@, voter: voter@ })] + old(
                    self,
                )@.subrange(i, old(self)@.len() as int),
            old(self)@.contains((VoteEntryView { message: message@, voter: voter@ }))
                ==> final(self)@ == old(self)@,
    {
        let ghost mv = message@;
        let ghost vv = voter@;
        let ghost s0 = self@;
        let ghost ev = (VoteEntryView { message: mv, voter: vv });
        let n = self.votes.len();
        let mut i: usize = 0;
        while i < n && self.votes[i].message.precedes(&message)
            invariant
                i <= n,
                forall|j: int|
                    0 <= j < i ==> msg_ord((#[trigger] s0[j]).message, mv) == Ordering::Less,
            decreases n - i,
        {
            proof {
                assert(s0[i as int].message == self.votes@[i as int].message@);
            }
            i += 1;
        }
        proof {
            if i < n {
                assert(s0[i as int].message == self.votes@[i as int].message@);
                assert(msg_ord(s0[i as int].message, mv) != Ordering::Less);
            }
        }
        if i < n && self.votes[i].message.same_key(&message) {
            // Same key: replace the entry in place.
            proof {
                assert(s0[i as int] == self.votes@[i as int]@);
                assert(s0[i as int].message == mv);
            }
            self.votes.remove(i);
            self.votes.insert(i, VoteEntry { message, voter });
            proof {
                assert(self@ =~= s0.update(i as int, ev));
                assert(sorted(self@)) by {
                    assert forall|p: int, q: int|
                        #![trigger self@[p], self@[q]]
                        0 <= p < q < self@.len() implies msg_ord(
                        self@[p].message,
                        self@[q].message,
                    ) == Ordering::Less by {
                        assert(self@[p].message == s0[p].message);
                        assert(self@[q].message == s0[q].message);
                        assert(msg_ord(s0[p].message, s0[q].message) == Ordering::Less);
                    }
                }
                assert(self@[i as int].message == mv);
                assert(has_entry_for(self@, mv));
                assert(has_entry_for(s0, mv));
                assert(self@ == s0.update(i as int, ev));
                if s0.contains(ev) {
                    let k = choose|k: int| 0 <= k < s0.len() && s0[k] == ev;
                    lemma_sorted_key_unique(s0, k, i as int);
                    assert(s0[i as int] == ev);
                    assert(self@ =~= s0);
                }
            }
        } else {
            proof {
                // The insertion point splits the store: everything before it
                // is below the new message, everything from it on is above.
                if i < n {
                    assert(s0[i as int] == self.votes@[i as int]@);
                    lemma_msg_ord_eq(s0[i as int].message, mv);
                    lemma_msg_ord_flip(s0[i as int].message, mv);
                    assert(msg_ord(mv, s0[i as int].message) == Ordering::Less);
                }
                assert forall|j: int| i <= j < s0.len() implies msg_ord(
                    mv,
                    (#[trigger] s0[j]).message,
                ) == Ordering::Less by {
                    if j > i {
                        assert(msg_ord(s0[i as int].message, s0[j].message) == Ordering::Less);
                        lemma_msg_ord_trans(mv, s0[i as int].message, s0[j].message);
                    }
                }
                assert forall|k: int| 0 <= k < s0.len() implies (#[trigger] s0[k]).message
                    != mv by {
                    lemma_msg_ord_eq(s0[k].message, mv);
                }
                assert(!has_entry_for(s0, mv));
            }
            self.votes.insert(i, VoteEntry { message, voter });
            proof {
                let tail = s0.subrange(i as int, s0.len() as int);
                let head = s0.subrange(0, i as int);
                assert(self@ =~= head + seq![ev] + tail);
                assert(self@ == head + seq![ev] + tail);
                assert(self@[i as int] == ev);
                assert(has_entry_for(self@, mv));
                assert(sorted(self@)) by {
                    assert forall|p: int, q: int|
                        #![trigger self@[p], self@[q]]
                        0 <= p < q < self@.len() implies msg_ord(
                        self@[p].message,
                        self@[q].message,
                    ) == Ordering::Less by {
                        if q < i {
                            assert(self@[p] == s0[p] && self@[q] == s0[q]);
                            assert(msg_ord(s0[p].message, s0[q].message) == Ordering::Less);
                        } else if p > i {
                            assert(self@[p] == s0[p - 1] && self@[q] == s0[q - 1]);
                            assert(msg_ord(s0[p - 1].message, s0[q - 1].message)
                                == Ordering::Less);
                        } else if p < i && q == i {
                            assert(self@[p] == s0[p]);
                            assert(msg_ord(s0[p].message, mv) == Ordering::Less);
                        } else if p == i {
                            assert(self@[q] == s0[q - 1]);
                            assert(msg_ord(mv, s0[q - 1].message) == Ordering::Less);
                        } else {
                            assert(p < i && q > i);
                            assert(self@[p] == s0[p] && self@[q] == s0[q - 1]);
                            assert(msg_ord(s0[p].message, s0[q - 1].message) == Ordering::Less);
                        }
                    }
                }
            }
        }
    }

    /// The signatures that seal (`height`, `round`, `block_hash`): those of
    /// all recorded messages aligned with exactly this height, round and
    /// hash whose step is Propose or Precommit, in store order.
    #[verifier::loop_isolation(false)]
    pub fn seal_signatures(&self, height: Height, round: Round, block_hash: &Option<Vec<u8>>) -> (r:
        Vec<Vec<u8>>)
        ensures
            sig_views(r@) == seal_sigs(self@, height, round, opt_bytes_view(*block_hash)),
    {
        let ghost bh = opt_bytes_view(*block_hash);
        let mut out: Vec<Vec<u8>> = Vec::new();
        let mut i: usize = 0;
        proof {
            assert(self@.subrange(0, 0) =~= Seq::<VoteEntryView>::empty());
        }
        while i < self.votes.len()
            invariant
                i <= self.votes.len(),
                self@.len() == self.votes@.len(),
                sig_views(out@) == seal_sigs(self@.subrange(0, i as int), height, round, bh),
            decreases self.votes.len() - i,
        {
            let e = &self.votes[i];
            proof {
                assert(self@[i as int] == self.votes@[i as int]@);
            }
            let aligned = e.message.is_aligned(height, round, block_hash);
            let prevote = matches!(e.message.step, Step::Prevote);
            if aligned && !prevote {
                let ghost out0 = out@;
                out.push(clone_bytes(&e.message.signature));
                proof {
                    assert(is_seal_entry(self@[i as int], height, round, bh));
                    assert(out@.drop_last() =~= out0);
                    assert(out@.last()@ == self@[i as int].message.signature);
                    assert(sig_views(out@) == sig_views(out0).push(
                        self@[i as int].message.signature,
                    ));
                }
            } else {
                proof {
                    assert(!is_seal_entry(self@[i as int], height, round, bh));
                }
            }
            proof {
                assert(self@.subrange(0, i + 1).drop_last() =~= self@.subrange(0, i as int));
                assert(self@.subrange(0, i + 1).last() == self@[i as int]);
                assert(sig_views(out@) == seal_sigs(self@.subrange(0, i + 1), height, round, bh));
            }
            i += 1;
        }
        proof {
            assert(self@.subrange(0, self@.len() as int) =~= self@);
        }
        out
    }

    /// The signatures aligned with this specific vote: exactly
    /// `seal_signatures` of the vote's own height, round and hash.
    pub fn aligned_signatures(&self, message: &ConsensusMessage) -> (r: Vec<Vec<u8>>)
        ensures
            sig_views(r@) == seal_sigs(
                self@,
                message@.height,
                message@.round,
                message@.block_hash,
            ),
    {
        self.seal_signatures(message.height, message.round, &message.block_hash)
    }

    /// How many Propose and Precommit messages are recorded for (`height`,
    /// `round`) across all block hashes. A quorum of this count alone does
    /// not prove agreement on one hash: confirm a specific hash through
    /// `seal_signatures`.
    #[verifier::loop_isolation(false)]
    pub fn count_signatures(&self, height: Height, round: Round) -> (c: usize)
        ensures
            c == round_signature_count(self@, height, round),
            c <= self@.len(),
    {
        let mut c: usize = 0;
        let mut i: usize = 0;
        proof {
            assert(self@.subrange(0, 0) =~= Seq::<VoteEntryView>::empty());
        }
        while i < self.votes.len()
            invariant
                i <= self.votes.len(),
                self@.len() == self.votes@.len(),
                c <= i,
                c == round_signature_count(self@.subrange(0, i as int), height, round),
            decreases self.votes.len() - i,
        {
            let e = &self.votes[i];
            let prevote = matches!(e.message.step, Step::Prevote);
            proof {
                assert(self@[i as int] == self.votes@[i as int]@);
                assert(self@.subrange(0, i + 1).drop_last() =~= self@.subrange(0, i as int));
                assert(self@.subrange(0, i + 1).last() == self@[i as int]);
            }
            if e.message.is_round(height, round) && !prevote {
                c += 1;
            }
            i += 1;
        }
        proof {
            assert(self@.subrange(0, self@.len() as int) =~= self@);
        }
        c
    }
}

/// An owned copy of a byte string.
fn clone_bytes(a: &Vec<u8>) -> (r: Vec<u8>)
    ensures
        r@ == a@,
{
    let r = a.clone();
    proof {
        assert forall|k: int| 0 <= k < a@.len() implies r@[k] == a@[k] by {
            assert(cloned::<u8>(a@[k], r@[k]));
        }
        assert(r@ =~= a@);
    }
    r
}

} // verus!
