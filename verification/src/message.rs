//! Signed consensus messages and the pinned total order on them.
//!
//! A message is both a vote payload and, as a whole, the lookup key of the
//! vote store. The store is ordered, so the order is pinned explicitly here:
//! height, then round, then a fixed numeric rank per step, then block hash —
//! an absent hash before any present one, present hashes by their bytes —
//! then the signature bytes, byte strings lexicographically with the shorter
//! prefix first.

use vstd::prelude::*;

use core::cmp::Ordering;

use crate::Height;
use crate::Round;
use crate::Step;
use crate::step_rank;

verus! {

/// A signed vote or proposal: height, round, step, candidate block hash and
/// the signature over them. The signature is part of the identity of the
/// message, so identical votes from two validators stay distinct entries.
#[derive(Debug, Clone)]
pub struct ConsensusMessage {
    /// Block number the vote is about.
    pub height: Height,
    /// Round within that height.
    pub round: Round,
    /// Step the vote belongs to.
    pub step: Step,
    /// Candidate block hash, absent for a nil vote.
    pub block_hash: Option<Vec<u8>>,
    /// Signature bytes of the vote.
    pub signature: Vec<u8>,
}

/// Mathematical image of a [`ConsensusMessage`].
#[verifier::ext_equal]
pub ghost struct MessageView {
    /// Block number the vote is about.
    pub height: Height,
    /// Round within that height.
    pub round: Round,
    /// Step the vote belongs to.
    pub step: Step,
    /// Candidate block hash, absent for a nil vote.
    pub block_hash: Option<Seq<u8>>,
    /// Signature bytes of the vote.
    pub signature: Seq<u8>,
}

/// The hash bytes an optional hash holds, as a mathematical value.
pub open spec fn opt_bytes_view(b: Option<Vec<u8>>) -> Option<Seq<u8>> {
    match b {
        Some(v) => Some(v@),
        None => None,
    }
}

impl View for ConsensusMessage {
    type V = MessageView;

    open spec fn view(&self) -> MessageView {
        MessageView {
            height: self.height,
            round: self.round,
            step: self.step,
            block_hash: opt_bytes_view(self.block_hash),
            signature: self.signature@,
        }
    }
}

/// Lexicographic order on byte strings; a strict prefix comes first.
pub open spec fn bytes_ord(a: Seq<u8>, b: Seq<u8>) -> Ordering
    decreases a.len(),
{
    if a.len() == 0 && b.len() == 0 {
        Ordering::Equal
    } else if a.len() == 0 {
        Ordering::Less
    } else if b.len() == 0 {
        Ordering::Greater
    } else if a[0] < b[0] {
        Ordering::Less
    } else if b[0] < a[0] {
        Ordering::Greater
    } else {
        bytes_ord(a.skip(1), b.skip(1))
    }
}

/// Order on optional hashes: an absent hash before any present one, present
/// hashes by their bytes.
pub open spec fn hash_ord(a: Option<Seq<u8>>, b: Option<Seq<u8>>) -> Ordering {
    match (a, b) {
        (Option::None, Option::None) => Ordering::Equal,
        (Option::None, Option::Some(_)) => Ordering::Less,
        (Option::Some(_), Option::None) => Ordering::Greater,
        (Option::Some(x), Option::Some(y)) => bytes_ord(x, y),
    }
}

/// The pinned total order on consensus messages: height, round, step rank,
/// block hash, signature bytes.
pub open spec fn msg_ord(a: MessageView, b: MessageView) -> Ordering {
    if a.height < b.height {
        Ordering::Less
    } else if b.height < a.height {
        Ordering::Greater
    } else if a.round < b.round {
        Ordering::Less
    } else if b.round < a.round {
        Ordering::Greater
    } else if step_rank(a.step) < step_rank(b.step) {
        Ordering::Less
    } else if step_rank(b.step) < step_rank(a.step) {
        Ordering::Greater
    } else {
        match hash_ord(a.block_hash, b.block_hash) {
            Ordering::Equal => bytes_ord(a.signature, b.signature),
            o => o,
        }
    }
}

/// Two byte strings compare equal exactly when they are the same string.
pub proof fn lemma_bytes_ord_eq(a: Seq<u8>, b: Seq<u8>)
    ensures
        bytes_ord(a, b) == Ordering::Equal <==> a == b,
    decreases a.len(),
{
    if a.len() == 0 && b.len() == 0 {
        assert(a =~= b);
    } else if a.len() > 0 && b.len() > 0 {
        lemma_bytes_ord_eq(a.skip(1), b.skip(1));
        if a[0] == b[0] {
            if bytes_ord(a, b) == Ordering::Equal {
                assert(a =~= b) by {
                    assert(a.skip(1) == b.skip(1));
                    assert forall|i: int| 0 <= i < a.len() implies a[i] == b[i] by {
                        if i > 0 {
                            assert(a[i] == a.skip(1)[i - 1]);
                            assert(b[i] == b.skip(1)[i - 1]);
                        }
                    }
                }
            }
            if a == b {
                assert(a.skip(1) =~= b.skip(1));
            }
        }
    }
}

/// Swapping the arguments of the byte order mirrors its result.
pub proof fn lemma_bytes_ord_flip(a: Seq<u8>, b: Seq<u8>)
    ensures
        bytes_ord(b, a) == (match bytes_ord(a, b) {
            Ordering::Less => Ordering::Greater,
            Ordering::Equal => Ordering::Equal,
            Ordering::Greater => Ordering::Less,
        }),
    decreases a.len(),
{
    if a.len() > 0 && b.len() > 0 && a[0] == b[0] {
        lemma_bytes_ord_flip(a.skip(1), b.skip(1));
    }
}

/// The byte order is transitive in its strict part.
pub proof fn lemma_bytes_ord_trans(a: Seq<u8>, b: Seq<u8>, c: Seq<u8>)
    requires
        bytes_ord(a, b) == Ordering::Less,
        bytes_ord(b, c) == Ordering::Less,
    ensures
        bytes_ord(a, c) == Ordering::Less,
    decreases a.len(),
{
    if a.len() > 0 && b.len() > 0 && c.len() > 0 && a[0] == b[0] && b[0] == c[0] {
        lemma_bytes_ord_trans(a.skip(1), b.skip(1), c.skip(1));
    }
}

/// Two optional hashes compare equal exactly when they are the same value.
pub proof fn lemma_hash_ord_eq(a: Option<Seq<u8>>, b: Option<Seq<u8>>)
    ensures
        hash_ord(a, b) == Ordering::Equal <==> a == b,
{
    if a is Some && b is Some {
        lemma_bytes_ord_eq(a->Some_0, b->Some_0);
    }
}

/// Swapping the arguments of the hash order mirrors its result.
pub proof fn lemma_hash_ord_flip(a: Option<Seq<u8>>, b: Option<Seq<u8>>)
    ensures
        hash_ord(b, a) == (match hash_ord(a, b) {
            Ordering::Less => Ordering::Greater,
            Ordering::Equal => Ordering::Equal,
            Ordering::Greater => Ordering::Less,
        }),
{
    if a is Some && b is Some {
        lemma_bytes_ord_flip(a->Some_0, b->Some_0);
    }
}

/// The hash order is transitive in its strict part.
pub proof fn lemma_hash_ord_trans(a: Option<Seq<u8>>, b: Option<Seq<u8>>, c: Option<Seq<u8>>)
    requires
        hash_ord(a, b) == Ordering::Less,
        hash_ord(b, c) == Ordering::Less,
    ensures
        hash_ord(a, c) == Ordering::Less,
{
    if a is Some && b is Some && c is Some {
        lemma_bytes_ord_trans(a->Some_0, b->Some_0, c->Some_0);
    }
}

/// Two messages compare equal exactly when all their fields agree.
pub proof fn lemma_msg_ord_eq(a: MessageView, b: MessageView)
    ensures
        msg_ord(a, b) == Ordering::Equal <==> a == b,
{
    lemma_hash_ord_eq(a.block_hash, b.block_hash);
    lemma_bytes_ord_eq(a.signature, b.signature);
    if step_rank(a.step) == step_rank(b.step) {
        assert(a.step == b.step);
    }
    if msg_ord(a, b) == Ordering::Equal {
        assert(a =~= b);
    }
}

/// Swapping the arguments of the message order mirrors its result.
pub proof fn lemma_msg_ord_flip(a: MessageView, b: MessageView)
    ensures
        msg_ord(b, a) == (match msg_ord(a, b) {
            Ordering::Less => Ordering::Greater,
            Ordering::Equal => Ordering::Equal,
            Ordering::Greater => Ordering::Less,
        }),
{
    lemma_hash_ord_flip(a.block_hash, b.block_hash);
    lemma_bytes_ord_flip(a.signature, b.signature);
}

/// The message order is transitive in its strict part.
pub proof fn lemma_msg_ord_trans(a: MessageView, b: MessageView, c: MessageView)
    requires
        msg_ord(a, b) == Ordering::Less,
        msg_ord(b, c) == Ordering::Less,
    ensures
        msg_ord(a, c) == Ordering::Less,
{
    if a.height == c.height && a.round == c.round && step_rank(a.step) == step_rank(c.step) {
        let o1 = hash_ord(a.block_hash, b.block_hash);
        let o2 = hash_ord(b.block_hash, c.block_hash);
        lemma_hash_ord_eq(a.block_hash, b.block_hash);
        lemma_hash_ord_eq(b.block_hash, c.block_hash);
        lemma_hash_ord_eq(a.block_hash, c.block_hash);
        if o1 == Ordering::Less && o2 == Ordering::Less {
            lemma_hash_ord_trans(a.block_hash, b.block_hash, c.block_hash);
        } else if o1 == Ordering::Equal && o2 == Ordering::Equal {
            lemma_bytes_ord_eq(a.signature, b.signature);
            lemma_bytes_ord_eq(b.signature, c.signature);
            if bytes_ord(a.signature, b.signature) == Ordering::Less
                && bytes_ord(b.signature, c.signature) == Ordering::Less {
                lemma_bytes_ord_trans(a.signature, b.signature, c.signature);
            }
        }
    }
}

/// A message is aligned with a query when height, round and candidate hash
/// all agree.
pub open spec fn msg_is_aligned(m: MessageView, height: Height, round: Round, block_hash: Option<
    Seq<u8>,
>) -> bool {
    m.height == height && m.round == round && m.block_hash == block_hash
}

/// A message belongs to a (height, round) pair, whatever hash it carries.
pub open spec fn msg_is_round(m: MessageView, height: Height, round: Round) -> bool {
    m.height == height && m.round == round
}

/// Whether two byte strings hold the same bytes.
pub fn bytes_eq(a: &Vec<u8>, b: &Vec<u8>) -> (r: bool)
    ensures
        r <==> a@ == b@,
{
    if a.len() != b.len() {
        return false;
    }
    let mut i: usize = 0;
    while i < a.len()
        invariant
            i <= a.len(),
            a@.len() == b@.len(),
            forall|j: int| 0 <= j < i ==> a@[j] == b@[j],
        decreases a.len() - i,
    {
        if a[i] != b[i] {
            return false;
        }
        i += 1;
    }
    proof {
        assert(a@ =~= b@);
    }
    true
}

/// Three-way comparison of byte strings in the pinned lexicographic order.
pub fn bytes_compare(a: &Vec<u8>, b: &Vec<u8>) -> (r: Ordering)
    ensures
        r == bytes_ord(a@, b@),
{
    let mut i: usize = 0;
    proof {
        assert(a@.skip(0) =~= a@);
        assert(b@.skip(0) =~= b@);
    }
    while i < a.len() && i < b.len()
        invariant
            i <= a.len(),
            i <= b.len(),
            bytes_ord(a@, b@) == bytes_ord(a@.skip(i as int), b@.skip(i as int)),
        decreases a.len() - i,
    {
        if a[i] < b[i] {
            return Ordering::Less;
        }
        if b[i] < a[i] {
            return Ordering::Greater;
        }
        proof {
            assert(a@.skip(i as int).skip(1) =~= a@.skip(i + 1));
            assert(b@.skip(i as int).skip(1) =~= b@.skip(i + 1));
        }
        i += 1;
    }
    proof {
        assert(a@.skip(i as int).len() == 0 || b@.skip(i as int).len() == 0);
    }
    if a.len() < b.len() {
        Ordering::Less
    } else if b.len() < a.len() {
        Ordering::Greater
    } else {
        Ordering::Equal
    }
}

/// Numeric rank of a step within the message order.
pub fn step_rank_of(s: Step) -> (r: u8)
    ensures
        r as int == step_rank(s),
{
    match s {
        Step::Propose => 0,
        Step::Prevote => 1,
        Step::Precommit => 2,
        Step::Commit => 3,
    }
}

impl ConsensusMessage {
    /// Three-way comparison in the pinned message order.
    pub fn compare(&self, other: &ConsensusMessage) -> (r: Ordering)
        ensures
            r == msg_ord(self@, other@),
    {
        if self.height < other.height {
            return Ordering::Less;
        }
        if other.height < self.height {
            return Ordering::Greater;
        }
        if self.round < other.round {
            return Ordering::Less;
        }
        if other.round < self.round {
            return Ordering::Greater;
        }
        let ra = step_rank_of(self.step);
        let rb = step_rank_of(other.step);
        if ra < rb {
            return Ordering::Less;
        }
        if rb < ra {
            return Ordering::Greater;
        }
        let h = match (&self.block_hash, &other.block_hash) {
            (Option::None, Option::None) => Ordering::Equal,
            (Option::None, Option::Some(_)) => Ordering::Less,
            (Option::Some(_), Option::None) => Ordering::Greater,
            (Option::Some(x), Option::Some(y)) => bytes_compare(x, y),
        };
        match h {
            Ordering::Equal => bytes_compare(&self.signature, &other.signature),
            o => o,
        }
    }

    /// Whether this message strictly precedes `other` in the pinned order.
    pub fn precedes(&self, other: &ConsensusMessage) -> (r: bool)
        ensures
            r <==> msg_ord(self@, other@) == Ordering::Less,
    {
        matches!(self.compare(other), Ordering::Less)
    }

    /// Whether this message is the same store key as `other`: equal in every
    /// field, the signature included.
    pub fn same_key(&self, other: &ConsensusMessage) -> (r: bool)
        ensures
            r <==> self@ == other@,
    {
        proof {
            lemma_msg_ord_eq(self@, other@);
        }
        matches!(self.compare(other), Ordering::Equal)
    }

    /// Whether this message votes for exactly this height, round and
    /// candidate hash.
    pub fn is_aligned(&self, height: Height, round: Round, block_hash: &Option<Vec<u8>>) -> (r:
        bool)
        ensures
            r == msg_is_aligned(self@, height, round, opt_bytes_view(*block_hash)),
    {
        if self.height != height || self.round != round {
            return false;
        }
        match (&self.block_hash, block_hash) {
            (Option::None, Option::None) => true,
            (Option::Some(a), Option::Some(b)) => bytes_eq(a, b),
            _ => false,
        }
    }

    /// Whether this message belongs to the given (height, round) pair.
    pub fn is_round(&self, height: Height, round: Round) -> (r: bool)
        ensures
            r == msg_is_round(self@, height, round),
    {
        self.height == height && self.round == round
    }
}

} // verus!
