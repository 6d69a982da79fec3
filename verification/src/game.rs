//! The rules of a game round that stand apart from drawing: the seed that the
//! participants share, and the score that decides the winner.

use sha2::{Digest, Sha256};
use vstd::prelude::*;

verus! {

/// The 32 bytes that SHA-256 gives for a message.
pub uninterp spec fn sha256_digest(data: Seq<u8>) -> Seq<u8>;

/// Calls `Sha256::digest` of the sha2 crate. The digest is a function of the
/// message alone, named `sha256_digest`.
#[verifier::external_body]
fn sha256(data: &[u8]) -> (r: [u8; 32])
    ensures
        r@ == sha256_digest(data@),
{
    Sha256::digest(data).into()
}

/// The signatures one after another, first to last, as one row of bytes.
pub open spec fn joined(signatures: Seq<[u8; 64]>) -> Seq<u8>
    decreases signatures.len(),
{
    if signatures.len() == 0 {
        Seq::empty()
    } else {
        joined(signatures.drop_last()) + signatures.last()@
    }
}

/// The seed that a table shares: the SHA-256 digest of the participants'
/// signatures, joined in the order of the participants.
pub fn shared_seed(signatures: &[[u8; 64]]) -> (seed: [u8; 32])
    ensures
        seed@ == sha256_digest(joined(signatures@)),
{
    let mut bytes: Vec<u8> = Vec::new();
    let mut i: usize = 0;
    while i < signatures.len()
        invariant
            i <= signatures@.len(),
            bytes@ == joined(signatures@.take(i as int)),
        decreases signatures@.len() - i,
    {
        proof {
            assert(signatures@.take(i + 1).drop_last() =~= signatures@.take(i as int));
        }
        let ghost before = bytes@;
        bytes.extend_from_slice(signatures[i].as_slice());
        proof {
            assert(bytes@ =~= before + signatures@[i as int]@);
        }
        i += 1;
    }
    proof {
        assert(signatures@.take(signatures@.len() as int) =~= signatures@);
    }
    sha256(bytes.as_slice())
}

/// The sum of a row of cards.
pub open spec fn total(cards: Seq<u16>) -> int
    decreases cards.len(),
{
    if cards.len() == 0 {
        0
    } else {
        total(cards.drop_last()) + cards.last()
    }
}

/// The cards at the front of a row sum to no more than the whole row.
pub proof fn lemma_total_of_prefix(cards: Seq<u16>, n: int)
    requires
        0 <= n <= cards.len(),
    ensures
        0 <= total(cards.take(n)) <= total(cards),
    decreases cards.len(),
{
    if n == cards.len() {
        assert(cards.take(n) =~= cards);
        if n > 0 {
            lemma_total_of_prefix(cards.drop_last(), n - 1);
        }
    } else {
        lemma_total_of_prefix(cards.drop_last(), n);
        assert(cards.drop_last().take(n) =~= cards.take(n));
    }
}

/// Adds up a row of cards.
fn card_total(cards: &[u16]) -> (sum: u16)
    requires
        total(cards@) <= u16::MAX,
    ensures
        sum == total(cards@),
{
    let mut sum: u16 = 0;
    let mut i: usize = 0;
    while i < cards.len()
        invariant
            i <= cards@.len(),
            sum == total(cards@.take(i as int)),
            total(cards@) <= u16::MAX,
        decreases cards@.len() - i,
    {
        proof {
            assert(cards@.take(i + 1).drop_last() =~= cards@.take(i as int));
            lemma_total_of_prefix(cards@, i + 1);
        }
        sum = sum + cards[i];
        i += 1;
    }
    proof {
        assert(cards@.take(cards@.len() as int) =~= cards@);
    }
    sum
}

/// A participant's score: the sum of the cards on the table and of the cards
/// in the participant's hand.
pub fn score(table: &[u16], hand: &[u16]) -> (points: u16)
    requires
        total(table@) + total(hand@) <= u16::MAX,
    ensures
        points == total(table@) + total(hand@),
{
    proof {
        lemma_total_of_prefix(table@, 0);
        lemma_total_of_prefix(hand@, 0);
    }
    card_total(table) + card_total(hand)
}

/// Finds the winner among the scores of the participants, in their order:
/// the first participant whose score is the highest. A score of zero wins
/// nothing, so a table of zeros has no winner. Returns the winning score with
/// the winner's position.
pub fn leader(scores: &[u16]) -> (r: (u16, Option<usize>))
    ensures
        forall|k: int| 0 <= k < scores@.len() ==> scores@[k] <= r.0,
        match r.1 {
            Some(who) => {
                &&& who < scores@.len()
                &&& scores@[who as int] == r.0
                &&& r.0 > 0
                &&& forall|k: int| 0 <= k < who ==> scores@[k] < r.0
            },
            None => r.0 == 0,
        },
{
    let mut best: u16 = 0;
    let mut who: Option<usize> = None;
    let mut i: usize = 0;
    while i < scores.len()
        invariant
            i <= scores@.len(),
            forall|k: int| 0 <= k < i ==> scores@[k] <= best,
            match who {
                Some(w) => {
                    &&& w < i
                    &&& scores@[w as int] == best
                    &&& best > 0
                    &&& forall|k: int| 0 <= k < w ==> scores@[k] < best
                },
                None => best == 0,
            },
        decreases scores@.len() - i,
    {
        if best < scores[i] {
            best = scores[i];
            who = Some(i);
        }
        i += 1;
    }
    (best, who)
}

} // verus!
