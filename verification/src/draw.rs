//! Drawing a card with its proof, and checking a revealed card.

use crate::card::{card_of_inout, find_card, NUM_CARDS};
use crate::transcript::{draw_transcript, draw_transcript_of, NUM_DRAWS};
use crate::vrf::{
    vrf_preout_bytes, vrf_preout_decoded, vrf_preout_from_bytes, vrf_preout_of,
    vrf_preout_to_bytes, vrf_proof_bytes, vrf_proof_decoded, vrf_proof_from_bytes,
    vrf_proof_to_bytes, vrf_sign, vrf_signed, vrf_to_preout, vrf_verified, vrf_verify,
};
use schnorrkel::vrf::{VRFInOut, VRFProof};
use schnorrkel::{Keypair, PublicKey};
use vstd::prelude::*;
use vstd::slice::slice_subrange;

verus! {

/// The layout of a draw proof: 32 bytes of pre-output, 64 bytes of VRF proof,
/// and the draw index in the last byte.
pub open spec fn draw_blob(preout: Seq<u8>, proof: Seq<u8>, draw_num: u8) -> Seq<u8> {
    preout + proof + seq![draw_num]
}

/// Lays a pre-output, a VRF proof and a draw index out as a draw proof.
pub fn encode_draw(preout: &[u8; 32], proof: &[u8; 64], draw_num: u8) -> (blob: [u8; 97])
    ensures
        blob@ == draw_blob(preout@, proof@, draw_num),
{
    let mut blob = [0u8; 97];
    let mut i: usize = 0;
    while i < 32
        invariant
            i <= 32,
            forall|k: int| 0 <= k < i ==> blob@[k] == preout@[k],
        decreases 32 - i,
    {
        blob[i] = preout[i];
        i += 1;
    }
    let mut j: usize = 0;
    while j < 64
        invariant
            j <= 64,
            forall|k: int| 0 <= k < 32 ==> blob@[k] == preout@[k],
            forall|k: int| 0 <= k < j ==> blob@[32 + k] == proof@[k],
        decreases 64 - j,
    {
        blob[32 + j] = proof[j];
        j += 1;
    }
    blob[96] = draw_num;
    assert(blob@ =~= draw_blob(preout@, proof@, draw_num));
    blob
}

/// What a draw of index `draw_num` by `keypair` under `seed` may return.
///
/// An index above `NUM_DRAWS` gives nothing. Any other index gives the card of
/// the keypair's VRF output over the draw's transcript, with a proof that
/// holds that output's pre-output, the 64 bytes of some VRF proof, and the
/// index. The VRF proof is blinded afresh by each signing, so it is not
/// pinned down.
pub open spec fn is_draw(
    keypair: Keypair,
    seed: Seq<u8>,
    draw_num: u8,
    r: Option<(u16, [u8; 97])>,
) -> bool {
    if draw_num > NUM_DRAWS {
        r is None
    } else {
        let io = vrf_signed(keypair, draw_transcript_of(seed, draw_num));
        match r {
            Some((card, blob)) => {
                &&& card == card_of_inout(io)
                &&& exists|proof: VRFProof|
                    {
                        &&& (#[trigger] vrf_proof_bytes(proof)).len() == 64
                        &&& blob@ == draw_blob(
                            vrf_preout_bytes(vrf_preout_of(io)),
                            vrf_proof_bytes(proof),
                            draw_num,
                        )
                    }
            },
            None => false,
        }
    }
}

/// Turns what a signing gave into a draw: the card of the input/output pair,
/// and the proof blob made of the pair's pre-output, the VRF proof and the
/// index. Every pair has a card, so a draw always comes back; the pre-output
/// takes 32 bytes of the blob and the VRF proof 64.
pub fn seal_draw(io: &VRFInOut, proof: &VRFProof, draw_num: u8) -> (r: Option<(u16, [u8; 97])>)
    ensures
        r matches Some(draw) && draw.0 == card_of_inout(*io) && draw.0 < NUM_CARDS && draw.1@
            == draw_blob(vrf_preout_bytes(vrf_preout_of(*io)), vrf_proof_bytes(*proof), draw_num),
        vrf_preout_bytes(vrf_preout_of(*io)).len() == 32,
        vrf_proof_bytes(*proof).len() == 64,
{
    let card = match find_card(io) {
        Some(card) => card,
        None => {
            return None;
        },
    };
    let preout = vrf_to_preout(io);
    let preout_bytes = vrf_preout_to_bytes(&preout);
    let proof_bytes = vrf_proof_to_bytes(proof);
    let blob = encode_draw(&preout_bytes, &proof_bytes, draw_num);
    Some((card, blob))
}

/// Attempts to draw the card of index `draw_num`: signs the draw's transcript
/// with the keypair, and seals the pair and the proof that the signing gave.
pub fn try_draw(keypair: &Keypair, seed: &[u8; 32], draw_num: u8) -> (r: Option<(u16, [u8; 97])>)
    ensures
        is_draw(*keypair, seed@, draw_num, r),
        r is None <==> draw_num > NUM_DRAWS,
        r matches Some(draw) ==> draw.0 < NUM_CARDS && draw.1@[96] == draw_num,
{
    let t = match draw_transcript(seed, draw_num) {
        Some(t) => t,
        None => {
            return None;
        },
    };
    let (io, proof) = vrf_sign(keypair, t);
    seal_draw(&io, &proof, draw_num)
}

/// Drawing is deterministic in all but the blinding of the VRF proof: two
/// draws of one keypair under one seed and one index both succeed or both
/// fail, and where they succeed they give the same card, the same 32 bytes of
/// pre-output and the same index byte.
pub proof fn lemma_draw_is_deterministic(
    keypair: Keypair,
    seed: Seq<u8>,
    draw_num: u8,
    a: Option<(u16, [u8; 97])>,
    b: Option<(u16, [u8; 97])>,
)
    requires
        is_draw(keypair, seed, draw_num, a),
        is_draw(keypair, seed, draw_num, b),
    ensures
        a is Some <==> b is Some,
        a is Some ==> a.unwrap().0 == b.unwrap().0,
        a is Some ==> a.unwrap().1@.subrange(0, 32) == b.unwrap().1@.subrange(0, 32),
        a is Some ==> a.unwrap().1@[96] == draw_num && b.unwrap().1@[96] == draw_num,
{
    if a is Some {
        let x = a.unwrap().1@;
        let y = b.unwrap().1@;
        let io = vrf_signed(keypair, draw_transcript_of(seed, draw_num));
        let preout = vrf_preout_bytes(vrf_preout_of(io));
        assert(x.len() == 97 && y.len() == 97);
        assert(preout.len() == 32);
        assert(x.subrange(0, 32) =~= preout);
        assert(y.subrange(0, 32) =~= preout);
    }
}

/// Every card is below the size of the deck, whether it was drawn or
/// received.
pub proof fn lemma_card_is_below_deck_size(
    keypair: Keypair,
    public: PublicKey,
    seed: Seq<u8>,
    draw_num: u8,
    drawn: Option<(u16, [u8; 97])>,
    blob: Seq<u8>,
)
    ensures
        is_draw(keypair, seed, draw_num, drawn) && drawn is Some ==> drawn.unwrap().0 < NUM_CARDS,
        received_card(public, blob, seed) is Some ==> received_card(public, blob, seed).unwrap()
            < NUM_CARDS,
{
}

/// An index above `NUM_DRAWS` gives no card on either side: a draw of it
/// returns nothing, and so does the check of any proof whose last byte holds
/// it.
pub proof fn lemma_index_out_of_range_is_rejected(
    keypair: Keypair,
    public: PublicKey,
    seed: Seq<u8>,
    draw_num: u8,
    drawn: Option<(u16, [u8; 97])>,
    blob: Seq<u8>,
)
    requires
        draw_num > NUM_DRAWS,
    ensures
        is_draw(keypair, seed, draw_num, drawn) ==> drawn is None,
        blob.len() == 97 && blob[96] == draw_num ==> received_card(public, blob, seed) is None,
{
}

/// Overwriting the last byte of a proof changes the index and nothing else:
/// an index above `NUM_DRAWS` reveals nothing, whatever the rest holds, and
/// any other index has the same pre-output and VRF proof verified against the
/// transcript of the new index instead of the one that was signed.
pub proof fn lemma_index_byte_selects_transcript(
    public: PublicKey,
    blob: Seq<u8>,
    seed: Seq<u8>,
    byte: u8,
)
    requires
        blob.len() == 97,
    ensures
        received_card(public, blob.update(96, byte), seed) == if byte > NUM_DRAWS {
            None
        } else {
            verified_card(public, seed, byte, blob.subrange(0, 32), blob.subrange(32, 96))
        },
{
    let changed = blob.update(96, byte);
    assert(changed.subrange(0, 32) =~= blob.subrange(0, 32));
    assert(changed.subrange(32, 96) =~= blob.subrange(32, 96));
}

/// How many of the indices `first..end` give a draw: those up to `NUM_DRAWS`.
pub open spec fn draw_count(first: u8, end: u8) -> int {
    let stop = if end <= NUM_DRAWS {
        end as int
    } else {
        NUM_DRAWS + 1
    };
    if first < stop {
        stop - first
    } else {
        0
    }
}

/// Draws the cards of the indices `first..end` in order, leaving out each
/// index that gives no draw.
pub fn draw_range(keypair: &Keypair, seed: &[u8; 32], first: u8, end: u8) -> (r: Vec<
    (u16, [u8; 97]),
>)
    ensures
        r@.len() == draw_count(first, end),
        forall|k: int|
            0 <= k < r@.len() ==> is_draw(*keypair, seed@, (first + k) as u8, Some(#[trigger] r@[k])),
{
    let mut out: Vec<(u16, [u8; 97])> = Vec::new();
    if first >= end {
        return out;
    }
    let mut i: u8 = first;
    while i < end
        invariant
            first <= i <= end,
            out@.len() == draw_count(first, i),
            forall|k: int|
                0 <= k < out@.len() ==> is_draw(
                    *keypair,
                    seed@,
                    (first + k) as u8,
                    Some(#[trigger] out@[k]),
                ),
        decreases end - i,
    {
        match try_draw(keypair, seed, i) {
            Some(draw) => {
                out.push(draw);
            },
            None => {},
        }
        i += 1;
    }
    out
}

/// Draws all the cards of a keypair under a seed: the indices below
/// `NUM_DRAWS`, in order.
pub fn draws(keypair: &Keypair, seed: &[u8; 32]) -> (r: Vec<(u16, [u8; 97])>)
    ensures
        r@.len() == NUM_DRAWS,
        forall|k: int|
            0 <= k < NUM_DRAWS ==> is_draw(*keypair, seed@, k as u8, Some(#[trigger] r@[k])),
{
    draw_range(keypair, seed, 0, NUM_DRAWS)
}

/// The card that a pre-output and a VRF proof, both as bytes, reveal for the
/// draw of index `draw_num` under a public key and a seed: both are parsed
/// and then verified against the transcript of that draw. Bytes that do not
/// parse and a proof that does not verify reveal nothing, and nothing tells
/// them apart.
pub open spec fn verified_card(
    public: PublicKey,
    seed: Seq<u8>,
    draw_num: u8,
    preout: Seq<u8>,
    proof: Seq<u8>,
) -> Option<u16> {
    match (vrf_preout_decoded(preout), vrf_proof_decoded(proof)) {
        (Some(out), Some(proof)) => match vrf_verified(
            public,
            draw_transcript_of(seed, draw_num),
            out,
            proof,
        ) {
            Some(io) => Some(card_of_inout(io)),
            None => None,
        },
        _ => None,
    }
}

/// The card that a draw proof reveals under a public key and a seed.
///
/// The index is read from the last byte, and an index above `NUM_DRAWS`
/// reveals nothing. Otherwise the first 32 bytes are taken as the pre-output
/// and the next 64 as the VRF proof of the draw of that index.
pub open spec fn received_card(public: PublicKey, blob: Seq<u8>, seed: Seq<u8>) -> Option<u16> {
    if blob[96] > NUM_DRAWS {
        None
    } else {
        verified_card(public, seed, blob[96], blob.subrange(0, 32), blob.subrange(32, 96))
    }
}

/// What is checked on receipt of a draw is what was signed: the proof of a
/// draw is verified against the transcript of the same seed and index, with
/// the pre-output of the drawer's own VRF output and the bytes of the VRF
/// proof that the drawer encoded. Whether the public key then accepts them is
/// the VRF's matter.
pub proof fn lemma_receive_checks_what_was_drawn(
    keypair: Keypair,
    public: PublicKey,
    seed: Seq<u8>,
    draw_num: u8,
    drawn: (u16, [u8; 97]),
)
    requires
        is_draw(keypair, seed, draw_num, Some(drawn)),
    ensures
        exists|proof: VRFProof|
            received_card(public, drawn.1@, seed) == verified_card(
                public,
                seed,
                draw_num,
                vrf_preout_bytes(vrf_preout_of(vrf_signed(keypair, draw_transcript_of(seed, draw_num)))),
                #[trigger] vrf_proof_bytes(proof),
            ),
{
    let io = vrf_signed(keypair, draw_transcript_of(seed, draw_num));
    let preout = vrf_preout_bytes(vrf_preout_of(io));
    let blob = drawn.1@;
    let proof = choose|proof: VRFProof|
        (#[trigger] vrf_proof_bytes(proof)).len() == 64 && blob == draw_blob(
            preout,
            vrf_proof_bytes(proof),
            draw_num,
        );
    assert(blob.len() == 97);
    assert(blob.subrange(0, 32) =~= preout);
    assert(blob.subrange(32, 96) =~= vrf_proof_bytes(proof));
    assert(blob[96] == draw_num);
}

/// Checks a draw proof against a public key and a seed, and returns the card
/// it reveals.
pub fn receive(public: &PublicKey, vrf_signature: &[u8; 97], seed: &[u8; 32]) -> (r: Option<u16>)
    ensures
        r == received_card(*public, vrf_signature@, seed@),
        vrf_signature@[96] > NUM_DRAWS ==> r is None,
        r matches Some(card) ==> card < NUM_CARDS,
{
    let t = match draw_transcript(seed, vrf_signature[96]) {
        Some(t) => t,
        None => {
            return None;
        },
    };
    let out = match vrf_preout_from_bytes(slice_subrange(vrf_signature.as_slice(), 0, 32)) {
        Ok(out) => out,
        Err(_) => {
            return None;
        },
    };
    let proof = match vrf_proof_from_bytes(slice_subrange(vrf_signature.as_slice(), 32, 96)) {
        Ok(proof) => proof,
        Err(_) => {
            return None;
        },
    };
    match vrf_verify(public, t, &out, &proof) {
        Ok(io) => find_card(&io),
        Err(_) => None,
    }
}

/// The cards that a row of draws reveals, in order; a draw that reveals
/// nothing leaves no gap.
pub open spec fn revealed(public: PublicKey, cards: Seq<(u16, [u8; 97])>, seed: Seq<u8>) -> Seq<u16>
    decreases cards.len(),
{
    if cards.len() == 0 {
        Seq::empty()
    } else {
        let before = revealed(public, cards.drop_last(), seed);
        match received_card(public, cards.last().1@, seed) {
            Some(card) => before.push(card),
            None => before,
        }
    }
}

/// Checks each draw of a row against a public key and a seed, and returns the
/// cards of those that verify. The card that a draw claims is not read: only
/// its proof counts.
pub fn reveal_cards(cards: &[(u16, [u8; 97])], key: &PublicKey, seed: &[u8; 32]) -> (r: Vec<u16>)
    ensures
        r@ == revealed(*key, cards@, seed@),
{
    let mut out: Vec<u16> = Vec::new();
    let mut i: usize = 0;
    while i < cards.len()
        invariant
            i <= cards@.len(),
            out@ == revealed(*key, cards@.take(i as int), seed@),
        decreases cards@.len() - i,
    {
        proof {
            assert(cards@.take(i + 1).drop_last() =~= cards@.take(i as int));
        }
        match receive(key, &cards[i].1, seed) {
            Some(card) => {
                out.push(card);
            },
            None => {},
        }
        i += 1;
    }
    proof {
        assert(cards@.take(cards@.len() as int) =~= cards@);
    }
    out
}

} // verus!
