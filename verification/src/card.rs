//! From VRF output to a card.

use crate::vrf::{vrf_make_bytes, vrf_output_bytes};
use schnorrkel::vrf::VRFInOut;
use vstd::prelude::*;

verus! {

/// Size of the deck: a card is a number below this.
pub const NUM_CARDS: u16 = 52;

/// Context under which card bytes are derived: the ASCII text `card`.
pub const CARD_LABEL: [u8; 4] = [99, 97, 114, 100];

/// The number that eight bytes spell, least significant first.
pub open spec fn le_u64(b: Seq<u8>) -> int
    recommends
        b.len() == 8,
{
    b[0] + 0x100 * b[1] + 0x1_0000 * b[2] + 0x100_0000 * b[3] + 0x1_0000_0000 * b[4]
        + 0x100_0000_0000 * b[5] + 0x1_0000_0000_0000 * b[6] + 0x100_0000_0000_0000 * b[7]
}

/// The card that eight output bytes stand for: their little-endian value,
/// reduced modulo the size of the deck. The reduction is slightly biased
/// towards low cards, since 2^64 is no multiple of 52.
pub open spec fn card_of(b: Seq<u8>) -> u16
    recommends
        b.len() == 8,
{
    (le_u64(b) % (NUM_CARDS as int)) as u16
}

/// The card of a VRF input/output pair.
pub open spec fn card_of_inout(io: VRFInOut) -> u16 {
    card_of(vrf_output_bytes(io, CARD_LABEL@))
}

/// Maps eight output bytes to a card.
pub fn card_from_bytes(b: &[u8; 8]) -> (card: u16)
    ensures
        card == card_of(b@),
        card < NUM_CARDS,
{
    let v: u64 = b[0] as u64 + 0x100 * (b[1] as u64) + 0x1_0000 * (b[2] as u64) + 0x100_0000 * (
    b[3] as u64) + 0x1_0000_0000 * (b[4] as u64) + 0x100_0000_0000 * (b[5] as u64)
        + 0x1_0000_0000_0000 * (b[6] as u64) + 0x100_0000_0000_0000 * (b[7] as u64);
    (v % (NUM_CARDS as u64)) as u16
}

/// Computes the card of a VRF input/output pair. Every pair has a card: no
/// draw is turned away here.
pub fn find_card(io: &VRFInOut) -> (r: Option<u16>)
    ensures
        r matches Some(card) && card == card_of_inout(*io) && card < NUM_CARDS,
{
    let b: [u8; 8] = vrf_make_bytes(io, (&CARD_LABEL).as_slice());
    Some(card_from_bytes(&b))
}

} // verus!
