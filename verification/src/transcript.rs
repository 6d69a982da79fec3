//! The transcript that a draw is signed over.

use merlin::Transcript;
use vstd::prelude::*;

verus! {

/// Highest draw index that a transcript is built for.
pub const NUM_DRAWS: u8 = 5;

/// `merlin::Transcript`, carried through as an opaque value.
#[verifier::external_type_specification]
#[verifier::external_body]
pub struct ExTranscript(merlin::Transcript);

/// The transcript that `merlin::Transcript::new` returns for a label.
pub uninterp spec fn transcript_started(label: Seq<u8>) -> Transcript;

/// The transcript that `merlin::Transcript::append_message` leaves behind when
/// it is given a transcript, a label and a message.
pub uninterp spec fn transcript_appended(t: Transcript, label: Seq<u8>, message: Seq<u8>) -> Transcript;

/// The eight bytes of `x`, least significant first.
pub open spec fn u64_le_bytes(x: u64) -> Seq<u8> {
    seq![
        (x % 0x100) as u8,
        (x / 0x100 % 0x100) as u8,
        (x / 0x1_0000 % 0x100) as u8,
        (x / 0x100_0000 % 0x100) as u8,
        (x / 0x1_0000_0000 % 0x100) as u8,
        (x / 0x100_0000_0000 % 0x100) as u8,
        (x / 0x1_0000_0000_0000 % 0x100) as u8,
        (x / 0x100_0000_0000_0000 % 0x100) as u8,
    ]
}

/// Calls `merlin::Transcript::new`, which appends the label as a message and
/// so panics on a label of more than `u32::MAX` bytes. The result is a
/// function of the label alone, named `transcript_started`.
#[verifier::external_body]
fn transcript_new(label: &'static [u8]) -> (t: Transcript)
    requires
        label@.len() <= u32::MAX,
    ensures
        t == transcript_started(label@),
{
    Transcript::new(label)
}

/// Calls `merlin::Transcript::append_message`, which panics on a message of
/// more than `u32::MAX` bytes. The new transcript is a function of the old one,
/// the label and the message, named `transcript_appended`.
#[verifier::external_body]
fn transcript_append_message(t: &mut Transcript, label: &'static [u8], message: &[u8])
    requires
        message@.len() <= u32::MAX,
    ensures
        *final(t) == transcript_appended(*old(t), label@, message@),
{
    t.append_message(label, message)
}

/// Calls `merlin::Transcript::append_u64`, which appends the eight
/// little-endian bytes of `x` as a message.
#[verifier::external_body]
fn transcript_append_u64(t: &mut Transcript, label: &'static [u8], x: u64)
    ensures
        *final(t) == transcript_appended(*old(t), label@, u64_le_bytes(x)),
{
    t.append_u64(label, x)
}

/// Label that opens every draw transcript: the ASCII text `Card Draw Transcript`.
pub const PROTOCOL_LABEL: [u8; 20] = [
    67, 97, 114, 100, 32, 68, 114, 97, 119, 32, 84, 114, 97, 110, 115, 99, 114, 105, 112, 116,
];

/// Label of the seed message: the ASCII text `seed`.
pub const SEED_LABEL: [u8; 4] = [115, 101, 101, 100];

/// Label of the draw index message: the ASCII text `draw`.
pub const INDEX_LABEL: [u8; 4] = [100, 114, 97, 119];

/// The transcript of a draw: the protocol label, then the seed under `seed`,
/// then the index under `draw` as a 64-bit little-endian integer.
pub open spec fn draw_transcript_of(seed: Seq<u8>, draw_num: u8) -> Transcript {
    transcript_appended(
        transcript_appended(transcript_started(PROTOCOL_LABEL@), SEED_LABEL@, seed),
        INDEX_LABEL@,
        u64_le_bytes(draw_num as u64),
    )
}

/// Builds the transcript of draw `draw_num` under `seed`, or nothing when the
/// index is above `NUM_DRAWS`.
pub fn draw_transcript(seed: &[u8; 32], draw_num: u8) -> (r: Option<Transcript>)
    ensures
        r == if draw_num > NUM_DRAWS {
            None
        } else {
            Some(draw_transcript_of(seed@, draw_num))
        },
{
    if draw_num > NUM_DRAWS {
        return None;
    }
    let mut t = transcript_new((&PROTOCOL_LABEL).as_slice());
    transcript_append_message(&mut t, (&SEED_LABEL).as_slice(), seed.as_slice());
    transcript_append_u64(&mut t, (&INDEX_LABEL).as_slice(), draw_num as u64);
    Some(t)
}

} // verus!
