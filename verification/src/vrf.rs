//! The contracts under which the library calls schnorrkel's VRF.
//!
//! Nothing here is proved: each function makes one call into schnorrkel, and
//! its contract says what that call returns.

use merlin::Transcript;
use schnorrkel::vrf::{VRFInOut, VRFPreOut, VRFProof};
use schnorrkel::{Keypair, PublicKey, SignatureError};
use vstd::prelude::*;

verus! {

/// `schnorrkel::Keypair`, carried through as an opaque value.
#[verifier::external_type_specification]
#[verifier::external_body]
pub struct ExKeypair(schnorrkel::Keypair);

/// `schnorrkel::PublicKey`, carried through as an opaque value.
#[verifier::external_type_specification]
#[verifier::external_body]
pub struct ExPublicKey(schnorrkel::PublicKey);

/// `schnorrkel::vrf::VRFInOut`, carried through as an opaque value.
#[verifier::external_type_specification]
#[verifier::external_body]
pub struct ExVRFInOut(schnorrkel::vrf::VRFInOut);

/// `schnorrkel::vrf::VRFPreOut`, carried through as an opaque value.
#[verifier::external_type_specification]
#[verifier::external_body]
pub struct ExVRFPreOut(schnorrkel::vrf::VRFPreOut);

/// `schnorrkel::vrf::VRFProof`, carried through as an opaque value.
#[verifier::external_type_specification]
#[verifier::external_body]
pub struct ExVRFProof(schnorrkel::vrf::VRFProof);

/// `schnorrkel::SignatureError`, carried through as an opaque value.
#[verifier::external_type_specification]
#[verifier::external_body]
pub struct ExSignatureError(schnorrkel::SignatureError);

/// The input/output pair that `Keypair::vrf_sign` computes for a transcript.
pub uninterp spec fn vrf_signed(keypair: Keypair, t: Transcript) -> VRFInOut;

/// The input/output pair that `PublicKey::vrf_verify` hands back when it
/// accepts a pre-output and a proof for a transcript; `None` when it rejects.
pub uninterp spec fn vrf_verified(
    public: PublicKey,
    t: Transcript,
    out: VRFPreOut,
    proof: VRFProof,
) -> Option<VRFInOut>;

/// The eight bytes that `VRFInOut::make_bytes` derives under a context.
pub uninterp spec fn vrf_output_bytes(io: VRFInOut, context: Seq<u8>) -> Seq<u8>;

/// The pre-output that `VRFInOut::to_preout` takes out of a pair.
pub uninterp spec fn vrf_preout_of(io: VRFInOut) -> VRFPreOut;

/// The 32 bytes that `VRFPreOut::to_bytes` returns.
pub uninterp spec fn vrf_preout_bytes(out: VRFPreOut) -> Seq<u8>;

/// The 64 bytes that `VRFProof::to_bytes` returns.
pub uninterp spec fn vrf_proof_bytes(proof: VRFProof) -> Seq<u8>;

/// The pre-output that `VRFPreOut::from_bytes` reads; `None` when it fails.
pub uninterp spec fn vrf_preout_decoded(bytes: Seq<u8>) -> Option<VRFPreOut>;

/// The proof that `VRFProof::from_bytes` reads; `None` when it fails.
pub uninterp spec fn vrf_proof_decoded(bytes: Seq<u8>) -> Option<VRFProof>;

/// Calls `Keypair::vrf_sign` and drops the batchable proof. The pair is a
/// function of the keypair and the transcript, named `vrf_signed`. The proof
/// is blinded with fresh randomness, so nothing is said of it.
#[verifier::external_body]
pub(crate) fn vrf_sign(keypair: &Keypair, t: Transcript) -> (r: (VRFInOut, VRFProof))
    ensures
        r.0 == vrf_signed(*keypair, t),
{
    let (io, proof, _) = keypair.vrf_sign(t);
    (io, proof)
}

/// Calls `PublicKey::vrf_verify` and drops the batchable proof. The outcome is
/// a function of the four arguments, named `vrf_verified`.
#[verifier::external_body]
pub(crate) fn vrf_verify(public: &PublicKey, t: Transcript, out: &VRFPreOut, proof: &VRFProof) -> (r:
    Result<VRFInOut, SignatureError>)
    ensures
        r.ok() == vrf_verified(*public, t, *out, *proof),
{
    match public.vrf_verify(t, out, proof) {
        Ok((io, _)) => Ok(io),
        Err(e) => Err(e),
    }
}

/// Calls `VRFInOut::make_bytes` for an eight-byte result, named
/// `vrf_output_bytes`. The context is appended to a transcript as a message,
/// which panics on more than `u32::MAX` bytes.
#[verifier::external_body]
pub(crate) fn vrf_make_bytes(io: &VRFInOut, context: &[u8]) -> (r: [u8; 8])
    requires
        context@.len() <= u32::MAX,
    ensures
        r@ == vrf_output_bytes(*io, context@),
{
    io.make_bytes::<[u8; 8]>(context)
}

/// Calls `VRFInOut::to_preout`, named `vrf_preout_of`.
#[verifier::external_body]
pub(crate) fn vrf_to_preout(io: &VRFInOut) -> (r: VRFPreOut)
    ensures
        r == vrf_preout_of(*io),
{
    io.to_preout()
}

/// Calls `VRFPreOut::to_bytes`, named `vrf_preout_bytes`.
#[verifier::external_body]
pub(crate) fn vrf_preout_to_bytes(out: &VRFPreOut) -> (r: [u8; 32])
    ensures
        r@ == vrf_preout_bytes(*out),
{
    out.to_bytes()
}

/// Calls `VRFProof::to_bytes`, named `vrf_proof_bytes`.
#[verifier::external_body]
pub(crate) fn vrf_proof_to_bytes(proof: &VRFProof) -> (r: [u8; 64])
    ensures
        r@ == vrf_proof_bytes(*proof),
{
    proof.to_bytes()
}

/// Calls `VRFPreOut::from_bytes`, named `vrf_preout_decoded`. It fails on a
/// length other than 32 and on nothing else, and keeps the bytes as they are.
#[verifier::external_body]
pub(crate) fn vrf_preout_from_bytes(bytes: &[u8]) -> (r: Result<VRFPreOut, SignatureError>)
    ensures
        r.ok() == vrf_preout_decoded(bytes@),
        r is Ok <==> bytes@.len() == 32,
        r matches Ok(out) ==> vrf_preout_bytes(out) == bytes@,
{
    VRFPreOut::from_bytes(bytes)
}

/// Calls `VRFProof::from_bytes`, named `vrf_proof_decoded`. It fails on a
/// length other than 64, and on scalars that are not in canonical form.
#[verifier::external_body]
pub(crate) fn vrf_proof_from_bytes(bytes: &[u8]) -> (r: Result<VRFProof, SignatureError>)
    ensures
        r.ok() == vrf_proof_decoded(bytes@),
        bytes@.len() != 64 ==> r is Err,
{
    VRFProof::from_bytes(bytes)
}

} // verus!
