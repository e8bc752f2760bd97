//! Wire framing of a verify request: two little-endian 64-bit lengths, then
//! the witness bytes, then the proof bytes.

use vstd::prelude::*;
use crate::buffer::{
    append_bytes, copy_range, lemma_length_prefix, length_at, length_prefix, read_length,
};

verus! {

/// Length of the two length fields that open a verify request.
pub const HEADER_LEN: usize = 16;

/// A verify request taken apart.
#[derive(Clone, Debug)]
pub struct VerifyRequest {
    pub witness: Vec<u8>,
    pub proof: Vec<u8>,
}

/// Why a verify request body cannot be taken apart.
#[derive(Clone, Copy, Debug, PartialEq, Eq, Structural)]
pub enum FrameError {
    /// The body is shorter than the two length fields.
    TruncatedHeader,
    /// The two lengths announce more bytes than the body holds.
    LengthsExceedBody,
}

/// The body of a verify request that carries `witness` and `proof`.
pub open spec fn framed(witness: Seq<u8>, proof: Seq<u8>) -> Seq<u8>
    recommends
        witness.len() <= u64::MAX,
        proof.len() <= u64::MAX,
{
    length_prefix(witness.len()) + length_prefix(proof.len()) + witness + proof
}

/// What taking a request body apart yields: the witness and the proof, in
/// this order. Bytes behind the proof are ignored.
pub open spec fn unframed(body: Seq<u8>) -> Result<(Seq<u8>, Seq<u8>), FrameError> {
    if body.len() < 16 {
        Err(FrameError::TruncatedHeader)
    } else {
        let w = length_at(body, 0) as int;
        let p = length_at(body, 8) as int;
        if 16 + w + p > body.len() {
            Err(FrameError::LengthsExceedBody)
        } else {
            Ok((body.subrange(16, 16 + w), body.subrange(16 + w, 16 + w + p)))
        }
    }
}

/// Framing and then unframing gives back exactly the witness and the proof,
/// whatever their lengths, zero included.
pub proof fn lemma_frame_round_trip(witness: Seq<u8>, proof: Seq<u8>)
    requires
        witness.len() <= u64::MAX,
        proof.len() <= u64::MAX,
    ensures
        framed(witness, proof).len() == 16 + witness.len() + proof.len(),
        unframed(framed(witness, proof)) == Ok::<_, FrameError>((witness, proof)),
{
    let body = framed(witness, proof);
    lemma_length_prefix(witness.len());
    lemma_length_prefix(proof.len());
    assert(body.subrange(0, 8) =~= length_prefix(witness.len()));
    assert(body.subrange(8, 16) =~= length_prefix(proof.len()));
    assert(length_prefix(witness.len()).subrange(0, 8) =~= length_prefix(witness.len()));
    assert(length_prefix(proof.len()).subrange(0, 8) =~= length_prefix(proof.len()));
    let w = witness.len() as int;
    let p = proof.len() as int;
    assert(body.subrange(16, 16 + w) =~= witness);
    assert(body.subrange(16 + w, 16 + w + p) =~= proof);
}

/// Builds the body of a verify request from witness bytes and proof bytes.
pub fn frame_verify_request(witness: &[u8], proof: &[u8]) -> (body: Vec<u8>)
    ensures
        body@ == framed(witness@, proof@),
        unframed(body@) == Ok::<_, FrameError>((witness@, proof@)),
{
    let mut body = vstd::bytes::u64_to_le_bytes(witness.len() as u64);
    let proof_len = vstd::bytes::u64_to_le_bytes(proof.len() as u64);
    append_bytes(&mut body, proof_len.as_slice());
    append_bytes(&mut body, witness);
    append_bytes(&mut body, proof);
    proof {
        lemma_frame_round_trip(witness@, proof@);
    }
    body
}

/// Takes the body of a verify request apart.
///
/// A body shorter than the header, and one whose two lengths together
/// announce more bytes than follow the header, are refused.
pub fn unframe_verify_request(body: &[u8]) -> (out: Result<VerifyRequest, FrameError>)
    ensures
        match out {
            Ok(req) => unframed(body@) == Ok::<_, FrameError>((req.witness@, req.proof@)),
            Err(e) => unframed(body@) == Err::<(Seq<u8>, Seq<u8>), _>(e),
        },
{
    if body.len() < HEADER_LEN {
        return Err(FrameError::TruncatedHeader);
    }
    let w: u64 = read_length(body, 0);
    let p: u64 = read_length(body, 8);
    let room: u64 = (body.len() - HEADER_LEN) as u64;
    if w > room || p > room - w {
        return Err(FrameError::LengthsExceedBody);
    }
    let witness_end: usize = HEADER_LEN + w as usize;
    let proof_end: usize = witness_end + p as usize;
    let witness = copy_range(body, HEADER_LEN, witness_end);
    let proof = copy_range(body, witness_end, proof_end);
    Ok(VerifyRequest { witness, proof })
}

} // verus!
