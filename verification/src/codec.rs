//! The proof artifact: a proof, which announces its own length, followed at
//! once by the claimed value in the fixed width of its field.

use vstd::prelude::*;
use crate::buffer::{
    append_bytes, copy_range, lemma_length_fixes_prefix, lemma_length_prefix, length_at,
    length_prefix, read_length,
};

verus! {

/// A proof, as the bytes the prover wrote into its transcript.
#[derive(Clone, Debug)]
pub struct Proof {
    pub bytes: Vec<u8>,
}

/// The value a proof claims as the circuit's output, as the bytes of a field
/// element in its fixed width.
#[derive(Clone, Debug)]
pub struct ClaimedValue {
    pub bytes: Vec<u8>,
}

/// Why an artifact cannot be read.
#[derive(Clone, Copy, Debug, PartialEq, Eq, Structural)]
pub enum CodecError {
    /// The buffer ends before the proof does.
    TruncatedProof,
    /// The buffer ends before the claimed value does.
    TruncatedClaimedValue,
}

impl View for Proof {
    type V = Seq<u8>;

    open spec fn view(&self) -> Seq<u8> {
        self.bytes@
    }
}

impl View for ClaimedValue {
    type V = Seq<u8>;

    open spec fn view(&self) -> Seq<u8> {
        self.bytes@
    }
}

/// A proof on its own: its length, little-endian in eight bytes, then its bytes.
pub open spec fn proof_encoding(proof: Seq<u8>) -> Seq<u8>
    recommends
        proof.len() <= u64::MAX,
{
    length_prefix(proof.len()) + proof
}

/// The artifact for a proof and its claimed value: the one after the other,
/// with nothing around them.
pub open spec fn encoded(proof: Seq<u8>, claimed_v: Seq<u8>) -> Seq<u8>
    recommends
        proof.len() <= u64::MAX,
{
    proof_encoding(proof) + claimed_v
}

/// What reading an artifact yields when claimed values are `width` bytes
/// wide: the proof is read from the front, the claimed value from what
/// follows it.
pub open spec fn decoded(bytes: Seq<u8>, width: nat) -> Result<(Seq<u8>, Seq<u8>), CodecError> {
    if bytes.len() < 8 {
        Err(CodecError::TruncatedProof)
    } else {
        let end = 8 + length_at(bytes, 0) as int;
        if end > bytes.len() {
            Err(CodecError::TruncatedProof)
        } else if end + width > bytes.len() {
            Err(CodecError::TruncatedClaimedValue)
        } else {
            Ok((bytes.subrange(8, end), bytes.subrange(end, end + width)))
        }
    }
}

/// Reading what was written gives back the proof and the claimed value.
pub proof fn lemma_codec_round_trip(proof: Seq<u8>, claimed_v: Seq<u8>)
    requires
        proof.len() <= u64::MAX,
    ensures
        encoded(proof, claimed_v).len() == 8 + proof.len() + claimed_v.len(),
        decoded(encoded(proof, claimed_v), claimed_v.len()) == Ok::<_, CodecError>(
            (proof, claimed_v),
        ),
{
    let bytes = encoded(proof, claimed_v);
    let end = 8 + proof.len() as int;
    lemma_length_prefix(proof.len());
    assert(bytes.subrange(0, 8) =~= length_prefix(proof.len()));
    assert(length_prefix(proof.len()).subrange(0, 8) =~= length_prefix(proof.len()));
    assert(bytes.subrange(8, end) =~= proof);
    assert(bytes.subrange(end, end + claimed_v.len()) =~= claimed_v);
}

/// An artifact in which bytes were changed, its length kept, no longer
/// reads as the proof and claimed value it was written from: it reads as
/// others, or not at all.
pub proof fn lemma_change_is_seen(proof: Seq<u8>, claimed_v: Seq<u8>, changed: Seq<u8>)
    requires
        proof.len() <= u64::MAX,
        changed.len() == encoded(proof, claimed_v).len(),
        changed != encoded(proof, claimed_v),
    ensures
        decoded(changed, claimed_v.len()) != Ok::<_, CodecError>((proof, claimed_v)),
{
    let written = encoded(proof, claimed_v);
    let width = claimed_v.len();
    lemma_codec_round_trip(proof, claimed_v);
    if decoded(changed, width) == Ok::<_, CodecError>((proof, claimed_v)) {
        lemma_length_prefix(proof.len());
        lemma_length_fixes_prefix(changed, written);
        assert forall|i: int| 0 <= i < changed.len() implies changed[i] == written[i] by {
            if i < 8 {
                assert(changed.subrange(0, 8)[i] == written.subrange(0, 8)[i]);
            }
        }
        assert(changed =~= written);
    }
}

/// Writes a proof and its claimed value into one buffer.
pub fn dump_proof_and_claimed_v(proof: &Proof, claimed_v: &ClaimedValue) -> (bytes: Vec<u8>)
    ensures
        bytes@ == encoded(proof@, claimed_v@),
        decoded(bytes@, claimed_v@.len()) == Ok::<_, CodecError>((proof@, claimed_v@)),
{
    let mut bytes = vstd::bytes::u64_to_le_bytes(proof.bytes.len() as u64);
    append_bytes(&mut bytes, proof.bytes.as_slice());
    append_bytes(&mut bytes, claimed_v.bytes.as_slice());
    proof {
        lemma_codec_round_trip(proof@, claimed_v@);
    }
    bytes
}

/// Reads a proof and a claimed value of `width` bytes from the front of a buffer.
///
/// A buffer that ends inside the proof or inside the claimed value is
/// refused; bytes behind the claimed value are left unread.
pub fn load_proof_and_claimed_v(bytes: &[u8], width: usize) -> (out: Result<
    (Proof, ClaimedValue),
    CodecError,
>)
    ensures
        match out {
            Ok((proof, claimed_v)) => decoded(bytes@, width as nat) == Ok::<_, CodecError>(
                (proof@, claimed_v@),
            ),
            Err(e) => decoded(bytes@, width as nat) == Err::<(Seq<u8>, Seq<u8>), _>(e),
        },
{
    if bytes.len() < 8 {
        return Err(CodecError::TruncatedProof);
    }
    let len: u64 = read_length(bytes, 0);
    let room: u64 = (bytes.len() - 8) as u64;
    if len > room {
        return Err(CodecError::TruncatedProof);
    }
    let end: usize = 8 + len as usize;
    if width > bytes.len() - end {
        return Err(CodecError::TruncatedClaimedValue);
    }
    let proof = Proof { bytes: copy_range(bytes, 8, end) };
    let claimed_v = ClaimedValue { bytes: copy_range(bytes, end, end + width) };
    Ok((proof, claimed_v))
}

} // verus!
