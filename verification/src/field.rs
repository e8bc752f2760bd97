//! Detection of the field a circuit file was compiled for.

use vstd::prelude::*;

verus! {

/// The field a circuit was compiled for.
#[derive(Clone, Copy, Debug, PartialEq, Eq, Structural)]
pub enum FieldType {
    M31,
    BN254,
    GF2,
}

/// Why no field could be detected.
#[derive(Clone, Copy, Debug, PartialEq, Eq, Structural)]
pub enum DetectError {
    /// The file ends before the sentinel does.
    TooShort,
    /// The sentinel bytes belong to no supported field.
    UnknownField,
}

/// The sentinel of the Mersenne-31 field: its modulus, little-endian.
pub open spec fn sentinel_m31() -> Seq<u8> {
    seq![
        255u8, 255, 255, 127, 0, 0, 0, 0, 0, 0, 0, 0, 0, 0, 0, 0,
        0, 0, 0, 0, 0, 0, 0, 0, 0, 0, 0, 0, 0, 0, 0, 0,
    ]
}

/// The sentinel of the BN254 scalar field: its modulus, little-endian.
pub open spec fn sentinel_bn254() -> Seq<u8> {
    seq![
        1u8, 0, 0, 240, 147, 245, 225, 67, 145, 112, 185, 121, 72, 232, 51, 40,
        93, 88, 129, 129, 182, 69, 80, 184, 41, 160, 49, 225, 114, 78, 100, 48,
    ]
}

/// The sentinel of the binary field.
pub open spec fn sentinel_gf2() -> Seq<u8> {
    seq![
        2u8, 0, 0, 0, 0, 0, 0, 0, 0, 0, 0, 0, 0, 0, 0, 0,
        0, 0, 0, 0, 0, 0, 0, 0, 0, 0, 0, 0, 0, 0, 0, 0,
    ]
}

/// The 32 sentinel bytes that identify a field.
pub open spec fn sentinel(tag: FieldType) -> Seq<u8> {
    match tag {
        FieldType::M31 => sentinel_m31(),
        FieldType::BN254 => sentinel_bn254(),
        FieldType::GF2 => sentinel_gf2(),
    }
}

/// The sentinel span of a circuit file: its bytes 8..40.
pub open spec fn sentinel_span(file: Seq<u8>) -> Seq<u8>
    recommends
        file.len() >= 40,
{
    file.subrange(8, 40)
}

/// What detection yields on the bytes of a circuit file.
pub open spec fn detected(file: Seq<u8>) -> Result<FieldType, DetectError> {
    if file.len() < 40 {
        Err(DetectError::TooShort)
    } else if sentinel_span(file) == sentinel(FieldType::M31) {
        Ok(FieldType::M31)
    } else if sentinel_span(file) == sentinel(FieldType::BN254) {
        Ok(FieldType::BN254)
    } else if sentinel_span(file) == sentinel(FieldType::GF2) {
        Ok(FieldType::GF2)
    } else {
        Err(DetectError::UnknownField)
    }
}

impl FieldType {
    /// The sentinel bytes of this field.
    pub fn sentinel_bytes(self) -> (out: [u8; 32])
        ensures
            out@ == sentinel(self),
    {
        let out: [u8; 32] = match self {
            FieldType::M31 => [
                255, 255, 255, 127, 0, 0, 0, 0, 0, 0, 0, 0, 0, 0, 0, 0,
                0, 0, 0, 0, 0, 0, 0, 0, 0, 0, 0, 0, 0, 0, 0, 0,
            ],
            FieldType::BN254 => [
                1, 0, 0, 240, 147, 245, 225, 67, 145, 112, 185, 121, 72, 232, 51, 40,
                93, 88, 129, 129, 182, 69, 80, 184, 41, 160, 49, 225, 114, 78, 100, 48,
            ],
            FieldType::GF2 => [
                2, 0, 0, 0, 0, 0, 0, 0, 0, 0, 0, 0, 0, 0, 0, 0,
                0, 0, 0, 0, 0, 0, 0, 0, 0, 0, 0, 0, 0, 0, 0, 0,
            ],
        };
        out
    }
}

/// No two fields share a sentinel, so a sentinel span names at most one
/// field: a file whose span equals the sentinel of a field is detected as
/// that field, and a file of 40 bytes or more whose span equals none is
/// refused as unknown.
pub proof fn lemma_detection(file: Seq<u8>, tag: FieldType)
    requires
        file.len() >= 40,
    ensures
        sentinel_span(file) == sentinel(tag) ==> detected(file) == Ok::<_, DetectError>(tag),
        sentinel_span(file) != sentinel(FieldType::M31) && sentinel_span(file) != sentinel(
            FieldType::BN254,
        ) && sentinel_span(file) != sentinel(FieldType::GF2) ==> detected(file) == Err::<
            FieldType,
            _,
        >(DetectError::UnknownField),
        detected(file) is Ok ==> sentinel_span(file) == sentinel(detected(file)->Ok_0),
{
    assert(sentinel_m31()[0] == 255);
    assert(sentinel_bn254()[0] == 1);
    assert(sentinel_gf2()[0] == 2);
}

/// Whether `file` is long enough to hold a sentinel and its sentinel span
/// holds exactly the sentinel of `tag`.
pub fn has_sentinel(file: &[u8], tag: FieldType) -> (hit: bool)
    ensures
        hit == (file@.len() >= 40 && sentinel_span(file@) == sentinel(tag)),
{
    if file.len() < 40 {
        return false;
    }
    let want = tag.sentinel_bytes();
    let mut i: usize = 0;
    while i < 32
        invariant
            i <= 32,
            file@.len() >= 40,
            want@ == sentinel(tag),
            want@.len() == 32,
            forall|k: int| 0 <= k < i ==> file@[8 + k] == want@[k],
        decreases 32 - i,
    {
        if file[8 + i] != want[i] {
            return false;
        }
        i += 1;
    }
    assert(sentinel_span(file@) =~= sentinel(tag));
    true
}

/// Detects the field of a circuit file from its bytes.
///
/// The bytes 8..40 are compared with the three sentinels. A file shorter
/// than 40 bytes and a span that matches none of them are both refused.
pub fn detect_field_type(file: &[u8]) -> (out: Result<FieldType, DetectError>)
    ensures
        out == detected(file@),
{
    if file.len() < 40 {
        Err(DetectError::TooShort)
    } else if has_sentinel(file, FieldType::M31) {
        Ok(FieldType::M31)
    } else if has_sentinel(file, FieldType::BN254) {
        Ok(FieldType::BN254)
    } else if has_sentinel(file, FieldType::GF2) {
        Ok(FieldType::GF2)
    } else {
        Err(DetectError::UnknownField)
    }
}

} // verus!
