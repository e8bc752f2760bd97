//! Small helpers on byte buffers shared by the codec and the framing.

use vstd::prelude::*;

verus! {

/// The length prefix found in the first eight bytes of `bytes` from `at`,
/// read as a little-endian unsigned number.
pub open spec fn length_at(bytes: Seq<u8>, at: int) -> nat
    recommends
        0 <= at,
        at + 8 <= bytes.len(),
{
    vstd::bytes::spec_u64_from_le_bytes(bytes.subrange(at, at + 8)) as nat
}

/// The eight bytes that announce a buffer of `len` bytes.
pub open spec fn length_prefix(len: nat) -> Seq<u8>
    recommends
        len <= u64::MAX,
{
    vstd::bytes::spec_u64_to_le_bytes(len as u64)
}

/// A length prefix has eight bytes and reads back as the length it announces.
pub proof fn lemma_length_prefix(len: nat)
    requires
        len <= u64::MAX,
    ensures
        length_prefix(len).len() == 8,
        length_at(length_prefix(len), 0) == len,
{
    vstd::bytes::lemma_auto_spec_u64_to_from_le_bytes();
    assert(length_prefix(len).subrange(0, 8) =~= length_prefix(len));
}

/// Two length prefixes that read as the same length are the same eight bytes.
pub proof fn lemma_length_fixes_prefix(a: Seq<u8>, b: Seq<u8>)
    requires
        a.len() >= 8,
        b.len() >= 8,
        length_at(a, 0) == length_at(b, 0),
    ensures
        a.subrange(0, 8) == b.subrange(0, 8),
{
    vstd::bytes::lemma_auto_spec_u64_to_from_le_bytes();
    let x = a.subrange(0, 8);
    let y = b.subrange(0, 8);
    assert(vstd::bytes::spec_u64_to_le_bytes(vstd::bytes::spec_u64_from_le_bytes(x)) == x);
    assert(vstd::bytes::spec_u64_to_le_bytes(vstd::bytes::spec_u64_from_le_bytes(y)) == y);
}

/// Appends `src` to `out`.
pub(crate) fn append_bytes(out: &mut Vec<u8>, src: &[u8])
    ensures
        final(out)@ == old(out)@ + src@,
{
    let mut i: usize = 0;
    while i < src.len()
        invariant
            i <= src@.len(),
            out@ == old(out)@ + src@.subrange(0, i as int),
        decreases src@.len() - i,
    {
        out.push(src[i]);
        i += 1;
    }
}

/// Reads the length prefix that starts at `at`.
pub(crate) fn read_length(bytes: &[u8], at: usize) -> (len: u64)
    requires
        at + 8 <= bytes@.len(),
    ensures
        len == length_at(bytes@, at as int),
{
    let end: usize = bytes.len();
    vstd::bytes::u64_from_le_bytes(vstd::slice::slice_subrange(bytes, at, at + 8))
}

/// Copies the bytes `from..to` of `bytes` into a buffer of their own.
pub(crate) fn copy_range(bytes: &[u8], from: usize, to: usize) -> (out: Vec<u8>)
    requires
        from <= to <= bytes@.len(),
    ensures
        out@ == bytes@.subrange(from as int, to as int),
{
    vstd::slice::slice_to_vec(vstd::slice::slice_subrange(bytes, from, to))
}

} // verus!
