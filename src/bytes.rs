//! Little-endian field emission into a byte buffer.
use vstd::prelude::*;

verus! {

/// The two little-endian bytes of `x`.
#[verifier::opaque]
pub open spec fn le16(x: u16) -> Seq<u8> {
    seq![(x % 256) as u8, (x / 256) as u8]
}

/// The four little-endian bytes of `x`.
#[verifier::opaque]
pub open spec fn le32(x: u32) -> Seq<u8> {
    le16((x % 0x1_0000) as u16) + le16((x / 0x1_0000) as u16)
}

/// The eight little-endian bytes of `x`.
#[verifier::opaque]
pub open spec fn le64(x: u64) -> Seq<u8> {
    le32((x % 0x1_0000_0000) as u32) + le32((x / 0x1_0000_0000) as u32)
}

/// A 16-bit little-endian field takes two bytes.
pub broadcast proof fn lemma_le16_len(x: u16)
    ensures
        #[trigger] le16(x).len() == 2,
{
    reveal(le16);
}

/// A 32-bit little-endian field takes four bytes.
pub broadcast proof fn lemma_le32_len(x: u32)
    ensures
        #[trigger] le32(x).len() == 4,
{
    reveal(le32);
    reveal(le16);
}

/// A 64-bit little-endian field takes eight bytes.
pub broadcast proof fn lemma_le64_len(x: u64)
    ensures
        #[trigger] le64(x).len() == 8,
{
    reveal(le64);
    reveal(le32);
    reveal(le16);
}

pub broadcast group group_le_lengths {
    lemma_le16_len,
    lemma_le32_len,
    lemma_le64_len,
}

/// Appends `x` to `out` as a two-byte little-endian field.
pub fn push_u16(out: &mut Vec<u8>, x: u16)
    ensures
        final(out)@ == old(out)@ + le16(x),
{
    out.push((x % 256) as u8);
    out.push((x / 256) as u8);
    reveal(le16);
    assert(out@ =~= old(out)@ + le16(x));
}

/// Appends `x` to `out` as a four-byte little-endian field.
pub fn push_u32(out: &mut Vec<u8>, x: u32)
    ensures
        final(out)@ == old(out)@ + le32(x),
{
    push_u16(out, (x % 0x1_0000) as u16);
    push_u16(out, (x / 0x1_0000) as u16);
    reveal(le32);
    reveal(le16);
    assert(out@ =~= old(out)@ + le32(x));
}

/// Appends `x` to `out` as an eight-byte little-endian field.
pub fn push_u64(out: &mut Vec<u8>, x: u64)
    ensures
        final(out)@ == old(out)@ + le64(x),
{
    push_u32(out, (x % 0x1_0000_0000) as u32);
    push_u32(out, (x / 0x1_0000_0000) as u32);
    reveal(le64);
    reveal(le32);
    reveal(le16);
    assert(out@ =~= old(out)@ + le64(x));
}

/// Appends the bytes of `bytes` to `out`, unchanged and in order.
pub fn push_bytes(out: &mut Vec<u8>, bytes: &[u8])
    ensures
        final(out)@ == old(out)@ + bytes@,
{
    let mut i: usize = 0;
    while i < bytes.len()
        invariant
            i <= bytes@.len(),
            out@ == old(out)@ + bytes@.subrange(0, i as int),
        decreases bytes@.len() - i,
    {
        out.push(bytes[i]);
        i = i + 1;
        assert(out@ =~= old(out)@ + bytes@.subrange(0, i as int));
    }
    assert(bytes@.subrange(0, i as int) =~= bytes@);
}

/// Appends `n` zero bytes to `out`.
pub fn push_zeros(out: &mut Vec<u8>, n: usize)
    ensures
        final(out)@ == old(out)@ + Seq::new(n as nat, |i: int| 0u8),
{
    let mut i: usize = 0;
    while i < n
        invariant
            i <= n,
            out@ == old(out)@ + Seq::new(i as nat, |k: int| 0u8),
        decreases n - i,
    {
        out.push(0u8);
        i = i + 1;
        assert(out@ =~= old(out)@ + Seq::new(i as nat, |k: int| 0u8));
    }
}

} // verus!
