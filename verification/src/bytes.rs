use vstd::prelude::*;

verus! {

/// The little-endian encoding of a 64-bit unsigned integer, one byte per octet.
pub open spec fn u64_le_bytes(x: u64) -> Seq<u8> {
    seq![
        (x % 256) as u8,
        ((x / 0x100) % 256) as u8,
        ((x / 0x1_0000) % 256) as u8,
        ((x / 0x100_0000) % 256) as u8,
        ((x / 0x1_0000_0000) % 256) as u8,
        ((x / 0x100_0000_0000) % 256) as u8,
        ((x / 0x1_0000_0000_0000) % 256) as u8,
        ((x / 0x100_0000_0000_0000) % 256) as u8,
    ]
}

/// The two's-complement reading of a signed 64-bit value as unsigned.
pub open spec fn i64_as_u64(x: i64) -> u64 {
    if x >= 0 {
        x as u64
    } else {
        (x + 0x1_0000_0000_0000_0000) as u64
    }
}

/// The little-endian encoding of a 64-bit signed integer, two's complement.
pub open spec fn i64_le_bytes(x: i64) -> Seq<u8> {
    u64_le_bytes(i64_as_u64(x))
}

/// Appends the little-endian bytes of `x` to `out`.
pub fn push_u64_le(out: &mut Vec<u8>, x: u64)
    ensures
        final(out)@ == old(out)@ + u64_le_bytes(x),
{
    out.push((x % 256) as u8);
    out.push(((x / 0x100) % 256) as u8);
    out.push(((x / 0x1_0000) % 256) as u8);
    out.push(((x / 0x100_0000) % 256) as u8);
    out.push(((x / 0x1_0000_0000) % 256) as u8);
    out.push(((x / 0x100_0000_0000) % 256) as u8);
    out.push(((x / 0x1_0000_0000_0000) % 256) as u8);
    out.push(((x / 0x100_0000_0000_0000) % 256) as u8);
    assert(out@ =~= old(out)@ + u64_le_bytes(x));
}

/// Appends the little-endian two's-complement bytes of `x` to `out`.
pub fn push_i64_le(out: &mut Vec<u8>, x: i64)
    ensures
        final(out)@ == old(out)@ + i64_le_bytes(x),
{
    let unsigned: u64 = if x >= 0 {
        x as u64
    } else {
        (x - i64::MIN) as u64 + 0x8000_0000_0000_0000
    };
    assert(unsigned == i64_as_u64(x));
    push_u64_le(out, unsigned);
}

/// Appends every byte of `src` to `out`.
pub fn push_bytes(out: &mut Vec<u8>, src: &[u8])
    ensures
        final(out)@ == old(out)@ + src@,
{
    let mut i: usize = 0;
    while i < src.len()
        invariant
            0 <= i <= src@.len(),
            out@ == old(out)@ + src@.subrange(0, i as int),
        decreases src@.len() - i,
    {
        out.push(src[i]);
        i += 1;
        assert(out@ =~= old(out)@ + src@.subrange(0, i as int));
    }
    assert(src@.subrange(0, src@.len() as int) =~= src@);
}

/// True when every byte of the sequence is zero.
pub open spec fn all_zero(s: Seq<u8>) -> bool {
    forall|j: int| 0 <= j < s.len() ==> s[j] == 0
}

/// Returns true when every byte of `a` is zero.
pub fn bytes_all_zero(a: &[u8]) -> (r: bool)
    ensures
        r == all_zero(a@),
{
    let mut i: usize = 0;
    while i < a.len()
        invariant
            0 <= i <= a@.len(),
            forall|j: int| 0 <= j < i ==> a@[j] == 0,
        decreases a@.len() - i,
    {
        if a[i] != 0 {
            return false;
        }
        i += 1;
    }
    true
}

/// Returns true when the two byte slices hold the same bytes in the same order.
pub fn bytes_eq(a: &[u8], b: &[u8]) -> (r: bool)
    ensures
        r == (a@ == b@),
{
    if a.len() != b.len() {
        return false;
    }
    let mut i: usize = 0;
    while i < a.len()
        invariant
            0 <= i <= a@.len(),
            a@.len() == b@.len(),
            forall|j: int| 0 <= j < i ==> a@[j] == b@[j],
        decreases a@.len() - i,
    {
        if a[i] != b[i] {
            assert(a@ != b@);
            return false;
        }
        i += 1;
    }
    assert(a@ =~= b@);
    true
}

} // verus!
