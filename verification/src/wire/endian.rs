//! Runs of bytes and little-endian integers of fixed width.

use vstd::prelude::*;

verus! {

/// The four bytes of `x`, lowest first.
pub open spec fn le32(x: u32) -> Seq<u8> {
    seq![
        (x % 256) as u8,
        (x / 0x100 % 256) as u8,
        (x / 0x1_0000 % 256) as u8,
        (x / 0x100_0000 % 256) as u8,
    ]
}

/// The number whose four bytes, lowest first, are the first four of `s`.
pub open spec fn le32_value(s: Seq<u8>) -> u32
    recommends
        s.len() >= 4,
{
    (s[0] as int + 0x100 * (s[1] as int) + 0x1_0000 * (s[2] as int) + 0x100_0000 * (
    s[3] as int)) as u32
}

/// The eight bytes of `x`, lowest first.
pub open spec fn le64(x: u64) -> Seq<u8> {
    le32((x % 0x1_0000_0000) as u32) + le32((x / 0x1_0000_0000) as u32)
}

/// The number whose eight bytes, lowest first, are the first eight of `s`.
pub open spec fn le64_value(s: Seq<u8>) -> u64
    recommends
        s.len() >= 8,
{
    (le32_value(s) as int + 0x1_0000_0000 * (le32_value(s.skip(4)) as int)) as u64
}

/// Reading what `le32` wrote gives the number back, whatever follows it.
pub proof fn lemma_le32_value(x: u32, rest: Seq<u8>)
    ensures
        le32(x).len() == 4,
        le32_value(le32(x) + rest) == x,
{
    let s = le32(x) + rest;
    assert(s[0] == le32(x)[0] && s[1] == le32(x)[1] && s[2] == le32(x)[2] && s[3] == le32(x)[3]);
}

/// Four bytes are the `le32` of the number read from them.
pub proof fn lemma_le32_bytes(s: Seq<u8>)
    requires
        s.len() >= 4,
    ensures
        le32(le32_value(s)) == s.take(4),
{
    assert(le32(le32_value(s)) =~= s.take(4));
}

/// Reading what `le64` wrote gives the number back, whatever follows it.
pub proof fn lemma_le64_value(x: u64, rest: Seq<u8>)
    ensures
        le64(x).len() == 8,
        le64_value(le64(x) + rest) == x,
{
    let lo = (x % 0x1_0000_0000) as u32;
    let hi = (x / 0x1_0000_0000) as u32;
    let s = le64(x) + rest;
    lemma_le32_value(lo, le32(hi) + rest);
    lemma_le32_value(hi, rest);
    assert(s =~= le32(lo) + (le32(hi) + rest));
    assert(s.skip(4) =~= le32(hi) + rest);
}

/// Eight bytes are the `le64` of the number read from them.
pub proof fn lemma_le64_bytes(s: Seq<u8>)
    requires
        s.len() >= 8,
    ensures
        le64(le64_value(s)) == s.take(8),
{
    let lo = le32_value(s);
    let hi = le32_value(s.skip(4));
    let v = le64_value(s);
    assert(v == lo + 0x1_0000_0000 * hi);
    assert((v % 0x1_0000_0000) as u32 == lo && (v / 0x1_0000_0000) as u32 == hi);
    lemma_le32_bytes(s);
    lemma_le32_bytes(s.skip(4));
    assert(s.take(8) =~= s.take(4) + s.skip(4).take(4));
}

/// Appends `src` to `out`.
pub fn put_bytes(out: &mut Vec<u8>, src: &[u8])
    ensures
        final(out)@ == old(out)@ + src@,
{
    let mut i: usize = 0;
    while i < src.len()
        invariant
            i <= src.len(),
            out@ == old(out)@ + src@.take(i as int),
        decreases src.len() - i,
    {
        out.push(src[i]);
        i = i + 1;
        assert(out@ =~= old(out)@ + src@.take(i as int));
    }
    assert(src@.take(i as int) =~= src@);
}

/// Appends the four bytes of `x` to `out`.
pub fn put_le32(out: &mut Vec<u8>, x: u32)
    ensures
        final(out)@ == old(out)@ + le32(x),
{
    out.push((x % 256) as u8);
    out.push((x / 0x100 % 256) as u8);
    out.push((x / 0x1_0000 % 256) as u8);
    out.push((x / 0x100_0000 % 256) as u8);
    assert(out@ =~= old(out)@ + le32(x));
}

/// Appends the eight bytes of `x` to `out`.
pub fn put_le64(out: &mut Vec<u8>, x: u64)
    ensures
        final(out)@ == old(out)@ + le64(x),
{
    put_le32(out, (x % 0x1_0000_0000) as u32);
    put_le32(out, (x / 0x1_0000_0000) as u32);
    assert(out@ =~= old(out)@ + le64(x));
}

/// Reads the four bytes at `at` as a number.
pub fn get_le32(bytes: &[u8], at: usize) -> (r: u32)
    requires
        at + 4 <= bytes.len(),
    ensures
        r == le32_value(bytes@.skip(at as int)),
{
    let b0: u32 = bytes[at] as u32;
    let b1: u32 = bytes[at + 1] as u32;
    let b2: u32 = bytes[at + 2] as u32;
    let b3: u32 = bytes[at + 3] as u32;
    b0 + 0x100 * b1 + 0x1_0000 * b2 + 0x100_0000 * b3
}

/// Reads the eight bytes at `at` as a number.
pub fn get_le64(bytes: &[u8], at: usize) -> (r: u64)
    requires
        at + 8 <= bytes.len(),
    ensures
        r == le64_value(bytes@.skip(at as int)),
{
    let lo: u64 = get_le32(bytes, at) as u64;
    let hi: u64 = get_le32(bytes, at + 4) as u64;
    assert(bytes@.skip(at as int).skip(4) =~= bytes@.skip(at + 4));
    lo + 0x1_0000_0000 * hi
}

} // verus!
