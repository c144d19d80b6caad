//! Big-endian integers on the wire.
//!
//! Every multi-byte field of the tracker datagrams and of the peer wire frames
//! is an unsigned integer with its most significant byte first.

use vstd::prelude::*;

verus! {

/// The big-endian bytes of a 16-bit integer.
pub open spec fn u16_be(n: u16) -> Seq<u8> {
    seq![(n / 0x100) as u8, (n % 0x100) as u8]
}

/// The big-endian bytes of a 32-bit integer.
pub open spec fn u32_be(n: u32) -> Seq<u8> {
    seq![
        (n / 0x100_0000) as u8,
        ((n / 0x1_0000) % 0x100) as u8,
        ((n / 0x100) % 0x100) as u8,
        (n % 0x100) as u8,
    ]
}

/// The big-endian bytes of a 64-bit integer.
pub open spec fn u64_be(n: u64) -> Seq<u8> {
    u32_be((n / 0x1_0000_0000) as u32) + u32_be((n % 0x1_0000_0000) as u32)
}

/// The integer that two big-endian bytes stand for.
pub open spec fn be_u16(s: Seq<u8>) -> u16
    recommends
        s.len() == 2,
{
    (s[0] * 0x100 + s[1]) as u16
}

/// The integer that four big-endian bytes stand for.
pub open spec fn be_u32(s: Seq<u8>) -> u32
    recommends
        s.len() == 4,
{
    (s[0] * 0x100_0000 + s[1] * 0x1_0000 + s[2] * 0x100 + s[3]) as u32
}

/// The integer that eight big-endian bytes stand for.
pub open spec fn be_u64(s: Seq<u8>) -> u64
    recommends
        s.len() == 8,
{
    (be_u32(s.subrange(0, 4)) * 0x1_0000_0000 + be_u32(s.subrange(4, 8))) as u64
}

/// Decoding undoes encoding of a 16-bit integer.
pub proof fn lemma_be_u16_decode_encode(n: u16)
    ensures
        u16_be(n).len() == 2,
        be_u16(u16_be(n)) == n,
{
    assert(n / 0x100 < 0x100 && n % 0x100 < 0x100 && (n / 0x100) * 0x100 + n % 0x100 == n)
        by (bit_vector);
}

/// Decoding undoes encoding of a 32-bit integer.
pub proof fn lemma_be_u32_decode_encode(n: u32)
    ensures
        u32_be(n).len() == 4,
        be_u32(u32_be(n)) == n,
{
    assert(n / 0x100_0000 < 0x100 && (n / 0x1_0000) % 0x100 < 0x100 && (n / 0x100) % 0x100 < 0x100
        && n % 0x100 < 0x100 && (n / 0x100_0000) * 0x100_0000 + ((n / 0x1_0000) % 0x100) * 0x1_0000
        + ((n / 0x100) % 0x100) * 0x100 + n % 0x100 == n) by (bit_vector);
}

/// Decoding undoes encoding of a 64-bit integer.
pub proof fn lemma_be_u64_decode_encode(n: u64)
    ensures
        u64_be(n).len() == 8,
        be_u64(u64_be(n)) == n,
{
    let hi = (n / 0x1_0000_0000) as u32;
    let lo = (n % 0x1_0000_0000) as u32;
    lemma_be_u32_decode_encode(hi);
    lemma_be_u32_decode_encode(lo);
    assert(u64_be(n).subrange(0, 4) =~= u32_be(hi));
    assert(u64_be(n).subrange(4, 8) =~= u32_be(lo));
}

/// Encoding undoes decoding of two bytes: a field has exactly one reading.
pub proof fn lemma_be_u16_encode_decode(s: Seq<u8>)
    requires
        s.len() == 2,
    ensures
        u16_be(be_u16(s)) == s,
{
    let a = s[0];
    let b = s[1];
    assert(a * 0x100 + b < 0x1_0000 && (a * 0x100 + b) / 0x100 == a && (a * 0x100 + b) % 0x100
        == b) by (bit_vector);
    assert(u16_be(be_u16(s)) =~= s);
}

/// Encoding undoes decoding of four bytes.
pub proof fn lemma_be_u32_encode_decode(s: Seq<u8>)
    requires
        s.len() == 4,
    ensures
        u32_be(be_u32(s)) == s,
{
    let a = s[0];
    let b = s[1];
    let c = s[2];
    let d = s[3];
    assert(a * 0x100_0000 + b * 0x1_0000 + c * 0x100 + d < 0x1_0000_0000) by (bit_vector);
    assert((a * 0x100_0000 + b * 0x1_0000 + c * 0x100 + d) / 0x100_0000 == a) by (bit_vector);
    assert(((a * 0x100_0000 + b * 0x1_0000 + c * 0x100 + d) / 0x1_0000) % 0x100 == b)
        by (bit_vector);
    assert(((a * 0x100_0000 + b * 0x1_0000 + c * 0x100 + d) / 0x100) % 0x100 == c)
        by (bit_vector);
    assert((a * 0x100_0000 + b * 0x1_0000 + c * 0x100 + d) % 0x100 == d) by (bit_vector);
    assert(u32_be(be_u32(s)) =~= s);
}

/// Encoding undoes decoding of eight bytes.
pub proof fn lemma_be_u64_encode_decode(s: Seq<u8>)
    requires
        s.len() == 8,
    ensures
        u64_be(be_u64(s)) == s,
{
    let hi = s.subrange(0, 4);
    let lo = s.subrange(4, 8);
    lemma_be_u32_encode_decode(hi);
    lemma_be_u32_encode_decode(lo);
    let h = be_u32(hi);
    let l = be_u32(lo);
    let n = be_u64(s);
    assert(n == h * 0x1_0000_0000 + l);
    assert(n / 0x1_0000_0000 == h && n % 0x1_0000_0000 == l);
    assert(u64_be(n) == u32_be(h) + u32_be(l));
    assert(hi + lo =~= s);
}

/// Reads the 16-bit big-endian integer at `at`.
pub fn read_be_u16(buf: &[u8], at: usize) -> (n: u16)
    requires
        at + 2 <= buf.len(),
    ensures
        n == be_u16(buf@.subrange(at as int, at + 2)),
{
    let hi: u16 = buf[at] as u16;
    let lo: u16 = buf[at + 1] as u16;
    hi * 0x100 + lo
}

/// Reads the 32-bit big-endian integer at `at`.
pub fn read_be_u32(buf: &[u8], at: usize) -> (n: u32)
    requires
        at + 4 <= buf.len(),
    ensures
        n == be_u32(buf@.subrange(at as int, at + 4)),
{
    let b0: u32 = buf[at] as u32;
    let b1: u32 = buf[at + 1] as u32;
    let b2: u32 = buf[at + 2] as u32;
    let b3: u32 = buf[at + 3] as u32;
    b0 * 0x100_0000 + b1 * 0x1_0000 + b2 * 0x100 + b3
}

/// Reads the 64-bit big-endian integer at `at`.
pub fn read_be_u64(buf: &[u8], at: usize) -> (n: u64)
    requires
        at + 8 <= buf.len(),
    ensures
        n == be_u64(buf@.subrange(at as int, at + 8)),
{
    let hi: u64 = read_be_u32(buf, at) as u64;
    let lo: u64 = read_be_u32(buf, at + 4) as u64;
    proof {
        let s = buf@.subrange(at as int, at + 8);
        assert(s.subrange(0, 4) =~= buf@.subrange(at as int, at + 4));
        assert(s.subrange(4, 8) =~= buf@.subrange(at + 4, at + 8));
    }
    hi * 0x1_0000_0000 + lo
}

/// Appends the big-endian bytes of a 16-bit integer.
pub fn push_be_u16(out: &mut Vec<u8>, n: u16)
    ensures
        final(out)@ == old(out)@ + u16_be(n),
{
    out.push((n / 0x100) as u8);
    out.push((n % 0x100) as u8);
    assert(out@ =~= old(out)@ + u16_be(n));
}

/// Appends the big-endian bytes of a 32-bit integer.
pub fn push_be_u32(out: &mut Vec<u8>, n: u32)
    ensures
        final(out)@ == old(out)@ + u32_be(n),
{
    out.push((n / 0x100_0000) as u8);
    out.push(((n / 0x1_0000) % 0x100) as u8);
    out.push(((n / 0x100) % 0x100) as u8);
    out.push((n % 0x100) as u8);
    assert(out@ =~= old(out)@ + u32_be(n));
}

/// Appends the big-endian bytes of a 64-bit integer.
pub fn push_be_u64(out: &mut Vec<u8>, n: u64)
    ensures
        final(out)@ == old(out)@ + u64_be(n),
{
    push_be_u32(out, (n / 0x1_0000_0000) as u32);
    push_be_u32(out, (n % 0x1_0000_0000) as u32);
    assert(out@ =~= old(out)@ + u64_be(n));
}

/// Copies a slice of exactly `N` bytes into an array.
pub fn array_from_slice<const N: usize>(bytes: &[u8]) -> (a: [u8; N])
    requires
        bytes.len() == N,
    ensures
        a@ == bytes@,
{
    let mut a = [0u8; N];
    let mut i: usize = 0;
    while i < N
        invariant
            bytes.len() == N,
            i <= N,
            forall|k: int| 0 <= k < i ==> a@[k] == bytes@[k],
        decreases N - i,
    {
        a[i] = bytes[i];
        i += 1;
    }
    assert(a@ =~= bytes@);
    a
}

/// Copies the `N` bytes that start at `at` into an array.
pub fn array_at<const N: usize>(bytes: &[u8], at: usize) -> (a: [u8; N])
    requires
        at + N <= bytes.len(),
    ensures
        a@ == bytes@.subrange(at as int, at + N),
{
    let mut a = [0u8; N];
    let mut i: usize = 0;
    while i < N
        invariant
            at + N <= bytes.len(),
            i <= N,
            forall|k: int| 0 <= k < i ==> a@[k] == bytes@[at + k],
        decreases N - i,
    {
        a[i] = bytes[at + i];
        i += 1;
    }
    assert(a@ =~= bytes@.subrange(at as int, at + N));
    a
}

/// Whether two byte strings are the same, byte for byte.
pub fn bytes_eq(a: &[u8], b: &[u8]) -> (same: bool)
    ensures
        same == (a@ == b@),
{
    if a.len() != b.len() {
        return false;
    }
    let mut i: usize = 0;
    while i < a.len()
        invariant
            a.len() == b.len(),
            i <= a.len(),
            forall|k: int| 0 <= k < i ==> a@[k] == b@[k],
        decreases a.len() - i,
    {
        if a[i] != b[i] {
            return false;
        }
        i += 1;
    }
    assert(a@ =~= b@);
    true
}

/// Appends a copy of `bytes`.
pub fn push_bytes(out: &mut Vec<u8>, bytes: &[u8])
    ensures
        final(out)@ == old(out)@ + bytes@,
{
    let mut i: usize = 0;
    while i < bytes.len()
        invariant
            i <= bytes.len(),
            out@ == old(out)@ + bytes@.subrange(0, i as int),
        decreases bytes.len() - i,
    {
        out.push(bytes[i]);
        assert(out@ =~= old(out)@ + bytes@.subrange(0, i + 1));
        i += 1;
    }
    assert(bytes@.subrange(0, bytes@.len() as int) =~= bytes@);
}

} // verus!
