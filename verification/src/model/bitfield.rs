//! Bit vectors of the `bit-vec` crate, and how their bits are packed into
//! bytes: the first bit is the most significant bit of the first byte.

use bit_vec::BitVec;
use vstd::prelude::*;

verus! {

/// `bit_vec::BitVec`, of which the library sees nothing but what the
/// functions below say of it.
#[verifier::external_type_specification]
#[verifier::external_body]
#[verifier::reject_recursive_types(B)]
pub struct ExBitVec<B>(BitVec<B>);

/// The bits that a bit vector holds, in order.
pub uninterp spec fn bitvec_bits(bits: BitVec) -> Seq<bool>;

/// The value of the bit numbered `k` within a byte, counted from the most
/// significant one.
pub open spec fn bit_weight(k: int) -> int
    recommends
        0 <= k < 8,
{
    if k == 0 {
        128
    } else if k == 1 {
        64
    } else if k == 2 {
        32
    } else if k == 3 {
        16
    } else if k == 4 {
        8
    } else if k == 5 {
        4
    } else if k == 6 {
        2
    } else {
        1
    }
}

/// Whether the bit numbered `k` of a byte is set.
pub open spec fn bit_of_byte(b: u8, k: int) -> bool
    recommends
        0 <= k < 8,
{
    (b as int / bit_weight(k)) % 2 == 1
}

/// The bits of a byte string: eight per byte.
pub open spec fn unpacked_bits(bytes: Seq<u8>) -> Seq<bool> {
    Seq::new(8 * bytes.len(), |i: int| bit_of_byte(bytes[i / 8], i % 8))
}

/// What the bit numbered `k` of the byte numbered `j` adds to that byte; a bit
/// beyond the end adds nothing.
pub open spec fn bit_value(bits: Seq<bool>, j: int, k: int) -> int {
    if 8 * j + k < bits.len() && bits[8 * j + k] {
        bit_weight(k)
    } else {
        0
    }
}

/// The byte numbered `j` of a packed bit string.
pub open spec fn packed_byte(bits: Seq<bool>, j: int) -> u8 {
    (bit_value(bits, j, 0) + bit_value(bits, j, 1) + bit_value(bits, j, 2) + bit_value(bits, j, 3)
        + bit_value(bits, j, 4) + bit_value(bits, j, 5) + bit_value(bits, j, 6) + bit_value(
        bits,
        j,
        7,
    )) as u8
}

/// A bit string packed into bytes. The last byte is filled up with zero bits.
pub open spec fn packed_bytes(bits: Seq<bool>) -> Seq<u8> {
    Seq::new(((bits.len() + 7) / 8) as nat, |j: int| packed_byte(bits, j))
}

/// A bit string filled up with zero bits to a whole number of bytes.
pub open spec fn padded_bits(bits: Seq<bool>) -> Seq<bool> {
    Seq::new(
        (8 * ((bits.len() + 7) / 8)) as nat,
        |i: int|
            if i < bits.len() {
                bits[i]
            } else {
                false
            },
    )
}

/// The bits of a byte that is a sum of bit values are the bits that were
/// summed.
proof fn lemma_bits_of_sum(x0: u8, x1: u8, x2: u8, x3: u8, x4: u8, x5: u8, x6: u8, x7: u8)
    by (bit_vector)
    requires
        x0 <= 1,
        x1 <= 1,
        x2 <= 1,
        x3 <= 1,
        x4 <= 1,
        x5 <= 1,
        x6 <= 1,
        x7 <= 1,
    ensures
        x0 * 128 + x1 * 64 + x2 * 32 + x3 * 16 + x4 * 8 + x5 * 4 + x6 * 2 + x7 < 256,
        ((x0 * 128 + x1 * 64 + x2 * 32 + x3 * 16 + x4 * 8 + x5 * 4 + x6 * 2 + x7) / 128) % 2 == x0,
        ((x0 * 128 + x1 * 64 + x2 * 32 + x3 * 16 + x4 * 8 + x5 * 4 + x6 * 2 + x7) / 64) % 2 == x1,
        ((x0 * 128 + x1 * 64 + x2 * 32 + x3 * 16 + x4 * 8 + x5 * 4 + x6 * 2 + x7) / 32) % 2 == x2,
        ((x0 * 128 + x1 * 64 + x2 * 32 + x3 * 16 + x4 * 8 + x5 * 4 + x6 * 2 + x7) / 16) % 2 == x3,
        ((x0 * 128 + x1 * 64 + x2 * 32 + x3 * 16 + x4 * 8 + x5 * 4 + x6 * 2 + x7) / 8) % 2 == x4,
        ((x0 * 128 + x1 * 64 + x2 * 32 + x3 * 16 + x4 * 8 + x5 * 4 + x6 * 2 + x7) / 4) % 2 == x5,
        ((x0 * 128 + x1 * 64 + x2 * 32 + x3 * 16 + x4 * 8 + x5 * 4 + x6 * 2 + x7) / 2) % 2 == x6,
        ((x0 * 128 + x1 * 64 + x2 * 32 + x3 * 16 + x4 * 8 + x5 * 4 + x6 * 2 + x7) / 1) % 2 == x7,
{
}

/// A byte is the sum of the values of its bits.
proof fn lemma_sum_of_bits(b: u8)
    by (bit_vector)
    ensures
        ((b / 128) % 2) * 128 + ((b / 64) % 2) * 64 + ((b / 32) % 2) * 32 + ((b / 16) % 2) * 16 + ((b
            / 8) % 2) * 8 + ((b / 4) % 2) * 4 + ((b / 2) % 2) * 2 + (b / 1) % 2 == b,
{
}

/// Whether a bit is there and set, as a number.
spec fn bit_number(bits: Seq<bool>, j: int, k: int) -> u8 {
    if 8 * j + k < bits.len() && bits[8 * j + k] {
        1
    } else {
        0
    }
}

/// The bit numbered `k` of a packed byte is the bit that was packed there.
proof fn lemma_bit_of_packed_byte(bits: Seq<bool>, j: int, k: int)
    requires
        0 <= j,
        0 <= k < 8,
    ensures
        bit_of_byte(packed_byte(bits, j), k) == (8 * j + k < bits.len() && bits[8 * j + k]),
{
    let x0 = bit_number(bits, j, 0);
    let x1 = bit_number(bits, j, 1);
    let x2 = bit_number(bits, j, 2);
    let x3 = bit_number(bits, j, 3);
    let x4 = bit_number(bits, j, 4);
    let x5 = bit_number(bits, j, 5);
    let x6 = bit_number(bits, j, 6);
    let x7 = bit_number(bits, j, 7);
    lemma_bits_of_sum(x0, x1, x2, x3, x4, x5, x6, x7);
    assert(bit_value(bits, j, 0) == x0 * 128);
    assert(bit_value(bits, j, 1) == x1 * 64);
    assert(bit_value(bits, j, 2) == x2 * 32);
    assert(bit_value(bits, j, 3) == x3 * 16);
    assert(bit_value(bits, j, 4) == x4 * 8);
    assert(bit_value(bits, j, 5) == x5 * 4);
    assert(bit_value(bits, j, 6) == x6 * 2);
    assert(bit_value(bits, j, 7) == x7 * 1);
    assert(packed_byte(bits, j) as int == x0 * 128 + x1 * 64 + x2 * 32 + x3 * 16 + x4 * 8 + x5 * 4
        + x6 * 2 + x7);
}

/// Unpacking undoes packing, up to the zero bits that fill the last byte.
pub proof fn lemma_unpack_pack(bits: Seq<bool>)
    ensures
        unpacked_bits(packed_bytes(bits)) == padded_bits(bits),
        bits.len() % 8 == 0 ==> padded_bits(bits) == bits,
{
    let bytes = packed_bytes(bits);
    let back = unpacked_bits(bytes);
    let padded = padded_bits(bits);
    assert(back.len() == padded.len());
    assert forall|i: int| 0 <= i < back.len() implies back[i] == padded[i] by {
        let j = i / 8;
        let k = i % 8;
        assert(i == 8 * j + k);
        assert(back[i] == bit_of_byte(packed_byte(bits, j), k));
        lemma_bit_of_packed_byte(bits, j, k);
    }
    assert(back =~= padded);
    if bits.len() % 8 == 0 {
        assert(padded =~= bits);
    }
}

/// The bit numbered `k` of the byte numbered `j`, in the unpacked bits.
proof fn lemma_unpacked_bit(bytes: Seq<u8>, j: int, k: int)
    requires
        0 <= j < bytes.len(),
        0 <= k < 8,
    ensures
        8 * j + k < unpacked_bits(bytes).len(),
        unpacked_bits(bytes)[8 * j + k] == bit_of_byte(bytes[j], k),
{
    assert((8 * j + k) / 8 == j && (8 * j + k) % 8 == k);
}

/// Packing undoes unpacking.
pub proof fn lemma_pack_unpack(bytes: Seq<u8>)
    ensures
        packed_bytes(unpacked_bits(bytes)) == bytes,
{
    let bits = unpacked_bits(bytes);
    let back = packed_bytes(bits);
    assert(back.len() == bytes.len());
    assert forall|j: int| 0 <= j < bytes.len() implies back[j] == bytes[j] by {
        let b = bytes[j];
        lemma_unpacked_bit(bytes, j, 0);
        lemma_unpacked_bit(bytes, j, 1);
        lemma_unpacked_bit(bytes, j, 2);
        lemma_unpacked_bit(bytes, j, 3);
        lemma_unpacked_bit(bytes, j, 4);
        lemma_unpacked_bit(bytes, j, 5);
        lemma_unpacked_bit(bytes, j, 6);
        lemma_unpacked_bit(bytes, j, 7);
        lemma_sum_of_bits(b);
        assert(bit_value(bits, j, 0) == ((b / 128) % 2) * 128);
        assert(bit_value(bits, j, 1) == ((b / 64) % 2) * 64);
        assert(bit_value(bits, j, 2) == ((b / 32) % 2) * 32);
        assert(bit_value(bits, j, 3) == ((b / 16) % 2) * 16);
        assert(bit_value(bits, j, 4) == ((b / 8) % 2) * 8);
        assert(bit_value(bits, j, 5) == ((b / 4) % 2) * 4);
        assert(bit_value(bits, j, 6) == ((b / 2) % 2) * 2);
        assert(bit_value(bits, j, 7) == (b / 1) % 2);
        assert(packed_byte(bits, j) == b);
    }
    assert(back =~= bytes);
}

/// An empty bit vector. Calls `BitVec::new`.
#[verifier::external_body]
pub(crate) fn bits_new() -> (bits: BitVec)
    ensures
        bitvec_bits(bits).len() == 0,
{
    BitVec::new()
}

/// The bit vector of a byte string: each byte gives eight bits, the most
/// significant first. Calls `BitVec::from_bytes`, which panics where the
/// number of bits does not fit a `usize`.
#[verifier::external_body]
pub(crate) fn bits_from_bytes(bytes: &[u8]) -> (bits: BitVec)
    requires
        8 * bytes@.len() <= usize::MAX,
    ensures
        bitvec_bits(bits) == unpacked_bits(bytes@),
{
    BitVec::from_bytes(bytes)
}

/// The bytes of a bit vector: the first bit becomes the most significant bit
/// of the first byte, and the last byte is filled up with zero bits. Calls
/// `BitVec::to_bytes`.
#[verifier::external_body]
pub(crate) fn bits_to_bytes(bits: &BitVec) -> (bytes: Vec<u8>)
    ensures
        bytes@ == packed_bytes(bitvec_bits(*bits)),
{
    bits.to_bytes()
}

/// The bit numbered `i`, or `None` beyond the end. Calls `BitVec::get`.
#[verifier::external_body]
pub(crate) fn bits_get(bits: &BitVec, i: usize) -> (bit: Option<bool>)
    ensures
        bit == (if i < bitvec_bits(*bits).len() {
            Some(bitvec_bits(*bits)[i as int])
        } else {
            None
        }),
{
    bits.get(i)
}

} // verus!
