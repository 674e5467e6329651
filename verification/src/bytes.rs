//! Little-endian integers and the byte-level helpers shared by both codecs.

use byteorder::{ByteOrder, LittleEndian, WriteBytesExt};
use vstd::arithmetic::div_mod::{lemma_div_denominator, lemma_fundamental_div_mod};
use vstd::prelude::*;
use vstd::slice::*;

verus! {

/// The number that two bytes hold in little-endian order.
pub open spec fn u16_le(b: Seq<u8>) -> u16
    recommends
        b.len() == 2,
{
    (b[0] + 0x100 * b[1]) as u16
}

/// The number that four bytes hold in little-endian order.
pub open spec fn u32_le(b: Seq<u8>) -> u32
    recommends
        b.len() == 4,
{
    (b[0] + 0x100 * b[1] + 0x1_0000 * b[2] + 0x100_0000 * b[3]) as u32
}

/// The four bytes that hold `v` in little-endian order.
pub open spec fn u32_le_bytes(v: u32) -> Seq<u8> {
    seq![
        (v % 0x100) as u8,
        (v / 0x100 % 0x100) as u8,
        (v / 0x1_0000 % 0x100) as u8,
        (v / 0x100_0000) as u8,
    ]
}

/// Reading back the little-endian bytes of a number gives the number.
pub proof fn lemma_u32_le_of_bytes(v: u32)
    ensures
        u32_le_bytes(v).len() == 4,
        u32_le(u32_le_bytes(v)) == v,
{
    let n: int = v as int;
    lemma_fundamental_div_mod(n, 0x100);
    lemma_fundamental_div_mod(n / 0x100, 0x100);
    lemma_fundamental_div_mod(n / 0x1_0000, 0x100);
    lemma_div_denominator(n, 0x100, 0x100);
    lemma_div_denominator(n, 0x1_0000, 0x100);
    assert(n / 0x100 / 0x100 == n / 0x1_0000);
    assert(n / 0x1_0000 / 0x100 == n / 0x100_0000);
    assert(n / 0x100_0000 < 0x100);
}

/// Reads a `u16` from the front of `data` with byteorder's
/// `LittleEndian::read_u16`, which is `u16::from_le_bytes` of the first two
/// bytes and panics on a shorter slice.
#[verifier::external_body]
pub(crate) fn read_u16_le(data: &[u8]) -> (r: u16)
    requires
        data@.len() >= 2,
    ensures
        r == u16_le(data@.subrange(0, 2)),
{
    LittleEndian::read_u16(data)
}

/// Reads a `u32` from the front of `data` with byteorder's
/// `LittleEndian::read_u32`, which is `u32::from_le_bytes` of the first four
/// bytes and panics on a shorter slice.
#[verifier::external_body]
pub(crate) fn read_u32_le(data: &[u8]) -> (r: u32)
    requires
        data@.len() >= 4,
    ensures
        r == u32_le(data@.subrange(0, 4)),
{
    LittleEndian::read_u32(data)
}

/// Appends `value` to `out` with byteorder's
/// `WriteBytesExt::write_u32::<LittleEndian>`, which hands
/// `value.to_le_bytes()` to `write_all`; a `Vec<u8>` takes that by growing.
#[verifier::external_body]
pub(crate) fn write_u32_le(out: &mut Vec<u8>, value: u32)
    ensures
        final(out)@ == old(out)@ + u32_le_bytes(value),
{
    let _ = out.write_u32::<LittleEndian>(value);
}

/// Reads the little-endian `u16` that starts at `offset`.
pub fn u16_at(data: &[u8], offset: usize) -> (r: u16)
    requires
        offset + 2 <= data@.len(),
    ensures
        r == u16_le(data@.subrange(offset as int, offset + 2)),
{
    let rest = slice_subrange(data, offset, data.len());
    assert(rest@.subrange(0, 2) =~= data@.subrange(offset as int, offset + 2));
    read_u16_le(rest)
}

/// Reads the little-endian `u32` that starts at `offset`.
pub fn u32_at(data: &[u8], offset: usize) -> (r: u32)
    requires
        offset + 4 <= data@.len(),
    ensures
        r == u32_le(data@.subrange(offset as int, offset + 4)),
{
    let rest = slice_subrange(data, offset, data.len());
    assert(rest@.subrange(0, 4) =~= data@.subrange(offset as int, offset + 4));
    read_u32_le(rest)
}

/// The number of bytes of `b` before its first zero byte; `b.len()` when it
/// holds none.
pub open spec fn nul_position(b: Seq<u8>) -> int
    decreases b.len(),
{
    if b.len() == 0 || b[0] == 0 {
        0
    } else {
        1 + nul_position(b.drop_first())
    }
}

/// The bytes of `b` before its first zero byte; all of `b` when it holds none.
pub open spec fn until_nul(b: Seq<u8>) -> Seq<u8> {
    b.subrange(0, nul_position(b))
}

/// `count` zero bytes.
pub open spec fn zeros(count: int) -> Seq<u8> {
    Seq::new(count as nat, |i: int| 0u8)
}

/// `nul_position` is the one index that has no zero byte before it and that
/// either ends the sequence or holds a zero byte.
pub proof fn lemma_nul_position(b: Seq<u8>, p: int)
    requires
        0 <= p <= b.len(),
        forall|j: int| 0 <= j < p ==> b[j] != 0,
        p < b.len() ==> b[p] == 0,
    ensures
        nul_position(b) == p,
    decreases b.len(),
{
    if p > 0 {
        let rest = b.drop_first();
        assert forall|j: int| 0 <= j < p - 1 implies rest[j] != 0 by {
            assert(rest[j] == b[j + 1]);
        }
        lemma_nul_position(rest, p - 1);
    }
}

/// Finds the first zero byte of `data`.
pub fn find_nul(data: &[u8]) -> (p: usize)
    ensures
        p == nul_position(data@),
        p <= data@.len(),
{
    let mut i: usize = 0;
    while i < data.len() && data[i] != 0
        invariant
            i <= data@.len(),
            forall|j: int| 0 <= j < i ==> data@[j] != 0,
        decreases data@.len() - i,
    {
        i += 1;
    }
    proof {
        lemma_nul_position(data@, i as int);
    }
    i
}

/// Appends `src` to `out`.
pub fn append_bytes(out: &mut Vec<u8>, src: &[u8])
    ensures
        final(out)@ == old(out)@ + src@,
{
    out.extend_from_slice(src);
    assert(out@ =~= old(out)@ + src@);
}

/// Appends `count` zero bytes to `out`.
pub fn append_zeros(out: &mut Vec<u8>, count: usize)
    ensures
        final(out)@ == old(out)@ + zeros(count as int),
{
    let mut i: usize = 0;
    while i < count
        invariant
            i <= count,
            out@ == old(out)@ + zeros(i as int),
        decreases count - i,
    {
        out.push(0u8);
        i += 1;
        assert(out@ =~= old(out)@ + zeros(i as int));
    }
}

} // verus!
