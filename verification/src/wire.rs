//! Little-endian fixed-width integer fields, the primitive pieces of every
//! frame and payload on the wire.

use vstd::prelude::*;

verus! {

/// The little-endian byte image of a `u16`.
pub open spec fn u16_le(v: u16) -> Seq<u8> {
    seq![(v & 0xff) as u8, ((v >> 8) & 0xff) as u8]
}

/// The little-endian byte image of a `u32`.
pub open spec fn u32_le(v: u32) -> Seq<u8> {
    seq![
        (v & 0xff) as u8,
        ((v >> 8) & 0xff) as u8,
        ((v >> 16) & 0xff) as u8,
        ((v >> 24) & 0xff) as u8,
    ]
}

/// The little-endian byte image of a `u64`.
pub open spec fn u64_le(v: u64) -> Seq<u8> {
    seq![
        (v & 0xff) as u8,
        ((v >> 8) & 0xff) as u8,
        ((v >> 16) & 0xff) as u8,
        ((v >> 24) & 0xff) as u8,
        ((v >> 32) & 0xff) as u8,
        ((v >> 40) & 0xff) as u8,
        ((v >> 48) & 0xff) as u8,
        ((v >> 56) & 0xff) as u8,
    ]
}

/// The little-endian byte image of a `u128`.
pub open spec fn u128_le(v: u128) -> Seq<u8> {
    seq![
        (v & 0xff) as u8,
        ((v >> 8) & 0xff) as u8,
        ((v >> 16) & 0xff) as u8,
        ((v >> 24) & 0xff) as u8,
        ((v >> 32) & 0xff) as u8,
        ((v >> 40) & 0xff) as u8,
        ((v >> 48) & 0xff) as u8,
        ((v >> 56) & 0xff) as u8,
        ((v >> 64) & 0xff) as u8,
        ((v >> 72) & 0xff) as u8,
        ((v >> 80) & 0xff) as u8,
        ((v >> 88) & 0xff) as u8,
        ((v >> 96) & 0xff) as u8,
        ((v >> 104) & 0xff) as u8,
        ((v >> 112) & 0xff) as u8,
        ((v >> 120) & 0xff) as u8,
    ]
}

/// The `u16` denoted by two little-endian bytes.
pub open spec fn le_u16(b0: u8, b1: u8) -> u16 {
    (b0 as u16) | ((b1 as u16) << 8)
}

/// The `u32` denoted by four little-endian bytes.
pub open spec fn le_u32(b0: u8, b1: u8, b2: u8, b3: u8) -> u32 {
    (b0 as u32) | ((b1 as u32) << 8) | ((b2 as u32) << 16) | ((b3 as u32) << 24)
}

/// The `u64` denoted by eight little-endian bytes.
pub open spec fn le_u64(b: Seq<u8>) -> u64
    recommends
        b.len() == 8,
{
    (b[0] as u64) | ((b[1] as u64) << 8) | ((b[2] as u64) << 16) | ((b[3] as u64) << 24)
        | ((b[4] as u64) << 32) | ((b[5] as u64) << 40) | ((b[6] as u64) << 48)
        | ((b[7] as u64) << 56)
}

/// The `u128` denoted by sixteen little-endian bytes.
pub open spec fn le_u128(b: Seq<u8>) -> u128
    recommends
        b.len() == 16,
{
    (b[0] as u128) | ((b[1] as u128) << 8) | ((b[2] as u128) << 16) | ((b[3] as u128) << 24)
        | ((b[4] as u128) << 32) | ((b[5] as u128) << 40) | ((b[6] as u128) << 48)
        | ((b[7] as u128) << 56) | ((b[8] as u128) << 64) | ((b[9] as u128) << 72)
        | ((b[10] as u128) << 80) | ((b[11] as u128) << 88) | ((b[12] as u128) << 96)
        | ((b[13] as u128) << 104) | ((b[14] as u128) << 112) | ((b[15] as u128) << 120)
}

/// Reading back the two bytes of a `u16` recovers it.
pub proof fn lemma_u16_le_roundtrip(v: u16)
    ensures
        le_u16(u16_le(v)[0], u16_le(v)[1]) == v,
{
    assert(((v & 0xff) as u8 as u16) | ((((v >> 8) & 0xff) as u8 as u16) << 8) == v)
        by (bit_vector);
}

/// Reading back the four bytes of a `u32` recovers it.
pub proof fn lemma_u32_le_roundtrip(v: u32)
    ensures
        le_u32(u32_le(v)[0], u32_le(v)[1], u32_le(v)[2], u32_le(v)[3]) == v,
{
    assert(((v & 0xff) as u8 as u32) | ((((v >> 8) & 0xff) as u8 as u32) << 8)
        | ((((v >> 16) & 0xff) as u8 as u32) << 16) | ((((v >> 24) & 0xff) as u8 as u32) << 24)
        == v) by (bit_vector);
}

/// Reading back the eight bytes of a `u64` recovers it.
pub proof fn lemma_u64_le_roundtrip(v: u64)
    ensures
        le_u64(u64_le(v)) == v,
{
    assert(((v & 0xff) as u8 as u64) | ((((v >> 8) & 0xff) as u8 as u64) << 8)
        | ((((v >> 16) & 0xff) as u8 as u64) << 16) | ((((v >> 24) & 0xff) as u8 as u64) << 24)
        | ((((v >> 32) & 0xff) as u8 as u64) << 32) | ((((v >> 40) & 0xff) as u8 as u64) << 40)
        | ((((v >> 48) & 0xff) as u8 as u64) << 48) | ((((v >> 56) & 0xff) as u8 as u64) << 56)
        == v) by (bit_vector);
}

/// Reading back the sixteen bytes of a `u128` recovers it.
pub proof fn lemma_u128_le_roundtrip(v: u128)
    ensures
        le_u128(u128_le(v)) == v,
{
    assert(((v & 0xff) as u8 as u128) | ((((v >> 8) & 0xff) as u8 as u128) << 8)
        | ((((v >> 16) & 0xff) as u8 as u128) << 16) | ((((v >> 24) & 0xff) as u8 as u128) << 24)
        | ((((v >> 32) & 0xff) as u8 as u128) << 32) | ((((v >> 40) & 0xff) as u8 as u128) << 40)
        | ((((v >> 48) & 0xff) as u8 as u128) << 48) | ((((v >> 56) & 0xff) as u8 as u128) << 56)
        | ((((v >> 64) & 0xff) as u8 as u128) << 64) | ((((v >> 72) & 0xff) as u8 as u128) << 72)
        | ((((v >> 80) & 0xff) as u8 as u128) << 80) | ((((v >> 88) & 0xff) as u8 as u128) << 88)
        | ((((v >> 96) & 0xff) as u8 as u128) << 96)
        | ((((v >> 104) & 0xff) as u8 as u128) << 104)
        | ((((v >> 112) & 0xff) as u8 as u128) << 112)
        | ((((v >> 120) & 0xff) as u8 as u128) << 120) == v) by (bit_vector);
}

/// Writing the `u16` denoted by two bytes reproduces those bytes.
pub proof fn lemma_le_u16_roundtrip(b0: u8, b1: u8)
    ensures
        u16_le(le_u16(b0, b1)) =~= seq![b0, b1],
{
    assert((((b0 as u16) | ((b1 as u16) << 8)) & 0xff) as u8 == b0 && ((((b0 as u16) | ((
    b1 as u16) << 8)) >> 8) & 0xff) as u8 == b1) by (bit_vector);
}

/// Writing the `u32` denoted by four bytes reproduces those bytes.
pub proof fn lemma_le_u32_roundtrip(b0: u8, b1: u8, b2: u8, b3: u8)
    ensures
        u32_le(le_u32(b0, b1, b2, b3)) =~= seq![b0, b1, b2, b3],
{
    assert({
        let w = (b0 as u32) | ((b1 as u32) << 8) | ((b2 as u32) << 16) | ((b3 as u32) << 24);
        (w & 0xff) as u8 == b0 && ((w >> 8) & 0xff) as u8 == b1 && ((w >> 16) & 0xff) as u8 == b2
            && ((w >> 24) & 0xff) as u8 == b3
    }) by (bit_vector);
}

/// Writing the `u64` denoted by eight bytes reproduces those bytes.
pub proof fn lemma_le_u64_roundtrip(b: Seq<u8>)
    requires
        b.len() == 8,
    ensures
        u64_le(le_u64(b)) =~= b,
{
    let b0 = b[0];
    let b1 = b[1];
    let b2 = b[2];
    let b3 = b[3];
    let b4 = b[4];
    let b5 = b[5];
    let b6 = b[6];
    let b7 = b[7];
    assert({
        let w = (b0 as u64) | ((b1 as u64) << 8) | ((b2 as u64) << 16) | ((b3 as u64) << 24)
            | ((b4 as u64) << 32) | ((b5 as u64) << 40) | ((b6 as u64) << 48) | ((
        b7 as u64) << 56);
        (w & 0xff) as u8 == b0 && ((w >> 8) & 0xff) as u8 == b1 && ((w >> 16) & 0xff) as u8 == b2
            && ((w >> 24) & 0xff) as u8 == b3 && ((w >> 32) & 0xff) as u8 == b4 && ((w >> 40)
            & 0xff) as u8 == b5 && ((w >> 48) & 0xff) as u8 == b6 && ((w >> 56) & 0xff) as u8
            == b7
    }) by (bit_vector);
}

/// Appends the little-endian bytes of a `u16`.
pub fn write_u16_le(out: &mut Vec<u8>, v: u16)
    ensures
        final(out)@ == old(out)@ + u16_le(v),
{
    out.push((v & 0xff) as u8);
    out.push(((v >> 8) & 0xff) as u8);
    assert(out@ =~= old(out)@ + u16_le(v));
}

/// Appends the little-endian bytes of a `u32`.
pub fn write_u32_le(out: &mut Vec<u8>, v: u32)
    ensures
        final(out)@ == old(out)@ + u32_le(v),
{
    out.push((v & 0xff) as u8);
    out.push(((v >> 8) & 0xff) as u8);
    out.push(((v >> 16) & 0xff) as u8);
    out.push(((v >> 24) & 0xff) as u8);
    assert(out@ =~= old(out)@ + u32_le(v));
}

/// Appends the little-endian bytes of a `u64`.
pub fn write_u64_le(out: &mut Vec<u8>, v: u64)
    ensures
        final(out)@ == old(out)@ + u64_le(v),
{
    out.push((v & 0xff) as u8);
    out.push(((v >> 8) & 0xff) as u8);
    out.push(((v >> 16) & 0xff) as u8);
    out.push(((v >> 24) & 0xff) as u8);
    out.push(((v >> 32) & 0xff) as u8);
    out.push(((v >> 40) & 0xff) as u8);
    out.push(((v >> 48) & 0xff) as u8);
    out.push(((v >> 56) & 0xff) as u8);
    assert(out@ =~= old(out)@ + u64_le(v));
}

/// Appends the little-endian bytes of a `u128`.
pub fn write_u128_le(out: &mut Vec<u8>, v: u128)
    ensures
        final(out)@ == old(out)@ + u128_le(v),
{
    out.push((v & 0xff) as u8);
    out.push(((v >> 8) & 0xff) as u8);
    out.push(((v >> 16) & 0xff) as u8);
    out.push(((v >> 24) & 0xff) as u8);
    out.push(((v >> 32) & 0xff) as u8);
    out.push(((v >> 40) & 0xff) as u8);
    out.push(((v >> 48) & 0xff) as u8);
    out.push(((v >> 56) & 0xff) as u8);
    out.push(((v >> 64) & 0xff) as u8);
    out.push(((v >> 72) & 0xff) as u8);
    out.push(((v >> 80) & 0xff) as u8);
    out.push(((v >> 88) & 0xff) as u8);
    out.push(((v >> 96) & 0xff) as u8);
    out.push(((v >> 104) & 0xff) as u8);
    out.push(((v >> 112) & 0xff) as u8);
    out.push(((v >> 120) & 0xff) as u8);
    assert(out@ =~= old(out)@ + u128_le(v));
}

/// Appends a whole slice of bytes.
pub fn append_slice(out: &mut Vec<u8>, data: &[u8])
    ensures
        final(out)@ == old(out)@ + data@,
{
    let mut i: usize = 0;
    while i < data.len()
        invariant
            i <= data@.len(),
            out@ == old(out)@ + data@.take(i as int),
        decreases data@.len() - i,
    {
        out.push(data[i]);
        i = i + 1;
        assert(out@ =~= old(out)@ + data@.take(i as int));
    }
    assert(data@.take(data@.len() as int) =~= data@);
}

/// Copies the bytes of a slice between two positions into a fresh vector.
pub fn copy_range(data: &[u8], from: usize, to: usize) -> (r: Vec<u8>)
    requires
        from <= to <= data@.len(),
    ensures
        r@ == data@.subrange(from as int, to as int),
{
    let mut r: Vec<u8> = Vec::new();
    let mut i: usize = from;
    while i < to
        invariant
            from <= i <= to <= data@.len(),
            r@ == data@.subrange(from as int, i as int),
        decreases to - i,
    {
        r.push(data[i]);
        i = i + 1;
        assert(r@ =~= data@.subrange(from as int, i as int));
    }
    r
}

/// Overwrites one byte of a vector in place.
pub fn set_byte(out: &mut Vec<u8>, i: usize, v: u8)
    requires
        i < old(out)@.len(),
    ensures
        final(out)@ == old(out)@.update(i as int, v),
{
    out[i] = v;
}

/// Reads a `u16` from two little-endian bytes of a slice.
pub fn read_u16_le(data: &[u8], at: usize) -> (r: u16)
    requires
        at + 2 <= data@.len(),
    ensures
        r == le_u16(data@[at as int], data@[at + 1]),
{
    let b0 = data[at];
    let b1 = data[at + 1];
    (b0 as u16) | ((b1 as u16) << 8)
}

/// Reads a `u32` from four little-endian bytes of a slice.
pub fn read_u32_le(data: &[u8], at: usize) -> (r: u32)
    requires
        at + 4 <= data@.len(),
    ensures
        r == le_u32(data@[at as int], data@[at + 1], data@[at + 2], data@[at + 3]),
{
    let b0 = data[at];
    let b1 = data[at + 1];
    let b2 = data[at + 2];
    let b3 = data[at + 3];
    (b0 as u32) | ((b1 as u32) << 8) | ((b2 as u32) << 16) | ((b3 as u32) << 24)
}

/// Reads a `u64` from eight little-endian bytes of a slice.
pub fn read_u64_le(data: &[u8], at: usize) -> (r: u64)
    requires
        at + 8 <= data@.len(),
    ensures
        r == le_u64(data@.subrange(at as int, at + 8)),
{
    let ghost sub = data@.subrange(at as int, at + 8);
    let mut r: u64 = data[at] as u64;
    r = r | ((data[at + 1] as u64) << 8);
    r = r | ((data[at + 2] as u64) << 16);
    r = r | ((data[at + 3] as u64) << 24);
    r = r | ((data[at + 4] as u64) << 32);
    r = r | ((data[at + 5] as u64) << 40);
    r = r | ((data[at + 6] as u64) << 48);
    r = r | ((data[at + 7] as u64) << 56);
    assert(sub[0] == data@[at as int] && sub[1] == data@[at + 1] && sub[2] == data@[at + 2]
        && sub[3] == data@[at + 3] && sub[4] == data@[at + 4] && sub[5] == data@[at + 5]
        && sub[6] == data@[at + 6] && sub[7] == data@[at + 7]);
    r
}

/// Reads a `u128` from sixteen little-endian bytes of a slice.
pub fn read_u128_le(data: &[u8], at: usize) -> (r: u128)
    requires
        at + 16 <= data@.len(),
    ensures
        r == le_u128(data@.subrange(at as int, at + 16)),
{
    let ghost sub = data@.subrange(at as int, at + 16);
    let mut r: u128 = data[at] as u128;
    r = r | ((data[at + 1] as u128) << 8);
    r = r | ((data[at + 2] as u128) << 16);
    r = r | ((data[at + 3] as u128) << 24);
    r = r | ((data[at + 4] as u128) << 32);
    r = r | ((data[at + 5] as u128) << 40);
    r = r | ((data[at + 6] as u128) << 48);
    r = r | ((data[at + 7] as u128) << 56);
    r = r | ((data[at + 8] as u128) << 64);
    r = r | ((data[at + 9] as u128) << 72);
    r = r | ((data[at + 10] as u128) << 80);
    r = r | ((data[at + 11] as u128) << 88);
    r = r | ((data[at + 12] as u128) << 96);
    r = r | ((data[at + 13] as u128) << 104);
    r = r | ((data[at + 14] as u128) << 112);
    r = r | ((data[at + 15] as u128) << 120);
    assert(sub[0] == data@[at as int] && sub[1] == data@[at + 1] && sub[2] == data@[at + 2]
        && sub[3] == data@[at + 3] && sub[4] == data@[at + 4] && sub[5] == data@[at + 5]
        && sub[6] == data@[at + 6] && sub[7] == data@[at + 7] && sub[8] == data@[at + 8]
        && sub[9] == data@[at + 9] && sub[10] == data@[at + 10] && sub[11] == data@[at + 11]
        && sub[12] == data@[at + 12] && sub[13] == data@[at + 13] && sub[14] == data@[at + 14]
        && sub[15] == data@[at + 15]);
    r
}

} // verus!
