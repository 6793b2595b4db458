//! Wire-level primitives: 4-byte alignment padding and fixed-width
//! little-endian encoding and decoding of integers in byte buffers.
//!
//! All multi-byte integers on the wire are little-endian, matching the
//! byte-order marker this client sends in its connection request.

use vstd::prelude::*;

verus! {

/// Bytes needed to round `len` up to a multiple of 4.
pub open spec fn spec_pad(len: int) -> int {
    (4 - (len % 4)) % 4
}

/// Padding after a variable-length field: the protocol requires every
/// request and every variable trailer to end on a 4-byte boundary.
pub fn pad(len: usize) -> (r: usize)
    ensures
        r == spec_pad(len as int),
        (len + r) % 4 == 0,
        r < 4,
{
    (4 - (len % 4)) % 4
}

/// The two little-endian bytes of a 16-bit value, low byte first.
pub open spec fn le2(x: u16) -> Seq<u8> {
    seq![(x % 0x100) as u8, (x / 0x100) as u8]
}

/// The four little-endian bytes of a 32-bit value, low byte first.
pub open spec fn le4(x: u32) -> Seq<u8> {
    seq![
        (x % 0x100) as u8,
        ((x / 0x100) % 0x100) as u8,
        ((x / 0x10000) % 0x100) as u8,
        (x / 0x1000000) as u8,
    ]
}

/// The 16-bit value stored little-endian at offset `i` of `s`.
pub open spec fn u16_at(s: Seq<u8>, i: int) -> u16
    recommends
        0 <= i,
        i + 2 <= s.len(),
{
    (s[i] + s[i + 1] * 0x100) as u16
}

/// The 32-bit value stored little-endian at offset `i` of `s`.
pub open spec fn u32_at(s: Seq<u8>, i: int) -> u32
    recommends
        0 <= i,
        i + 4 <= s.len(),
{
    (s[i] + s[i + 1] * 0x100 + s[i + 2] * 0x10000 + s[i + 3] * 0x1000000) as u32
}

/// Decoding the two little-endian bytes of a value gives the value back.
pub proof fn lemma_le2_round_trip(x: u16)
    ensures
        u16_at(le2(x), 0) == x,
{
    assert(x % 0x100 + (x / 0x100) * 0x100 == x) by (bit_vector);
}

/// Decoding the four little-endian bytes of a value gives the value back.
pub proof fn lemma_le4_round_trip(x: u32)
    ensures
        u32_at(le4(x), 0) == x,
{
    assert(x % 0x100 + ((x / 0x100) % 0x100) * 0x100 + ((x / 0x10000) % 0x100) * 0x10000 + (x
        / 0x1000000) * 0x1000000 == x) by (bit_vector);
}

/// Appends one byte.
pub fn put_u8(buf: &mut Vec<u8>, x: u8)
    ensures
        final(buf)@ == old(buf)@.push(x),
{
    buf.push(x);
}

/// Appends a 16-bit value as two little-endian bytes.
pub fn put_u16_le(buf: &mut Vec<u8>, x: u16)
    ensures
        final(buf)@ == old(buf)@ + le2(x),
{
    buf.push((x % 0x100) as u8);
    buf.push((x / 0x100) as u8);
    assert(buf@ =~= old(buf)@ + le2(x));
}

/// Appends a signed 16-bit value as two little-endian bytes of its
/// two's-complement representation.
pub fn put_i16_le(buf: &mut Vec<u8>, x: i16)
    ensures
        final(buf)@ == old(buf)@ + le2(x as u16),
{
    put_u16_le(buf, x as u16);
}

/// Appends a 32-bit value as four little-endian bytes.
pub fn put_u32_le(buf: &mut Vec<u8>, x: u32)
    ensures
        final(buf)@ == old(buf)@ + le4(x),
{
    buf.push((x % 0x100) as u8);
    buf.push(((x / 0x100) % 0x100) as u8);
    buf.push(((x / 0x10000) % 0x100) as u8);
    buf.push((x / 0x1000000) as u8);
    assert(buf@ =~= old(buf)@ + le4(x));
}

/// Appends `n` zero bytes; used for alignment padding.
pub fn put_zeros(buf: &mut Vec<u8>, n: usize)
    ensures
        final(buf)@ == old(buf)@ + zeros(n as int),
{
    let mut i: usize = 0;
    while i < n
        invariant
            i <= n,
            buf@ == old(buf)@ + zeros(i as int),
        decreases n - i,
    {
        buf.push(0);
        assert(buf@ =~= old(buf)@ + zeros(i + 1));
        i = i + 1;
    }
}

/// A run of `n` zero bytes.
pub open spec fn zeros(n: int) -> Seq<u8>
    recommends
        0 <= n,
{
    Seq::new(n as nat, |i: int| 0u8)
}

/// Appends every byte of `data`.
pub fn put_bytes(buf: &mut Vec<u8>, data: &[u8])
    ensures
        final(buf)@ == old(buf)@ + data@,
{
    let mut i: usize = 0;
    while i < data.len()
        invariant
            i <= data@.len(),
            buf@ == old(buf)@ + data@.subrange(0, i as int),
        decreases data@.len() - i,
    {
        buf.push(data[i]);
        assert(buf@ =~= old(buf)@ + data@.subrange(0, i + 1));
        i = i + 1;
    }
    assert(buf@ =~= old(buf)@ + data@);
}

/// Reads the byte at offset `i`.
pub fn read_u8(buf: &[u8], i: usize) -> (r: u8)
    requires
        i < buf@.len(),
    ensures
        r == buf@[i as int],
{
    buf[i]
}

/// Reads the 16-bit little-endian value at offset `i`.
pub fn read_u16_le(buf: &[u8], i: usize) -> (r: u16)
    requires
        i + 2 <= buf@.len(),
    ensures
        r == u16_at(buf@, i as int),
{
    buf[i] as u16 + (buf[i + 1] as u16) * 0x100
}

/// Reads the 32-bit little-endian value at offset `i`.
pub fn read_u32_le(buf: &[u8], i: usize) -> (r: u32)
    requires
        i + 4 <= buf@.len(),
    ensures
        r == u32_at(buf@, i as int),
{
    buf[i] as u32 + (buf[i + 1] as u32) * 0x100 + (buf[i + 2] as u32) * 0x10000 + (buf[i + 3]
        as u32) * 0x1000000
}

/// Copies `buf[start .. start + len]` into a fresh vector.
pub fn copy_range(buf: &[u8], start: usize, len: usize) -> (r: Vec<u8>)
    requires
        start + len <= buf@.len(),
    ensures
        r@ == buf@.subrange(start as int, start as int + len as int),
{
    let n: usize = buf.len();
    assert(start + len <= n);
    let sub = vstd::slice::slice_subrange(buf, start, start + len);
    vstd::slice::slice_to_vec(sub)
}

} // verus!
