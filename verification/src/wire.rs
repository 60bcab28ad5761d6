//! Byte-level helpers of the wire codec.
//!
//! Every multi-byte integer of the protocol registry is spelled big-endian
//! (network order). The spec functions here define the layout; the
//! executable functions are proved against them.

use vstd::prelude::*;

verus! {

/// Big-endian bytes of a 16-bit integer.
pub open spec fn be16(x: u16) -> Seq<u8> {
    seq![(x >> 8) as u8, x as u8]
}

/// Big-endian bytes of a 32-bit integer.
pub open spec fn be32(x: u32) -> Seq<u8> {
    seq![(x >> 24) as u8, (x >> 16) as u8, (x >> 8) as u8, x as u8]
}

/// The 16-bit integer whose big-endian bytes are `b0 b1`.
pub open spec fn u16_of(b0: u8, b1: u8) -> u16 {
    ((b0 as u16) << 8) | (b1 as u16)
}

/// The 32-bit integer whose big-endian bytes are `b0 b1 b2 b3`.
pub open spec fn u32_of(b0: u8, b1: u8, b2: u8, b3: u8) -> u32 {
    ((b0 as u32) << 24) | ((b1 as u32) << 16) | ((b2 as u32) << 8) | (b3 as u32)
}

/// The 16-bit integer spelled big-endian at position `i` of `b`.
pub open spec fn u16_at(b: Seq<u8>, i: int) -> u16 {
    u16_of(b[i], b[i + 1])
}

/// The 32-bit integer spelled big-endian at position `i` of `b`.
pub open spec fn u32_at(b: Seq<u8>, i: int) -> u32 {
    u32_of(b[i], b[i + 1], b[i + 2], b[i + 3])
}

/// Reading back the two bytes of `be16(x)` yields `x`.
pub proof fn lemma_be16_value(x: u16)
    ensures
        u16_at(be16(x), 0) == x,
{
    assert(((((x >> 8) as u8) as u16) << 8) | ((x as u8) as u16) == x) by (bit_vector);
}

/// Reading back the four bytes of `be32(x)` yields `x`.
pub proof fn lemma_be32_value(x: u32)
    ensures
        u32_at(be32(x), 0) == x,
{
    assert(((((x >> 24) as u8) as u32) << 24) | ((((x >> 16) as u8) as u32) << 16) | ((((x
        >> 8) as u8) as u32) << 8) | (((x as u8) as u32)) == x) by (bit_vector);
}

/// Append the big-endian bytes of `x` to `out`.
pub fn put_u16(out: &mut Vec<u8>, x: u16)
    ensures
        final(out)@ == old(out)@ + be16(x),
{
    let hi: u8 = (x >> 8) as u8;
    let lo: u8 = x as u8;
    out.push(hi);
    out.push(lo);
    assert(final(out)@ =~= old(out)@ + be16(x));
}

/// Append the big-endian bytes of `x` to `out`.
pub fn put_u32(out: &mut Vec<u8>, x: u32)
    ensures
        final(out)@ == old(out)@ + be32(x),
{
    out.push((x >> 24) as u8);
    out.push((x >> 16) as u8);
    out.push((x >> 8) as u8);
    out.push(x as u8);
    assert(final(out)@ =~= old(out)@ + be32(x));
}

/// Append all of `b` to `out`.
pub fn put_bytes(out: &mut Vec<u8>, b: &[u8])
    ensures
        final(out)@ == old(out)@ + b@,
{
    let n: usize = b.len();
    let mut k: usize = 0;
    while k < n
        invariant
            k <= n,
            n == b@.len(),
            out@ == old(out)@ + b@.take(k as int),
        decreases n - k,
    {
        let byte: u8 = *vstd::slice::slice_index_get(b, k);
        out.push(byte);
        assert(out@ =~= old(out)@ + b@.take((k + 1) as int));
        k = k + 1;
    }
    assert(b@.take(n as int) =~= b@);
}

/// Read the 16-bit integer spelled big-endian at position `i` of `b`.
pub fn read_u16(b: &[u8], i: usize) -> (r: u16)
    requires
        i + 2 <= b@.len(),
    ensures
        r == u16_at(b@, i as int),
{
    let n: usize = b.len();
    let b0: u8 = *vstd::slice::slice_index_get(b, i);
    let b1: u8 = *vstd::slice::slice_index_get(b, i + 1);
    ((b0 as u16) << 8) | (b1 as u16)
}

/// Read the 32-bit integer spelled big-endian at position `i` of `b`.
pub fn read_u32(b: &[u8], i: usize) -> (r: u32)
    requires
        i + 4 <= b@.len(),
    ensures
        r == u32_at(b@, i as int),
{
    let n: usize = b.len();
    let b0: u8 = *vstd::slice::slice_index_get(b, i);
    let b1: u8 = *vstd::slice::slice_index_get(b, i + 1);
    let b2: u8 = *vstd::slice::slice_index_get(b, i + 2);
    let b3: u8 = *vstd::slice::slice_index_get(b, i + 3);
    ((b0 as u32) << 24) | ((b1 as u32) << 16) | ((b2 as u32) << 8) | (b3 as u32)
}

/// Copy `b[from..to]` into a fresh vector.
pub fn sub_to_vec(b: &[u8], from: usize, to: usize) -> (r: Vec<u8>)
    requires
        from <= to <= b@.len(),
    ensures
        r@ == b@.subrange(from as int, to as int),
{
    let mut out: Vec<u8> = Vec::new();
    let mut k: usize = from;
    while k < to
        invariant
            from <= k <= to <= b@.len(),
            out@ == b@.subrange(from as int, k as int),
        decreases to - k,
    {
        let byte: u8 = *vstd::slice::slice_index_get(b, k);
        out.push(byte);
        assert(out@ =~= b@.subrange(from as int, (k + 1) as int));
        k = k + 1;
    }
    out
}

/// Two reserved zero bytes.
pub open spec fn reserved2() -> Seq<u8> {
    seq![0u8, 0u8]
}

/// Three reserved zero bytes.
pub open spec fn reserved3() -> Seq<u8> {
    seq![0u8, 0u8, 0u8]
}

/// Four reserved zero bytes.
pub open spec fn reserved4() -> Seq<u8> {
    seq![0u8, 0u8, 0u8, 0u8]
}

/// The flag byte whose bit 0 carries `flag`; the other bits stay clear.
pub open spec fn flag_byte(flag: bool) -> u8 {
    if flag {
        1u8
    } else {
        0u8
    }
}

/// Bit 0 of the flag byte carries exactly the flag it was built from.
pub proof fn lemma_flag_bit(flag: bool)
    ensures
        spec_bit0(flag_byte(flag)) == flag,
{
    assert((1u8 & 1) == 1) by (bit_vector);
    assert((0u8 & 1) == 0) by (bit_vector);
}

/// True when bit 0 (the least significant bit) of `x` is set.
pub open spec fn spec_bit0(x: u8) -> bool {
    x & 1 == 1
}

/// Test bit 0 of a flag byte.
pub fn bit0(x: u8) -> (r: bool)
    ensures
        r == spec_bit0(x),
{
    x & 1 == 1
}

} // verus!
