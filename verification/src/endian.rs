//! Big-endian byte serialization of the integer fields, and the small
//! buffer-writing helpers the encoder is built from.

use vstd::prelude::*;

verus! {

/// The two big-endian bytes of a 16-bit unsigned integer.
pub open spec fn be16(v: u16) -> Seq<u8> {
    seq![(v >> 8) as u8, v as u8]
}

/// The four big-endian bytes of a 32-bit unsigned integer.
pub open spec fn be32(v: u32) -> Seq<u8> {
    seq![(v >> 24) as u8, (v >> 16) as u8, (v >> 8) as u8, v as u8]
}

/// The two's-complement 16-bit pattern of a signed 16-bit tag.
pub open spec fn tag_bits(t: i16) -> u16 {
    if t >= 0 {
        t as u16
    } else {
        (t + 0x10000) as u16
    }
}

/// The two big-endian bytes of a signed 16-bit integer, two's complement.
pub open spec fn bei16(t: i16) -> Seq<u8> {
    be16(tag_bits(t))
}

/// `n` zero bytes.
pub open spec fn zero_bytes(n: nat) -> Seq<u8> {
    Seq::new(n, |i: int| 0u8)
}

/// Appends the two big-endian bytes of `v` to `buf`.
pub fn push_be16(buf: &mut Vec<u8>, v: u16)
    ensures
        final(buf)@ == old(buf)@ + be16(v),
{
    buf.push((v >> 8) as u8);
    buf.push(v as u8);
    assert(buf@ =~= old(buf)@ + be16(v));
}

/// Appends the four big-endian bytes of `v` to `buf`.
pub fn push_be32(buf: &mut Vec<u8>, v: u32)
    ensures
        final(buf)@ == old(buf)@ + be32(v),
{
    buf.push((v >> 24) as u8);
    buf.push((v >> 16) as u8);
    buf.push((v >> 8) as u8);
    buf.push(v as u8);
    assert(buf@ =~= old(buf)@ + be32(v));
}

/// Appends the two big-endian two's-complement bytes of `t` to `buf`.
pub fn push_bei16(buf: &mut Vec<u8>, t: i16)
    ensures
        final(buf)@ == old(buf)@ + bei16(t),
{
    let bits: u16 = if t >= 0 {
        t as u16
    } else {
        ((t as i32) + 0x10000) as u16
    };
    assert(bits == tag_bits(t));
    push_be16(buf, bits);
}

/// Appends all of `data` to `buf`.
pub fn push_bytes(buf: &mut Vec<u8>, data: &Vec<u8>)
    ensures
        final(buf)@ == old(buf)@ + data@,
{
    let mut i: usize = 0;
    while i < data.len()
        invariant
            i <= data@.len(),
            buf@ == old(buf)@ + data@.take(i as int),
        decreases data@.len() - i,
    {
        buf.push(data[i]);
        assert(buf@ =~= old(buf)@ + data@.take(i as int + 1));
        i = i + 1;
    }
    assert(data@.take(data@.len() as int) =~= data@);
}

/// Appends `n` zero bytes to `buf`.
pub fn push_zeros(buf: &mut Vec<u8>, n: usize)
    ensures
        final(buf)@ == old(buf)@ + zero_bytes(n as nat),
{
    let mut i: usize = 0;
    while i < n
        invariant
            i <= n,
            buf@ == old(buf)@ + zero_bytes(i as nat),
        decreases n - i,
    {
        buf.push(0);
        assert(buf@ =~= old(buf)@ + zero_bytes((i + 1) as nat));
        i = i + 1;
    }
}

} // verus!
