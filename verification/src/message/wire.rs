//! The primitive encodings of the wire format: byte order, 32-bit integers
//! and zero padding.

use vstd::prelude::*;

verus! {

/// D-Bus code for endianness.
#[derive(Debug, Copy, Clone, PartialEq, Eq, Structural)]
pub enum EndianSig {
    /// The D-Bus message is in big-endian (network) byte order.
    Big,
    /// The D-Bus message is in little-endian byte order.
    Little,
}

/// The four bytes that encode `v` in the given byte order.
pub open spec fn spec_u32_bytes(v: u32, endian: EndianSig) -> Seq<u8> {
    let b0 = (v % 256) as u8;
    let b1 = (v / 256 % 256) as u8;
    let b2 = (v / 256 / 256 % 256) as u8;
    let b3 = (v / 256 / 256 / 256) as u8;
    match endian {
        EndianSig::Little => seq![b0, b1, b2, b3],
        EndianSig::Big => seq![b3, b2, b1, b0],
    }
}

/// The 32-bit integer that the four bytes at `at` encode in the given byte
/// order.
pub open spec fn spec_u32_at(buf: Seq<u8>, at: int, endian: EndianSig) -> u32
    recommends
        0 <= at,
        at + 4 <= buf.len(),
{
    match endian {
        EndianSig::Little => (buf[at] + buf[at + 1] * 256 + buf[at + 2] * 65536 + buf[at + 3]
            * 16777216) as u32,
        EndianSig::Big => (buf[at + 3] + buf[at + 2] * 256 + buf[at + 1] * 65536 + buf[at]
            * 16777216) as u32,
    }
}

/// `n` zero bytes.
pub open spec fn spec_zeros(n: int) -> Seq<u8> {
    Seq::new(n as nat, |i: int| 0u8)
}

/// Every byte of `buf` from `from` up to `to` is zero.
pub open spec fn spec_all_zero(buf: Seq<u8>, from: int, to: int) -> bool {
    forall|i: int| from <= i < to ==> #[trigger] buf[i] == 0
}

/// Reading back what was written gives the number that was written.
pub proof fn lemma_u32_round_trip(v: u32, endian: EndianSig)
    ensures
        spec_u32_bytes(v, endian).len() == 4,
        spec_u32_at(spec_u32_bytes(v, endian), 0, endian) == v,
{
    let q1 = v / 256;
    let q2 = q1 / 256;
    let q3 = q2 / 256;
    assert(v == 256 * q1 + v % 256);
    assert(q1 == 256 * q2 + q1 % 256);
    assert(q2 == 256 * q3 + q2 % 256);
    assert(q3 < 256);
}

/// A read depends only on the four bytes it covers.
pub proof fn lemma_u32_at_within(buf: Seq<u8>, at: int, v: u32, endian: EndianSig)
    requires
        0 <= at,
        at + 4 <= buf.len(),
        buf.subrange(at, at + 4) == spec_u32_bytes(v, endian),
    ensures
        spec_u32_at(buf, at, endian) == v,
{
    let part = buf.subrange(at, at + 4);
    assert(part[0] == buf[at] && part[1] == buf[at + 1] && part[2] == buf[at + 2] && part[3]
        == buf[at + 3]);
    lemma_u32_round_trip(v, endian);
}

/// Appends the four bytes of `v` in the given byte order.
pub fn write_u32(out: &mut Vec<u8>, v: u32, endian: EndianSig)
    ensures
        final(out)@ == old(out)@ + spec_u32_bytes(v, endian),
{
    let b0: u8 = (v % 256) as u8;
    let b1: u8 = (v / 256 % 256) as u8;
    let b2: u8 = (v / 256 / 256 % 256) as u8;
    let b3: u8 = (v / 256 / 256 / 256) as u8;
    match endian {
        EndianSig::Little => {
            out.push(b0);
            out.push(b1);
            out.push(b2);
            out.push(b3);
        },
        EndianSig::Big => {
            out.push(b3);
            out.push(b2);
            out.push(b1);
            out.push(b0);
        },
    }
    assert(out@ =~= old(out)@ + spec_u32_bytes(v, endian));
}

/// Reads the 32-bit integer at `at` in the given byte order.
pub fn read_u32(buf: &[u8], at: usize, endian: EndianSig) -> (v: u32)
    requires
        at + 4 <= buf.len(),
    ensures
        v == spec_u32_at(buf@, at as int, endian),
{
    let a: u32 = buf[at] as u32;
    let b: u32 = buf[at + 1] as u32;
    let c: u32 = buf[at + 2] as u32;
    let d: u32 = buf[at + 3] as u32;
    match endian {
        EndianSig::Little => a + b * 256 + c * 65536 + d * 16777216,
        EndianSig::Big => d + c * 256 + b * 65536 + a * 16777216,
    }
}

/// Appends `n` zero bytes.
pub fn write_zeros(out: &mut Vec<u8>, n: usize)
    ensures
        final(out)@ == old(out)@ + spec_zeros(n as int),
{
    let mut i: usize = 0;
    while i < n
        invariant
            i <= n,
            out@ == old(out)@ + spec_zeros(i as int),
        decreases n - i,
    {
        out.push(0u8);
        i = i + 1;
        assert(out@ =~= old(out)@ + spec_zeros(i as int));
    }
}

/// Whether every byte from `from` up to `to` is zero.
pub fn all_zero(buf: &[u8], from: usize, to: usize) -> (ok: bool)
    requires
        from <= to <= buf.len(),
    ensures
        ok == spec_all_zero(buf@, from as int, to as int),
{
    let mut i: usize = from;
    while i < to
        invariant
            from <= i <= to <= buf.len(),
            spec_all_zero(buf@, from as int, i as int),
        decreases to - i,
    {
        if buf[i] != 0 {
            return false;
        }
        i = i + 1;
    }
    true
}

} // verus!
