//! Fixed-width integers read from and written to byte buffers, in either
//! byte order.

use vstd::prelude::*;

verus! {

/// The value of two bytes in little-endian order.
pub open spec fn u16_le(b0: u8, b1: u8) -> int {
    b0 + 0x100 * b1
}

/// The value of two bytes in big-endian order.
pub open spec fn u16_be(b0: u8, b1: u8) -> int {
    b1 + 0x100 * b0
}

/// The value of two bytes in the given byte order.
pub open spec fn u16_at(b: Seq<u8>, pos: int, big_endian: bool) -> int {
    if big_endian {
        u16_be(b[pos], b[pos + 1])
    } else {
        u16_le(b[pos], b[pos + 1])
    }
}

/// The value of four bytes in little-endian order.
pub open spec fn u32_le(b0: u8, b1: u8, b2: u8, b3: u8) -> int {
    b0 + 0x100 * b1 + 0x1_0000 * b2 + 0x100_0000 * b3
}

/// The value of four bytes in big-endian order.
pub open spec fn u32_be(b0: u8, b1: u8, b2: u8, b3: u8) -> int {
    b3 + 0x100 * b2 + 0x1_0000 * b1 + 0x100_0000 * b0
}

/// The value of four bytes in the given byte order.
pub open spec fn u32_at(b: Seq<u8>, pos: int, big_endian: bool) -> int {
    if big_endian {
        u32_be(b[pos], b[pos + 1], b[pos + 2], b[pos + 3])
    } else {
        u32_le(b[pos], b[pos + 1], b[pos + 2], b[pos + 3])
    }
}

/// Compares two byte strings for equality.
pub fn bytes_eq(a: &[u8], b: &[u8]) -> (r: bool)
    ensures
        r == (a@ == b@),
{
    if a.len() != b.len() {
        assert(a@.len() != b@.len());
        return false;
    }
    let n: usize = a.len();
    let mut i: usize = 0;
    while i < n
        invariant
            0 <= i <= n,
            n == a@.len() == b@.len(),
            forall|j: int| 0 <= j < i ==> a@[j] == b@[j],
        decreases n - i,
    {
        if a[i] != b[i] {
            return false;
        }
        i += 1;
    }
    assert(a@ =~= b@);
    true
}

/// Compares two byte vectors for equality of contents.
pub fn bytes_eq_vec(a: &Vec<u8>, b: &Vec<u8>) -> (r: bool)
    ensures
        r == (a@ == b@),
{
    bytes_eq(a.as_slice(), b.as_slice())
}

/// Copies `b[lo..hi]` into a fresh vector.
pub fn copy_range(b: &Vec<u8>, lo: usize, hi: usize) -> (r: Vec<u8>)
    requires
        lo <= hi <= b@.len(),
    ensures
        r@ == b@.subrange(lo as int, hi as int),
{
    let s: &[u8] = vstd::slice::slice_subrange(b.as_slice(), lo, hi);
    vstd::slice::slice_to_vec(s)
}

/// Copies a byte vector.
pub fn clone_bytes(v: &Vec<u8>) -> (r: Vec<u8>)
    ensures
        r@ == v@,
{
    vstd::slice::slice_to_vec(v.as_slice())
}

/// Reads a `u16` at `pos` in the given byte order.
pub fn read_u16(b: &Vec<u8>, pos: usize, big_endian: bool) -> (r: u16)
    requires
        pos + 2 <= b@.len(),
    ensures
        r == u16_at(b@, pos as int, big_endian),
{
    let n: usize = b.len();
    assert(n == b@.len());
    let lo: u16 = b[pos] as u16;
    let hi: u16 = b[pos + 1] as u16;
    if big_endian {
        hi + 0x100 * lo
    } else {
        lo + 0x100 * hi
    }
}

/// Reads a `u32` at `pos` in the given byte order.
pub fn read_u32(b: &Vec<u8>, pos: usize, big_endian: bool) -> (r: u32)
    requires
        pos + 4 <= b@.len(),
    ensures
        r == u32_at(b@, pos as int, big_endian),
{
    let n: usize = b.len();
    assert(n == b@.len());
    let b0: u32 = b[pos] as u32;
    let b1: u32 = b[pos + 1] as u32;
    let b2: u32 = b[pos + 2] as u32;
    let b3: u32 = b[pos + 3] as u32;
    if big_endian {
        b3 + 0x100 * b2 + 0x1_0000 * b1 + 0x100_0000 * b0
    } else {
        b0 + 0x100 * b1 + 0x1_0000 * b2 + 0x100_0000 * b3
    }
}

/// The two bytes of a `u16` in the given byte order.
pub open spec fn u16_bytes(v: int, big_endian: bool) -> Seq<u8> {
    let lo = (v % 0x100) as u8;
    let hi = ((v / 0x100) % 0x100) as u8;
    if big_endian {
        seq![hi, lo]
    } else {
        seq![lo, hi]
    }
}

/// The four bytes of a `u32` in the given byte order.
pub open spec fn u32_bytes(v: int, big_endian: bool) -> Seq<u8> {
    let b0 = (v % 0x100) as u8;
    let b1 = ((v / 0x100) % 0x100) as u8;
    let b2 = ((v / 0x1_0000) % 0x100) as u8;
    let b3 = ((v / 0x100_0000) % 0x100) as u8;
    if big_endian {
        seq![b3, b2, b1, b0]
    } else {
        seq![b0, b1, b2, b3]
    }
}

/// Appends a `u16` to `out` in the given byte order.
pub fn write_u16(out: &mut Vec<u8>, v: u16, big_endian: bool)
    ensures
        final(out)@ == old(out)@ + u16_bytes(v as int, big_endian),
{
    let lo: u8 = (v % 0x100) as u8;
    let hi: u8 = (v / 0x100) as u8;
    if big_endian {
        out.push(hi);
        out.push(lo);
    } else {
        out.push(lo);
        out.push(hi);
    }
    assert(final(out)@ =~= old(out)@ + u16_bytes(v as int, big_endian));
}

/// Appends a `u32` to `out` in the given byte order.
pub fn write_u32(out: &mut Vec<u8>, v: u32, big_endian: bool)
    ensures
        final(out)@ == old(out)@ + u32_bytes(v as int, big_endian),
{
    let b0: u8 = (v % 0x100) as u8;
    let b1: u8 = ((v / 0x100) % 0x100) as u8;
    let b2: u8 = ((v / 0x1_0000) % 0x100) as u8;
    let b3: u8 = (v / 0x100_0000) as u8;
    if big_endian {
        out.push(b3);
        out.push(b2);
        out.push(b1);
        out.push(b0);
    } else {
        out.push(b0);
        out.push(b1);
        out.push(b2);
        out.push(b3);
    }
    assert(final(out)@ =~= old(out)@ + u32_bytes(v as int, big_endian));
}

/// Re-encoding the value read at `pos` reproduces the two bytes it was
/// read from.
pub proof fn lemma_u16_bytes_extract(b: Seq<u8>, pos: int, big_endian: bool)
    requires
        0 <= pos,
        pos + 2 <= b.len(),
    ensures
        u16_bytes(u16_at(b, pos, big_endian), big_endian) == b.subrange(pos, pos + 2),
{
    let v = u16_at(b, pos, big_endian);
    assert(v % 0x100 == (if big_endian {
        b[pos + 1]
    } else {
        b[pos]
    }) && (v / 0x100) % 0x100 == (if big_endian {
        b[pos]
    } else {
        b[pos + 1]
    })) by (nonlinear_arith)
        requires
            v == (if big_endian {
                b[pos + 1] + 0x100 * b[pos]
            } else {
                b[pos] + 0x100 * b[pos + 1]
            }),
            0 <= b[pos] < 0x100,
            0 <= b[pos + 1] < 0x100,
    ;
    assert(u16_bytes(v, big_endian) =~= b.subrange(pos, pos + 2));
}

/// Re-encoding the value read at `pos` reproduces the four bytes it was
/// read from.
pub proof fn lemma_u32_bytes_extract(b: Seq<u8>, pos: int, big_endian: bool)
    requires
        0 <= pos,
        pos + 4 <= b.len(),
    ensures
        u32_bytes(u32_at(b, pos, big_endian), big_endian) == b.subrange(pos, pos + 4),
{
    let b0 = if big_endian {
        b[pos + 3]
    } else {
        b[pos]
    };
    let b1 = if big_endian {
        b[pos + 2]
    } else {
        b[pos + 1]
    };
    let b2 = if big_endian {
        b[pos + 1]
    } else {
        b[pos + 2]
    };
    let b3 = if big_endian {
        b[pos]
    } else {
        b[pos + 3]
    };
    let v = u32_at(b, pos, big_endian);
    assert(v % 0x100 == b0 && (v / 0x100) % 0x100 == b1 && (v / 0x1_0000) % 0x100 == b2 && (v
        / 0x100_0000) % 0x100 == b3) by (nonlinear_arith)
        requires
            v == b0 + 0x100 * b1 + 0x1_0000 * b2 + 0x100_0000 * b3,
            0 <= b0 < 0x100,
            0 <= b1 < 0x100,
            0 <= b2 < 0x100,
            0 <= b3 < 0x100,
    ;
    assert(u32_bytes(v, big_endian) =~= b.subrange(pos, pos + 4));
}

/// Splitting a 32-bit tag into its group and element halves.
pub proof fn lemma_tag_split(g: int, e: int)
    requires
        0 <= g < 0x1_0000,
        0 <= e < 0x1_0000,
    ensures
        (g * 0x1_0000 + e) / 0x1_0000 == g,
        (g * 0x1_0000 + e) % 0x1_0000 == e,
{
    assert((g * 0x1_0000 + e) / 0x1_0000 == g && (g * 0x1_0000 + e) % 0x1_0000 == e)
        by (nonlinear_arith)
        requires
            0 <= g < 0x1_0000,
            0 <= e < 0x1_0000,
    ;
}

/// Splitting a two-byte value into its high and low bytes.
pub proof fn lemma_byte_pair_split(hi: int, lo: int)
    requires
        0 <= hi < 0x100,
        0 <= lo < 0x100,
    ensures
        (hi * 0x100 + lo) / 0x100 == hi,
        (hi * 0x100 + lo) % 0x100 == lo,
{
    assert((hi * 0x100 + lo) / 0x100 == hi && (hi * 0x100 + lo) % 0x100 == lo)
        by (nonlinear_arith)
        requires
            0 <= hi < 0x100,
            0 <= lo < 0x100,
    ;
}

/// Reading two bytes recovers the value that was written.
pub proof fn lemma_u16_round_trip(v: int, big_endian: bool)
    requires
        0 <= v < 0x1_0000,
    ensures
        u16_at(u16_bytes(v, big_endian), 0, big_endian) == v,
{
}

/// Reading four bytes recovers the value that was written.
pub proof fn lemma_u32_round_trip(v: int, big_endian: bool)
    requires
        0 <= v < 0x1_0000_0000,
    ensures
        u32_at(u32_bytes(v, big_endian), 0, big_endian) == v,
{
    assert((v % 0x100) + 0x100 * ((v / 0x100) % 0x100) + 0x1_0000 * ((v / 0x1_0000) % 0x100)
        + 0x100_0000 * ((v / 0x100_0000) % 0x100) == v) by (nonlinear_arith)
        requires
            0 <= v < 0x1_0000_0000,
    ;
}

} // verus!
