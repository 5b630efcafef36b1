//! Big-endian integer encoding and fixed-width byte reads used by the wire
//! format and by offer identities.
use vstd::prelude::*;

verus! {

/// Big-endian encoding of a `u32`.
pub open spec fn be32(x: u32) -> Seq<u8> {
    seq![
        ((x >> 24u32) & 0xffu32) as u8,
        ((x >> 16u32) & 0xffu32) as u8,
        ((x >> 8u32) & 0xffu32) as u8,
        (x & 0xffu32) as u8,
    ]
}

/// Big-endian encoding of a `u64`.
pub open spec fn be64(x: u64) -> Seq<u8> {
    seq![
        ((x >> 56u64) & 0xffu64) as u8,
        ((x >> 48u64) & 0xffu64) as u8,
        ((x >> 40u64) & 0xffu64) as u8,
        ((x >> 32u64) & 0xffu64) as u8,
        ((x >> 24u64) & 0xffu64) as u8,
        ((x >> 16u64) & 0xffu64) as u8,
        ((x >> 8u64) & 0xffu64) as u8,
        (x & 0xffu64) as u8,
    ]
}

/// The `u32` whose big-endian encoding is `s[0..4]`.
pub open spec fn from_be32(s: Seq<u8>) -> u32 {
    ((s[0] as u32) << 24u32) | ((s[1] as u32) << 16u32) | ((s[2] as u32) << 8u32) | (s[3] as u32)
}

/// The `u64` whose big-endian encoding is `s[0..8]`.
pub open spec fn from_be64(s: Seq<u8>) -> u64 {
    ((s[0] as u64) << 56u64) | ((s[1] as u64) << 48u64) | ((s[2] as u64) << 40u64) | ((s[3] as u64)
        << 32u64) | ((s[4] as u64) << 24u64) | ((s[5] as u64) << 16u64) | ((s[6] as u64) << 8u64)
        | (s[7] as u64)
}

pub proof fn lemma_be32_round_trip(x: u32)
    ensures
        from_be32(be32(x)) == x,
{
    let s = be32(x);
    assert(s[0] == ((x >> 24u32) & 0xffu32) as u8);
    assert(s[3] == (x & 0xffu32) as u8);
    assert((((((x >> 24u32) & 0xffu32) as u8) as u32) << 24u32) | (((((x >> 16u32) & 0xffu32)
        as u8) as u32) << 16u32) | (((((x >> 8u32) & 0xffu32) as u8) as u32) << 8u32) | (((x
        & 0xffu32) as u8) as u32) == x) by (bit_vector);
}

pub proof fn lemma_be64_round_trip(x: u64)
    ensures
        from_be64(be64(x)) == x,
{
    let s = be64(x);
    assert(s[0] == ((x >> 56u64) & 0xffu64) as u8);
    assert(s[7] == (x & 0xffu64) as u8);
    assert((((((x >> 56u64) & 0xffu64) as u8) as u64) << 56u64) | (((((x >> 48u64) & 0xffu64)
        as u8) as u64) << 48u64) | (((((x >> 40u64) & 0xffu64) as u8) as u64) << 40u64) | (((((x
        >> 32u64) & 0xffu64) as u8) as u64) << 32u64) | (((((x >> 24u64) & 0xffu64) as u8) as u64)
        << 24u64) | (((((x >> 16u64) & 0xffu64) as u8) as u64) << 16u64) | (((((x >> 8u64)
        & 0xffu64) as u8) as u64) << 8u64) | (((x & 0xffu64) as u8) as u64) == x) by (bit_vector);
}

pub proof fn lemma_be32_bytes_round_trip(s: Seq<u8>)
    requires
        s.len() == 4,
    ensures
        be32(from_be32(s)) == s,
{
    let (b0, b1, b2, b3) = (s[0], s[1], s[2], s[3]);
    let x = from_be32(s);
    assert(((x >> 24u32) & 0xffu32) as u8 == b0 && ((x >> 16u32) & 0xffu32) as u8 == b1 && ((x
        >> 8u32) & 0xffu32) as u8 == b2 && (x & 0xffu32) as u8 == b3) by (bit_vector)
        requires
            x == ((b0 as u32) << 24u32) | ((b1 as u32) << 16u32) | ((b2 as u32) << 8u32) | (b3 as u32),
    ;
    assert(be32(x) =~= s);
}

pub proof fn lemma_be64_bytes_round_trip(s: Seq<u8>)
    requires
        s.len() == 8,
    ensures
        be64(from_be64(s)) == s,
{
    let (b0, b1, b2, b3, b4, b5, b6, b7) = (s[0], s[1], s[2], s[3], s[4], s[5], s[6], s[7]);
    let x = from_be64(s);
    assert(((x >> 56u64) & 0xffu64) as u8 == b0 && ((x >> 48u64) & 0xffu64) as u8 == b1 && ((x
        >> 40u64) & 0xffu64) as u8 == b2 && ((x >> 32u64) & 0xffu64) as u8 == b3 && ((x >> 24u64)
        & 0xffu64) as u8 == b4 && ((x >> 16u64) & 0xffu64) as u8 == b5 && ((x >> 8u64) & 0xffu64)
        as u8 == b6 && (x & 0xffu64) as u8 == b7) by (bit_vector)
        requires
            x == ((b0 as u64) << 56u64) | ((b1 as u64) << 48u64) | ((b2 as u64) << 40u64) | ((b3
                as u64) << 32u64) | ((b4 as u64) << 24u64) | ((b5 as u64) << 16u64) | ((b6 as u64)
                << 8u64) | (b7 as u64),
    ;
    assert(be64(x) =~= s);
}

/// Appends the big-endian encoding of `x`.
pub fn push_be32(v: &mut Vec<u8>, x: u32)
    ensures
        final(v)@ == old(v)@ + be32(x),
{
    v.push(((x >> 24u32) & 0xffu32) as u8);
    v.push(((x >> 16u32) & 0xffu32) as u8);
    v.push(((x >> 8u32) & 0xffu32) as u8);
    v.push((x & 0xffu32) as u8);
    assert(v@ =~= old(v)@ + be32(x));
}

/// Appends the big-endian encoding of `x`.
pub fn push_be64(v: &mut Vec<u8>, x: u64)
    ensures
        final(v)@ == old(v)@ + be64(x),
{
    v.push(((x >> 56u64) & 0xffu64) as u8);
    v.push(((x >> 48u64) & 0xffu64) as u8);
    v.push(((x >> 40u64) & 0xffu64) as u8);
    v.push(((x >> 32u64) & 0xffu64) as u8);
    v.push(((x >> 24u64) & 0xffu64) as u8);
    v.push(((x >> 16u64) & 0xffu64) as u8);
    v.push(((x >> 8u64) & 0xffu64) as u8);
    v.push((x & 0xffu64) as u8);
    assert(v@ =~= old(v)@ + be64(x));
}

/// Appends the 32 bytes of `a`.
pub fn push_bytes32(v: &mut Vec<u8>, a: &[u8; 32])
    ensures
        final(v)@ == old(v)@ + a@,
{
    let ghost start = v@;
    let mut i: usize = 0;
    while i < 32
        invariant
            0 <= i <= 32,
            a@.len() == 32,
            v@ == start + a@.subrange(0, i as int),
        decreases 32 - i,
    {
        v.push(a[i]);
        i = i + 1;
        assert(v@ =~= start + a@.subrange(0, i as int));
    }
    assert(a@.subrange(0, 32) =~= a@);
}

/// Reads the big-endian `u32` at `m[start..start + 4]`.
pub fn read_be32(m: &[u8], start: usize) -> (r: u32)
    requires
        start + 4 <= m@.len(),
    ensures
        r == from_be32(m@.subrange(start as int, start + 4)),
{
    ((m[start] as u32) << 24u32) | ((m[start + 1] as u32) << 16u32) | ((m[start + 2] as u32)
        << 8u32) | (m[start + 3] as u32)
}

/// Reads the big-endian `u64` at `m[start..start + 8]`.
pub fn read_be64(m: &[u8], start: usize) -> (r: u64)
    requires
        start + 8 <= m@.len(),
    ensures
        r == from_be64(m@.subrange(start as int, start + 8)),
{
    ((m[start] as u64) << 56u64) | ((m[start + 1] as u64) << 48u64) | ((m[start + 2] as u64)
        << 40u64) | ((m[start + 3] as u64) << 32u64) | ((m[start + 4] as u64) << 24u64) | ((m[start
        + 5] as u64) << 16u64) | ((m[start + 6] as u64) << 8u64) | (m[start + 7] as u64)
}

/// Copies the 32 bytes at `m[start..start + 32]`.
pub fn read_bytes32(m: &[u8], start: usize) -> (r: [u8; 32])
    requires
        start + 32 <= m@.len(),
    ensures
        r@ == m@.subrange(start as int, start + 32),
{
    let n = m.len();
    let mut r = [0u8; 32];
    let mut i: usize = 0;
    while i < 32
        invariant
            0 <= i <= 32,
            start + 32 <= m@.len(),
            n == m@.len(),
            r@.len() == 32,
            forall|j: int| 0 <= j < i ==> r@[j] == m@[start + j],
        decreases 32 - i,
    {
        r[i] = m[start + i];
        i = i + 1;
    }
    assert(r@ =~= m@.subrange(start as int, start + 32));
    r
}

/// Whether two 32-byte values are equal.
pub fn bytes32_eq(a: &[u8; 32], b: &[u8; 32]) -> (r: bool)
    ensures
        r == (a@ == b@),
{
    let mut i: usize = 0;
    while i < 32
        invariant
            0 <= i <= 32,
            a@.len() == 32,
            b@.len() == 32,
            forall|j: int| 0 <= j < i ==> a@[j] == b@[j],
        decreases 32 - i,
    {
        if a[i] != b[i] {
            return false;
        }
        i = i + 1;
    }
    assert(a@ =~= b@);
    true
}

} // verus!
