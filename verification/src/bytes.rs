//! Byte-string helpers over fixed-size digests and growable buffers.

use vstd::prelude::*;

verus! {

broadcast use vstd::array::group_array_axioms;

/// Bytewise exclusive or of two strings of the same length.
pub open spec fn xor_bytes(a: Seq<u8>, b: Seq<u8>) -> Seq<u8> {
    Seq::new(a.len(), |i: int| a[i] ^ b[i])
}

/// The all-zero string of a given length.
pub open spec fn zeros(n: nat) -> Seq<u8> {
    Seq::new(n, |i: int| 0u8)
}

/// Big-endian encoding of a 32-bit number.
pub open spec fn be_bytes_u32(x: u32) -> Seq<u8> {
    seq![(x >> 24u32) as u8, (x >> 16u32) as u8, (x >> 8u32) as u8, x as u8]
}

/// Bytewise exclusive or of two digests.
pub fn xor32(a: &[u8; 32], b: &[u8; 32]) -> (r: [u8; 32])
    ensures
        r@ == xor_bytes(a@, b@),
{
    let mut r = [0u8; 32];
    let mut i: usize = 0;
    while i < 32
        invariant
            0 <= i <= 32,
            r@.len() == 32,
            forall|j: int| 0 <= j < i ==> r@[j] == a@[j] ^ b@[j],
        decreases 32 - i,
    {
        r[i] = a[i] ^ b[i];
        i = i + 1;
    }
    assert(r@ =~= xor_bytes(a@, b@));
    r
}

/// Whether two digests are equal.
pub fn eq32(a: &[u8; 32], b: &[u8; 32]) -> (r: bool)
    ensures
        r == (a@ == b@),
{
    let mut i: usize = 0;
    while i < 32
        invariant
            0 <= i <= 32,
            forall|j: int| 0 <= j < i ==> a@[j] == b@[j],
        decreases 32 - i,
    {
        if a[i] != b[i] {
            return false;
        }
        i = i + 1;
    }
    assert(a@ =~= b@);
    true
}

/// Whether a 32-byte string is all zero.
pub fn is_zero32(a: &[u8; 32]) -> (r: bool)
    ensures
        r == (a@ == zeros(32)),
{
    let mut i: usize = 0;
    while i < 32
        invariant
            0 <= i <= 32,
            forall|j: int| 0 <= j < i ==> a@[j] == 0,
        decreases 32 - i,
    {
        if a[i] != 0 {
            assert(a@[i as int] != zeros(32)[i as int]);
            return false;
        }
        i = i + 1;
    }
    assert(a@ =~= zeros(32));
    true
}

/// Appends a 32-byte string to a buffer.
pub fn append32(buf: &mut Vec<u8>, a: &[u8; 32])
    ensures
        final(buf)@ == old(buf)@ + a@,
{
    let ghost start = buf@;
    let mut i: usize = 0;
    while i < 32
        invariant
            0 <= i <= 32,
            buf@ =~= start + a@.take(i as int),
        decreases 32 - i,
    {
        buf.push(a[i]);
        i = i + 1;
        assert(buf@ =~= start + a@.take(i as int));
    }
    assert(a@.take(32) =~= a@);
}

/// Appends a 64-byte string to a buffer.
pub fn append64(buf: &mut Vec<u8>, a: &[u8; 64])
    ensures
        final(buf)@ == old(buf)@ + a@,
{
    let ghost start = buf@;
    let mut i: usize = 0;
    while i < 64
        invariant
            0 <= i <= 64,
            buf@ =~= start + a@.take(i as int),
        decreases 64 - i,
    {
        buf.push(a[i]);
        i = i + 1;
        assert(buf@ =~= start + a@.take(i as int));
    }
    assert(a@.take(64) =~= a@);
}

/// Appends a byte string to a buffer.
pub fn append_vec(buf: &mut Vec<u8>, a: &Vec<u8>)
    ensures
        final(buf)@ == old(buf)@ + a@,
{
    let ghost start = buf@;
    let mut i: usize = 0;
    while i < a.len()
        invariant
            0 <= i <= a@.len(),
            buf@ =~= start + a@.take(i as int),
        decreases a@.len() - i,
    {
        buf.push(a[i]);
        i = i + 1;
        assert(buf@ =~= start + a@.take(i as int));
    }
    assert(a@.take(a@.len() as int) =~= a@);
}

/// Appends the big-endian encoding of a 32-bit number to a buffer.
pub fn append_be_u32(buf: &mut Vec<u8>, x: u32)
    ensures
        final(buf)@ == old(buf)@ + be_bytes_u32(x),
{
    buf.push((x >> 24u32) as u8);
    buf.push((x >> 16u32) as u8);
    buf.push((x >> 8u32) as u8);
    buf.push(x as u8);
    assert(final(buf)@ =~= old(buf)@ + be_bytes_u32(x));
}

/// A byte buffer holding a copy of a 32-byte string.
pub fn vec_of32(a: &[u8; 32]) -> (v: Vec<u8>)
    ensures
        v@ == a@,
{
    let mut v: Vec<u8> = Vec::new();
    append32(&mut v, a);
    assert(v@ =~= a@);
    v
}

/// A byte buffer holding a copy of a 64-byte string.
pub fn vec_of64(a: &[u8; 64]) -> (v: Vec<u8>)
    ensures
        v@ == a@,
{
    let mut v: Vec<u8> = Vec::new();
    append64(&mut v, a);
    assert(v@ =~= a@);
    v
}

/// A copy of a byte buffer.
pub fn copy_vec(a: &Vec<u8>) -> (v: Vec<u8>)
    ensures
        v@ == a@,
{
    let mut v: Vec<u8> = Vec::new();
    append_vec(&mut v, a);
    assert(v@ =~= a@);
    v
}

} // verus!
