//! Byte-level helpers shared by the hash composite and the stream generator:
//! 8-bit circular rotation, wrapping byte addition, left rotation of a byte
//! vector, and big-endian integer encodings.

use vstd::prelude::*;

verus! {

/// 8-bit circular left rotation by `k` positions, `1 <= k < 8`.
pub open spec fn rotl8(x: u8, k: u32) -> u8
    recommends
        1 <= k < 8,
{
    ((((x as u32) << k) | ((x as u32) >> ((8 - k) as u32))) % 256) as u8
}

/// Executable 8-bit circular left rotation.
pub fn rotate_byte_left(x: u8, k: u32) -> (r: u8)
    requires
        1 <= k < 8,
    ensures
        r == rotl8(x, k),
{
    let wide: u32 = ((x as u32) << k) | ((x as u32) >> (8 - k));
    (wide % 256) as u8
}

/// Byte addition that wraps modulo 256.
pub open spec fn wrap_add8(a: u8, b: u8) -> u8 {
    ((a + b) % 256) as u8
}

/// Executable wrapping byte addition.
pub fn add_byte_wrapping(a: u8, b: u8) -> (r: u8)
    ensures
        r == wrap_add8(a, b),
{
    (((a as u32) + (b as u32)) % 256) as u8
}

/// Left rotation of a byte sequence by `k` positions (`k` taken modulo the
/// length, so rotating by the full length is the identity).
pub open spec fn rotl_seq(s: Seq<u8>, k: nat) -> Seq<u8> {
    if s.len() == 0 {
        s
    } else {
        s.subrange((k % s.len()) as int, s.len() as int) + s.subrange(0, (k % s.len()) as int)
    }
}

/// Rotates the vector left by `k` positions in place.
pub fn rotate_vec_left(v: &mut Vec<u8>, k: usize)
    requires
        k <= old(v)@.len(),
    ensures
        final(v)@ == rotl_seq(old(v)@, k as nat),
        final(v)@.len() == old(v)@.len(),
{
    let n = v.len();
    if n == 0 {
        return;
    }
    let m = k % n;
    let mut rotated: Vec<u8> = Vec::new();
    let mut i = m;
    while i < n
        invariant
            m <= i <= n,
            m < n,
            n == v@.len(),
            v@ == old(v)@,
            rotated@ == old(v)@.subrange(m as int, i as int),
        decreases n - i,
    {
        rotated.push(v[i]);
        i = i + 1;
        proof {
            assert(rotated@ =~= old(v)@.subrange(m as int, i as int));
        }
    }
    let mut j: usize = 0;
    while j < m
        invariant
            0 <= j <= m,
            m < n,
            n == v@.len(),
            v@ == old(v)@,
            rotated@ == old(v)@.subrange(m as int, n as int) + old(v)@.subrange(0, j as int),
        decreases m - j,
    {
        rotated.push(v[j]);
        j = j + 1;
        proof {
            assert(rotated@ =~= old(v)@.subrange(m as int, n as int) + old(v)@.subrange(
                0,
                j as int,
            ));
        }
    }
    *v = rotated;
}

/// Big-endian encoding of a 16-bit integer.
pub open spec fn u16_be(x: u16) -> Seq<u8> {
    seq![((x >> 8) & 0xff) as u8, (x & 0xff) as u8]
}

/// Builds the two big-endian bytes of `x`.
pub fn u16_be_bytes(x: u16) -> (r: Vec<u8>)
    ensures
        r@ == u16_be(x),
        r@.len() == 2,
{
    let mut r: Vec<u8> = Vec::new();
    r.push(((x >> 8) & 0xff) as u8);
    r.push((x & 0xff) as u8);
    proof {
        assert(r@ =~= u16_be(x));
    }
    r
}

/// Big-endian encoding of a 32-bit integer.
pub open spec fn u32_be(x: u32) -> Seq<u8> {
    seq![
        ((x >> 24) & 0xff) as u8,
        ((x >> 16) & 0xff) as u8,
        ((x >> 8) & 0xff) as u8,
        (x & 0xff) as u8,
    ]
}

/// Builds the four big-endian bytes of `x`.
pub fn u32_be_bytes(x: u32) -> (r: Vec<u8>)
    ensures
        r@ == u32_be(x),
        r@.len() == 4,
{
    let mut r: Vec<u8> = Vec::new();
    r.push(((x >> 24) & 0xff) as u8);
    r.push(((x >> 16) & 0xff) as u8);
    r.push(((x >> 8) & 0xff) as u8);
    r.push((x & 0xff) as u8);
    proof {
        assert(r@ =~= u32_be(x));
    }
    r
}

/// Big-endian encoding of a 128-bit integer.
pub open spec fn u128_be(x: u128) -> Seq<u8> {
    Seq::new(16, |i: int| ((x >> ((120 - 8 * i) as u128)) & 0xff) as u8)
}

/// Builds the sixteen big-endian bytes of `x`.
pub fn u128_be_bytes(x: u128) -> (r: Vec<u8>)
    ensures
        r@ == u128_be(x),
        r@.len() == 16,
{
    let mut r: Vec<u8> = Vec::new();
    let mut i: u32 = 0;
    while i < 16
        invariant
            0 <= i <= 16,
            r@.len() == i as nat,
            forall|j: int| 0 <= j < i ==> r@[j] == ((x >> ((120 - 8 * j) as u128)) & 0xff) as u8,
        decreases 16 - i,
    {
        let shift: u32 = 120 - 8 * i;
        r.push(((x >> shift as u128) & 0xff) as u8);
        i = i + 1;
    }
    proof {
        assert(r@ =~= u128_be(x));
    }
    r
}

} // verus!
