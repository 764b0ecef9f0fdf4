//! Hash suite: trusted wrappers around the SHA3, BLAKE3 and Whirlpool
//! primitives, and the verified composite "joined digest" transform that
//! diffuses three independently rooted hash families into 32 bytes.

use vstd::prelude::*;

use sha3::{Digest, Sha3_256, Sha3_512};
use whirlpool::Whirlpool;

use crate::byteops::add_byte_wrapping;
use crate::byteops::rotate_byte_left;
use crate::byteops::rotate_vec_left;
use crate::byteops::rotl8;
use crate::byteops::rotl_seq;
use crate::byteops::wrap_add8;

verus! {

/// The 32-byte SHA3-256 digest of a byte sequence.
pub uninterp spec fn sha3_256_of(data: Seq<u8>) -> Seq<u8>;

/// The 64-byte SHA3-512 digest of a byte sequence.
pub uninterp spec fn sha3_512_of(data: Seq<u8>) -> Seq<u8>;

/// The 64-byte Whirlpool digest of a byte sequence.
pub uninterp spec fn whirlpool_512_of(data: Seq<u8>) -> Seq<u8>;

/// The first `len` bytes of the BLAKE3 extendable output for a byte sequence.
pub uninterp spec fn blake3_stream_of(data: Seq<u8>, len: nat) -> Seq<u8>;

/// Relies on sha3::Sha3_256 (update then finalize): the 32-byte SHA3-256
/// digest, a function of the input bytes alone.
#[verifier::external_body]
pub fn sha3_256_compute(data: &[u8]) -> (r: Vec<u8>)
    ensures
        r@ == sha3_256_of(data@),
        r@.len() == 32,
{
    let mut hasher = Sha3_256::new();
    hasher.update(data);
    hasher.finalize().as_slice().to_vec()
}

/// Relies on sha3::Sha3_512 (update then finalize): the 64-byte SHA3-512
/// digest, a function of the input bytes alone.
#[verifier::external_body]
pub fn sha3_512_compute(data: &[u8]) -> (r: Vec<u8>)
    ensures
        r@ == sha3_512_of(data@),
        r@.len() == 64,
{
    let mut hasher = Sha3_512::new();
    hasher.update(data);
    hasher.finalize().as_slice().to_vec()
}

/// Relies on whirlpool::Whirlpool (update then finalize): the 64-byte
/// Whirlpool digest, a function of the input bytes alone.
#[verifier::external_body]
pub fn whirlpool_512_compute(data: &[u8]) -> (r: Vec<u8>)
    ensures
        r@ == whirlpool_512_of(data@),
        r@.len() == 64,
{
    let mut hasher = Whirlpool::new();
    hasher.update(data);
    hasher.finalize().as_slice().to_vec()
}

/// Relies on blake3::Hasher::finalize_xof and OutputReader::fill: the first
/// `size` bytes of the BLAKE3 extendable output, a function of the input
/// bytes alone. Outputs of one input are prefixes of one unbounded stream,
/// so any shorter output is a prefix of this one.
#[verifier::external_body]
pub fn blake3_generate_stream(data: &[u8], size: usize) -> (r: Vec<u8>)
    ensures
        r@ == blake3_stream_of(data@, size as nat),
        r@.len() == size as nat,
        forall|m: nat|
            m <= size as nat ==> #[trigger] blake3_stream_of(data@, m) == r@.subrange(0, m as int),
{
    let mut hasher = blake3::Hasher::new();
    hasher.update(data);
    let mut output = vec![0u8; size];
    let mut output_reader = hasher.finalize_xof();
    output_reader.fill(&mut output);
    output
}

/// The BLAKE3 extendable output truncated to 256 bits: a prefix of every
/// longer output for the same input.
pub fn blake3_256_compute(data: &[u8]) -> (r: Vec<u8>)
    ensures
        r@ == blake3_stream_of(data@, 32),
        r@.len() == 32,
        forall|m: nat| m <= 32 ==> #[trigger] blake3_stream_of(data@, m) == r@.subrange(0, m as int),
{
    blake3_generate_stream(data, 32)
}

/// The BLAKE3 extendable output truncated to 512 bits; its first 32 bytes
/// are the 256-bit output for the same input.
pub fn blake3_512_compute(data: &[u8]) -> (r: Vec<u8>)
    ensures
        r@ == blake3_stream_of(data@, 64),
        r@.len() == 64,
        forall|m: nat| m <= 64 ==> #[trigger] blake3_stream_of(data@, m) == r@.subrange(0, m as int),
        blake3_stream_of(data@, 32) == r@.subrange(0, 32),
{
    blake3_generate_stream(data, 64)
}

/// One round of the joined digest: each lane is rotated by its fixed amount
/// (3, 8, 13) and hashed by its own primitive, then the lane values hand off
/// cyclically: the new first lane is the old second lane's hash, and so on.
pub open spec fn joined_round(l0: Seq<u8>, l1: Seq<u8>, l2: Seq<u8>) -> (Seq<u8>, Seq<u8>, Seq<u8>) {
    let h0 = sha3_512_of(rotl_seq(l0, 3));
    let h1 = blake3_stream_of(rotl_seq(l1, 8), 64);
    let h2 = whirlpool_512_of(rotl_seq(l2, 13));
    (h1, h2, h0)
}

/// The three lanes after `n` rounds, starting from three copies of the input.
pub open spec fn joined_lanes_after_rounds(data: Seq<u8>, n: nat) -> (Seq<u8>, Seq<u8>, Seq<u8>)
    decreases n,
{
    if n == 0 {
        (data, data, data)
    } else {
        let prev = joined_lanes_after_rounds(data, (n - 1) as nat);
        joined_round(prev.0, prev.1, prev.2)
    }
}

/// One output byte of the joined digest: the wrapped sum of the first two
/// reduced lanes rotated by 4 or 5 bits, xored with a byte of the third lane
/// taken 16 positions further and rotated by 2 or 3 bits.
pub open spec fn joined_out_byte(f0: Seq<u8>, f1: Seq<u8>, f2: Seq<u8>, i: int) -> u8 {
    rotl8(wrap_add8(f0[i], f1[i]), (4 + (i % 2)) as u32) ^ rotl8(
        f2[i + 16],
        (2 + ((i + 1) % 2)) as u32,
    )
}

/// The 32-byte joined digest of a byte sequence: eight rotate-hash-handoff
/// rounds over three lanes, a 256-bit reduction of the first two lanes, and
/// the byte-wise combination of the three results.
pub open spec fn joined_digest(data: Seq<u8>) -> Seq<u8> {
    let lanes = joined_lanes_after_rounds(data, 8);
    let f0 = sha3_256_of(lanes.0);
    let f1 = blake3_stream_of(lanes.1, 32);
    let f2 = whirlpool_512_of(lanes.2);
    Seq::new(32, |i: int| joined_out_byte(f0, f1, f2, i))
}

/// The joined digest is a pure function: identical input bytes always give
/// the identical 32-byte output.
pub proof fn lemma_joined_digest_deterministic(a: Seq<u8>, b: Seq<u8>)
    requires
        a == b,
    ensures
        joined_digest(a) == joined_digest(b),
{
}

/// Computes the joined digest of `data`. The input must hold at least 13
/// bytes so that every first-round lane rotation is within bounds.
pub fn perform_joined_digest(data: Vec<u8>) -> (r: Vec<u8>)
    requires
        data@.len() >= 13,
    ensures
        r@ == joined_digest(data@),
        r@.len() == 32,
{
    let ghost input = data@;
    let mut l0 = data.clone();
    let mut l1 = data.clone();
    let mut l2 = data;
    let mut round: u32 = 0;
    while round < 8
        invariant
            0 <= round <= 8,
            input.len() >= 13,
            (l0@, l1@, l2@) == joined_lanes_after_rounds(input, round as nat),
            round == 0 ==> l0@.len() == input.len() && l1@.len() == input.len() && l2@.len()
                == input.len(),
            round >= 1 ==> l0@.len() == 64 && l1@.len() == 64 && l2@.len() == 64,
        decreases 8 - round,
    {
        rotate_vec_left(&mut l0, 3);
        rotate_vec_left(&mut l1, 8);
        rotate_vec_left(&mut l2, 13);
        let h0 = sha3_512_compute(l0.as_slice());
        let h1 = blake3_512_compute(l1.as_slice());
        let h2 = whirlpool_512_compute(l2.as_slice());
        l0 = h1;
        l1 = h2;
        l2 = h0;
        round = round + 1;
        proof {
            assert((l0@, l1@, l2@) == joined_lanes_after_rounds(input, round as nat));
        }
    }
    let f0 = sha3_256_compute(l0.as_slice());
    let f1 = blake3_256_compute(l1.as_slice());
    let f2 = whirlpool_512_compute(l2.as_slice());
    let mut out: Vec<u8> = Vec::new();
    let mut i: usize = 0;
    while i < 32
        invariant
            0 <= i <= 32,
            f0@.len() == 32,
            f1@.len() == 32,
            f2@.len() == 64,
            f0@ == sha3_256_of(joined_lanes_after_rounds(input, 8).0),
            f1@ == blake3_stream_of(joined_lanes_after_rounds(input, 8).1, 32),
            f2@ == whirlpool_512_of(joined_lanes_after_rounds(input, 8).2),
            out@.len() == i as nat,
            forall|j: int| 0 <= j < i ==> out@[j] == joined_out_byte(f0@, f1@, f2@, j),
        decreases 32 - i,
    {
        let a = rotate_byte_left(add_byte_wrapping(f0[i], f1[i]), 4 + (i as u32) % 2);
        let b = rotate_byte_left(f2[i + 16], 2 + ((i as u32) + 1) % 2);
        out.push(a ^ b);
        i = i + 1;
    }
    proof {
        assert(out@ =~= joined_digest(input));
    }
    out
}

} // verus!
