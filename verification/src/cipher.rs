//! Scrambler: a ChaCha20 keystream XOR used purely as a one-time diffusion
//! step. The key and nonce are drawn fresh for every call and discarded.

use vstd::prelude::*;

use chacha20::cipher::KeyIvInit;
use chacha20::cipher::StreamCipher;
use chacha20::ChaCha20;

use crate::entropy::generate_bytes;

verus! {

/// The first `len` bytes of the ChaCha20 keystream for a 32-byte key and a
/// 12-byte nonce (IETF variant, 32-bit block counter starting at zero), a
/// function of key and nonce alone.
pub uninterp spec fn chacha20_keystream(key: Seq<u8>, nonce: Seq<u8>, len: nat) -> Seq<u8>;

/// `data` xored byte-wise with the ChaCha20 keystream for `key` and `nonce`:
/// output byte `j` is `data[j] ^ keystream[j]` and depends on no other data
/// byte.
pub open spec fn chacha20_apply(key: Seq<u8>, nonce: Seq<u8>, data: Seq<u8>) -> Seq<u8> {
    Seq::new(data.len(), |j: int| data[j] ^ chacha20_keystream(key, nonce, data.len())[j])
}

/// The keystream XOR is self-inverse: applying it twice under one key and
/// nonce restores the buffer.
pub proof fn lemma_chacha20_apply_involution(key: Seq<u8>, nonce: Seq<u8>, data: Seq<u8>)
    ensures
        chacha20_apply(key, nonce, chacha20_apply(key, nonce, data)) == data,
{
    let once = chacha20_apply(key, nonce, data);
    let twice = chacha20_apply(key, nonce, once);
    assert forall|j: int| 0 <= j < data.len() implies twice[j] == data[j] by {
        let a = data[j];
        let b = chacha20_keystream(key, nonce, data.len())[j];
        assert((a ^ b) ^ b == a) by (bit_vector);
    }
    assert(twice =~= data);
}

/// Relies on chacha20::ChaCha20::apply_keystream: xors the buffer in place,
/// byte for byte, with the keystream derived from the 32-byte key and the
/// 12-byte nonce. The cipher construction panics on any other key or nonce
/// length, and the keystream's 32-bit block counter ends after 2^32 - 1
/// blocks of 64 bytes, where apply_keystream panics too; the requires leaves
/// both out.
#[verifier::external_body]
pub fn encrypt_data(key: Vec<u8>, iv: Vec<u8>, data: &mut Vec<u8>)
    requires
        key@.len() == 32,
        iv@.len() == 12,
        old(data)@.len() <= 0xffff_ffff * 64,
    ensures
        final(data)@ == chacha20_apply(key@, iv@, old(data)@),
        final(data)@.len() == old(data)@.len(),
        forall|j: int|
            0 <= j < old(data)@.len() ==> final(data)@[j] == old(data)@[j] ^ chacha20_keystream(
                key@,
                iv@,
                old(data)@.len(),
            )[j],
{
    let key = key.as_slice();
    let iv = iv.as_slice();
    let mut cipher = ChaCha20::new(key.into(), iv.into());
    cipher.apply_keystream(data);
}

/// One-time diffusion: draws a fresh random 256-bit key and 96-bit nonce,
/// xors the keystream over the buffer in place, and discards both. The key
/// is random and never kept, so the contract pins the result only up to the
/// choice of key and nonce: the new contents are the keystream image of the
/// old ones under some fresh 32-byte key and 12-byte nonce.
pub fn scramble(data: &mut Vec<u8>)
    requires
        old(data)@.len() <= 0xffff_ffff * 64,
    ensures
        final(data)@.len() == old(data)@.len(),
        exists|key: Seq<u8>, nonce: Seq<u8>|
            key.len() == 32 && nonce.len() == 12 && final(data)@ == chacha20_apply(
                key,
                nonce,
                old(data)@,
            ),
{
    let key = generate_bytes(32);
    let nonce = generate_bytes(12);
    let ghost key_view = key@;
    let ghost nonce_view = nonce@;
    encrypt_data(key, nonce, data);
    proof {
        assert(key_view.len() == 32 && nonce_view.len() == 12 && data@ == chacha20_apply(
            key_view,
            nonce_view,
            old(data)@,
        ));
    }
}

} // verus!
