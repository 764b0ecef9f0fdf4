use pigeon::byteops::add_byte_wrapping;
use pigeon::byteops::rotate_byte_left;
use pigeon::byteops::rotate_vec_left;
use pigeon::byteops::u128_be_bytes;
use pigeon::byteops::u16_be_bytes;
use pigeon::byteops::u32_be_bytes;
use pigeon::cipher::encrypt_data;
use pigeon::hashes::blake3_256_compute;
use pigeon::hashes::blake3_512_compute;
use pigeon::hashes::blake3_generate_stream;
use pigeon::hashes::perform_joined_digest;
use pigeon::hashes::sha3_256_compute;
use pigeon::hashes::sha3_512_compute;
use pigeon::hashes::whirlpool_512_compute;

fn hex_to_bytes(hex: &str) -> Vec<u8> {
    let chars: Vec<u8> = hex.as_bytes().to_vec();
    let mut out = Vec::new();
    let mut i = 0;
    while i < chars.len() {
        let hi = (chars[i] as char).to_digit(16).unwrap() as u8;
        let lo = (chars[i + 1] as char).to_digit(16).unwrap() as u8;
        out.push(hi * 16 + lo);
        i += 2;
    }
    out
}

#[test]
fn rotate_byte_left_examples() {
    assert_eq!(rotate_byte_left(0b1000_0001, 1), 0b0000_0011);
    assert_eq!(rotate_byte_left(0b0000_0001, 7), 0b1000_0000);
    assert_eq!(rotate_byte_left(0xff, 4), 0xff);
    assert_eq!(rotate_byte_left(0x12, 4), 0x21);
}

#[test]
fn add_byte_wrapping_examples() {
    assert_eq!(add_byte_wrapping(200, 100), 44);
    assert_eq!(add_byte_wrapping(0, 0), 0);
    assert_eq!(add_byte_wrapping(255, 1), 0);
    assert_eq!(add_byte_wrapping(7, 8), 15);
}

#[test]
fn rotate_vec_left_examples() {
    let mut v = vec![1u8, 2, 3, 4, 5];
    rotate_vec_left(&mut v, 2);
    assert_eq!(v, vec![3u8, 4, 5, 1, 2]);
    let mut w = vec![1u8, 2, 3];
    rotate_vec_left(&mut w, 3);
    assert_eq!(w, vec![1u8, 2, 3]);
    let mut e: Vec<u8> = Vec::new();
    rotate_vec_left(&mut e, 0);
    assert!(e.is_empty());
}

#[test]
fn big_endian_encodings() {
    assert_eq!(u16_be_bytes(0x1234), vec![0x12u8, 0x34]);
    assert_eq!(u32_be_bytes(0xdeadbeef), vec![0xdeu8, 0xad, 0xbe, 0xef]);
    let b = u128_be_bytes(1);
    assert_eq!(b.len(), 16);
    assert_eq!(b[15], 1);
    assert!(b[..15].iter().all(|&x| x == 0));
    let c = u128_be_bytes(0x0102030405060708090a0b0c0d0e0f10);
    assert_eq!(c[0], 0x01);
    assert_eq!(c[15], 0x10);
}

#[test]
fn sha3_256_empty_vector() {
    let d = sha3_256_compute(&[]);
    assert_eq!(
        d,
        hex_to_bytes("a7ffc6f8bf1ed76651c14756a061d662f580ff4de43b49fa82d80a4b80f8434a")
    );
}

#[test]
fn hash_wrappers_lengths_and_determinism() {
    let data = vec![7u8; 100];
    assert_eq!(sha3_256_compute(&data).len(), 32);
    assert_eq!(sha3_512_compute(&data).len(), 64);
    assert_eq!(whirlpool_512_compute(&data).len(), 64);
    assert_eq!(blake3_generate_stream(&data, 17).len(), 17);
    assert_eq!(blake3_256_compute(&data).len(), 32);
    assert_eq!(blake3_512_compute(&data).len(), 64);
    assert_eq!(sha3_256_compute(&data), sha3_256_compute(&data));
    assert_eq!(sha3_512_compute(&data), sha3_512_compute(&data));
    assert_eq!(whirlpool_512_compute(&data), whirlpool_512_compute(&data));
    assert_eq!(blake3_512_compute(&data), blake3_512_compute(&data));
}

#[test]
fn hash_wrappers_transform_their_input() {
    let zeros = vec![0u8; 64];
    assert_ne!(sha3_512_compute(&zeros), zeros);
    assert_ne!(whirlpool_512_compute(&zeros), zeros);
    assert_ne!(blake3_512_compute(&zeros), zeros);
    let zeros32 = vec![0u8; 32];
    assert_ne!(sha3_256_compute(&zeros32), zeros32);
    assert_ne!(blake3_256_compute(&zeros32), zeros32);
}

#[test]
fn blake3_stream_is_an_extendable_output() {
    let data = b"extendable output check".to_vec();
    let short = blake3_generate_stream(&data, 32);
    let long = blake3_generate_stream(&data, 64);
    assert_eq!(short[..], long[..32]);
    assert_eq!(blake3_256_compute(&data), short);
    assert_eq!(blake3_512_compute(&data), long);
}

#[test]
fn chacha20_known_keystream() {
    let mut data = vec![0u8; 16];
    encrypt_data(vec![0u8; 32], vec![0u8; 12], &mut data);
    assert_eq!(data.len(), 16);
    assert_eq!(&data[..8], &[0x76, 0xb8, 0xe0, 0xad, 0xa0, 0xf1, 0x3d, 0x90]);
}

#[test]
fn chacha20_is_an_involution_under_one_key() {
    let key: Vec<u8> = (0u8..32).collect();
    let nonce: Vec<u8> = (100u8..112).collect();
    let original: Vec<u8> = (0u8..200).map(|b| b.wrapping_mul(37)).collect();
    let mut data = original.clone();
    encrypt_data(key.clone(), nonce.clone(), &mut data);
    assert_eq!(data.len(), original.len());
    assert_ne!(data, original);
    encrypt_data(key, nonce, &mut data);
    assert_eq!(data, original);
}

#[test]
fn joined_digest_is_deterministic() {
    let data: Vec<u8> = (0u8..64).collect();
    let d1 = perform_joined_digest(data.clone());
    let d2 = perform_joined_digest(data.clone());
    assert_eq!(d1.len(), 32);
    assert_eq!(d1, d2);
}

#[test]
fn joined_digest_separates_inputs() {
    let a: Vec<u8> = (0u8..64).collect();
    let mut b = a.clone();
    b[0] ^= 1;
    let da = perform_joined_digest(a.clone());
    let db = perform_joined_digest(b);
    assert_ne!(da, db);
    assert_ne!(da[..], a[..32]);
}

#[test]
fn joined_digest_minimum_length_input() {
    let data = vec![9u8; 13];
    let d = perform_joined_digest(data.clone());
    assert_eq!(d.len(), 32);
    assert_eq!(d, perform_joined_digest(data));
}
