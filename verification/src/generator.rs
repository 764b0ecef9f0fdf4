//! Stream generator and password encoder: gathers an entropy vector from the
//! counters, timestamps, the shared entropy buffer and the ratchet, scrambles
//! it, chains the ratchet forward, and emits the requested number of bytes by
//! iterative salted block construction; the password encoder maps the byte
//! stream onto a selectable character alphabet.

use vstd::prelude::*;

use crate::byteops::rotate_vec_left;
use crate::byteops::u128_be;
use crate::byteops::u128_be_bytes;
use crate::byteops::u16_be;
use crate::byteops::u16_be_bytes;
use crate::byteops::u32_be;
use crate::byteops::u32_be_bytes;
use crate::cipher::chacha20_apply;
use crate::cipher::scramble;
use crate::entropy::generate_bytes;
use crate::entropy::get_current_time_ns;
use crate::entropy::EntropyState;
use crate::hashes::blake3_512_compute;
use crate::hashes::perform_joined_digest;
use crate::hashes::whirlpool_512_compute;
use crate::hashes::whirlpool_512_of;
use vstd::slice::slice_to_vec;
use vstd::string::StrSliceExecFns;

verus! {

pub const STREAM_SALT_A: [u8; 32] = [
    0x40, 0xf0, 0xe4, 0xd9, 0x81, 0x80, 0x8d, 0x5a, 0xe6, 0x1a, 0x7c, 0xef, 0x10, 0xee, 0x8f,
    0xd9, 0x86, 0xc1, 0x2b, 0x1c, 0x3d, 0x02, 0x76, 0x46, 0x02, 0x3c, 0x2f, 0x3a, 0x6a, 0xf8,
    0x54, 0x1a,
];

pub const STREAM_SALT_B: [u8; 32] = [
    0x25, 0x02, 0x13, 0xbb, 0x51, 0xb7, 0x9f, 0xe2, 0xb3, 0xaa, 0x41, 0xdf, 0xbf, 0x53, 0x5e,
    0xdc, 0x48, 0x4d, 0x48, 0x85, 0xa5, 0xe1, 0xe4, 0x6e, 0x34, 0x14, 0x14, 0xd1, 0x91, 0x1e,
    0xb4, 0xab,
];

pub const STREAM_SALT_C: [u8; 32] = [
    0xbb, 0x9c, 0xe0, 0x46, 0x9a, 0x34, 0x29, 0x3f, 0x6f, 0x90, 0x7f, 0xb1, 0x6e, 0x5e, 0x2f,
    0x1f, 0xfb, 0xad, 0xfc, 0xff, 0xc4, 0xbc, 0xca, 0xdf, 0xc3, 0x02, 0x1a, 0x4e, 0x96, 0x61,
    0x2b, 0x3c,
];

pub const STREAM_SALT_D: [u8; 32] = [
    0x3b, 0x20, 0x03, 0x89, 0x90, 0x8f, 0xc6, 0x47, 0x97, 0x4c, 0xe9, 0xf0, 0x72, 0xad, 0x9b,
    0x57, 0xd9, 0x76, 0x2f, 0x36, 0x31, 0x46, 0x08, 0xff, 0x3a, 0xff, 0xee, 0x4f, 0xa2, 0x92,
    0x93, 0x8b,
];

pub const RATCHET_TRAILER: [u8; 32] = [
    0x02, 0xc6, 0x88, 0x12, 0xcb, 0xf2, 0xeb, 0x86, 0x60, 0x32, 0xbb, 0x06, 0xe5, 0x4a, 0x05,
    0x80, 0x93, 0xe7, 0xb6, 0x78, 0x3f, 0xa8, 0x19, 0xbf, 0x52, 0x69, 0x89, 0x15, 0xf0, 0xb0,
    0xe2, 0x5a,
];

/// The fixed 32-byte salt chosen for a generation of `i` iterations
/// (selected by `i` modulo 4).
pub open spec fn iteration_salt(i: int) -> Seq<u8> {
    if i == 0 {
        STREAM_SALT_A@
    } else if i == 1 {
        STREAM_SALT_B@
    } else if i == 2 {
        STREAM_SALT_C@
    } else {
        STREAM_SALT_D@
    }
}

/// The fixed 32-byte constant appended to the scrambled entropy vector
/// before it is folded into the next ratchet value.
pub open spec fn ratchet_trailer() -> Seq<u8> {
    RATCHET_TRAILER@
}

fn iteration_salt_bytes(idx: u32) -> (r: Vec<u8>)
    requires
        idx < 4,
    ensures
        r@ == iteration_salt(idx as int),
        r@.len() == 32,
{
    if idx == 0 {
        slice_to_vec(STREAM_SALT_A.as_slice())
    } else if idx == 1 {
        slice_to_vec(STREAM_SALT_B.as_slice())
    } else if idx == 2 {
        slice_to_vec(STREAM_SALT_C.as_slice())
    } else {
        slice_to_vec(STREAM_SALT_D.as_slice())
    }
}

fn ratchet_trailer_bytes() -> (r: Vec<u8>)
    ensures
        r@ == ratchet_trailer(),
        r@.len() == 32,
{
    slice_to_vec(RATCHET_TRAILER.as_slice())
}

/// Per-application-instance generation context: the forward-chained ratchet
/// buffer (empty at start, then always the 64-byte digest of the previous
/// generation's scrambled entropy vector), the immutable process-start
/// timestamp, and the monotonic stream counter, which the caller bumps after
/// each successful generation (wrapping at 2^32).
pub struct PigeonInstance {
    pub last_used_entropy: Vec<u8>,
    pub program_start_time: u128,
    pub generated_streams_count: u32,
}

impl Default for PigeonInstance {
    /// A fresh context: empty ratchet, zero counter, start time captured now.
    fn default() -> (r: PigeonInstance)
        ensures
            r.last_used_entropy@.len() == 0,
            r.generated_streams_count == 0,
    {
        PigeonInstance {
            last_used_entropy: Vec::new(),
            program_start_time: get_current_time_ns(),
            generated_streams_count: 0,
        }
    }
}

/// The digest of the shared entropy buffer for one generation: present when
/// the buffer was available, absent when it was not.
pub open spec fn shared_entropy_digest(entropy: Option<&EntropyState>) -> Option<Seq<u8>> {
    match entropy {
        Some(state) => Some(whirlpool_512_of(state@)),
        None => None,
    }
}

/// The pre-scramble entropy vector: the big-endian low 16 bits of the
/// requested size, the stream counter, the start time and the current time;
/// a marker byte 1 followed by the shared buffer's digest when it was
/// available, else the marker byte 0; a marker byte 1 and a verbatim copy of
/// the ratchet when it is non-empty, else the marker byte 0; then the 40
/// fresh random bytes.
pub open spec fn entropy_vector_layout(
    size: u32,
    counter: u32,
    start_time: u128,
    now: u128,
    shared: Option<Seq<u8>>,
    ratchet: Seq<u8>,
    fresh: Seq<u8>,
) -> Seq<u8> {
    u16_be((size % 65536) as u16) + u32_be(counter) + u128_be(start_time) + u128_be(now) + (
    match shared {
        Some(digest) => seq![1u8] + digest,
        None => seq![0u8],
    }) + (if ratchet.len() > 0 {
        seq![1u8] + ratchet
    } else {
        seq![0u8]
    }) + fresh
}

/// Assembles the pre-scramble entropy vector from the context values, the
/// shared entropy buffer, the ratchet and the 40 fresh random bytes.
pub fn assemble_entropy_vector(
    size: u32,
    counter: u32,
    start_time: u128,
    now: u128,
    entropy: Option<&EntropyState>,
    ratchet: &Vec<u8>,
    fresh: Vec<u8>,
) -> (r: Vec<u8>)
    requires
        fresh@.len() == 40,
    ensures
        r@ == entropy_vector_layout(
            size,
            counter,
            start_time,
            now,
            shared_entropy_digest(entropy),
            ratchet@,
            fresh@,
        ),
        80 <= r@.len() <= 144 + ratchet@.len(),
{
    let ghost fresh_view = fresh@;
    let mut fresh = fresh;
    let mut r: Vec<u8> = Vec::new();
    let mut part = u16_be_bytes((size % 65536) as u16);
    r.append(&mut part);
    let mut part = u32_be_bytes(counter);
    r.append(&mut part);
    let mut part = u128_be_bytes(start_time);
    r.append(&mut part);
    let mut part = u128_be_bytes(now);
    r.append(&mut part);

    match entropy {
        Some(shared) => {
            r.push(1);
            let mut digest = whirlpool_512_compute(shared.as_slice());
            r.append(&mut digest);
        },
        None => {
            r.push(0);
        },
    }

    if ratchet.len() > 0 {
        r.push(1);
        let mut previous = ratchet.clone();
        r.append(&mut previous);
    } else {
        r.push(0);
    }

    r.append(&mut fresh);
    proof {
        assert(r@ =~= entropy_vector_layout(
            size,
            counter,
            start_time,
            now,
            shared_entropy_digest(entropy),
            ratchet@,
            fresh_view,
        ));
    }
    r
}

/// Emits exactly `size` pseudorandom bytes and chains the ratchet forward.
///
/// The pre-scramble entropy vector is assembled by `assemble_entropy_vector`
/// (so the old ratchet, when non-empty, is embedded verbatim behind its
/// marker byte), scrambled in place under a fresh one-time key and nonce,
/// and the ratchet becomes the Whirlpool digest of that scrambled vector
/// with a fixed trailing constant: the contract states that the new ratchet
/// derives from its predecessor plus fresh entropy through one keystream
/// image and one one-way hash. Output is built 32 bytes at a time from the
/// joined digest of a rotated, scrambled block, with the whole accumulated
/// output re-scrambled every iteration, and finally cut to `size` bytes;
/// fresh randomness makes the bytes themselves non-deterministic, so only
/// their count is pinned. The ratchet a caller hands in is either the
/// initial empty value or a previous 64-byte chain value.
pub fn generate_stream(instance: &mut PigeonInstance, entropy: Option<&EntropyState>, size: u32) -> (r: Vec<
    u8,
>)
    requires
        size as int + 32 <= usize::MAX as int,
        old(instance).last_used_entropy@.len() == 0 || old(instance).last_used_entropy@.len()
            == 64,
    ensures
        r@.len() == size as nat,
        final(instance).last_used_entropy@.len() == 64,
        exists|key: Seq<u8>, nonce: Seq<u8>, now: u128, fresh: Seq<u8>|
            key.len() == 32 && nonce.len() == 12 && fresh.len() == 40
                && final(instance).last_used_entropy@ == whirlpool_512_of(
                chacha20_apply(
                    key,
                    nonce,
                    entropy_vector_layout(
                        size,
                        old(instance).generated_streams_count,
                        old(instance).program_start_time,
                        now,
                        shared_entropy_digest(entropy),
                        old(instance).last_used_entropy@,
                        fresh,
                    ),
                ) + ratchet_trailer(),
            ),
        final(instance).program_start_time == old(instance).program_start_time,
        final(instance).generated_streams_count == old(instance).generated_streams_count,
{
    let now = get_current_time_ns();
    let fresh = generate_bytes(40);
    let ghost fresh_view = fresh@;
    let mut entropy_vec = assemble_entropy_vector(
        size,
        instance.generated_streams_count,
        instance.program_start_time,
        now,
        entropy,
        &instance.last_used_entropy,
        fresh,
    );
    let ghost pre_scramble = entropy_vec@;
    scramble(&mut entropy_vec);

    let mut ratchet_input = entropy_vec.clone();
    let mut trailer = ratchet_trailer_bytes();
    ratchet_input.append(&mut trailer);
    instance.last_used_entropy = whirlpool_512_compute(ratchet_input.as_slice());
    proof {
        let (key, nonce) = choose|key: Seq<u8>, nonce: Seq<u8>|
            key.len() == 32 && nonce.len() == 12 && entropy_vec@ == chacha20_apply(
                key,
                nonce,
                pre_scramble,
            );
        assert(instance.last_used_entropy@ == whirlpool_512_of(
            chacha20_apply(
                key,
                nonce,
                entropy_vector_layout(
                    size,
                    old(instance).generated_streams_count,
                    old(instance).program_start_time,
                    now,
                    shared_entropy_digest(entropy),
                    old(instance).last_used_entropy@,
                    fresh_view,
                ),
            ) + ratchet_trailer(),
        ));
    }

    let mut iterations: u32 = size / 32;
    if size % 32 != 0 {
        iterations = iterations + 1;
    }
    assert(32 * iterations as int >= size as int);
    assert(32 * iterations as int <= size as int + 32);

    let mut output_stream: Vec<u8> = Vec::new();
    let mut i: u32 = 0;
    while i < iterations
        invariant
            i <= iterations,
            32 * iterations as int <= size as int + 32,
            size as int + 32 <= usize::MAX as int,
            output_stream@.len() == 32 * i as nat,
            80 <= entropy_vec@.len() <= 208,
            instance.last_used_entropy@.len() == 64,
            instance.program_start_time == old(instance).program_start_time,
            instance.generated_streams_count == old(instance).generated_streams_count,
        decreases iterations - i,
    {
        let mut salt = iteration_salt_bytes(iterations % 4);
        let mut index_bytes = u32_be_bytes(i);
        salt.append(&mut index_bytes);
        let mut accumulated = output_stream.clone();
        salt.append(&mut accumulated);
        let salt = blake3_512_compute(salt.as_slice());

        let mut block = entropy_vec.clone();
        let mut salt_vec = salt;
        block.append(&mut salt_vec);
        let rot = (i as usize) % 16 + 4;
        rotate_vec_left(&mut block, rot);
        scramble(&mut block);

        let mut digest = perform_joined_digest(block);
        output_stream.append(&mut digest);
        scramble(&mut output_stream);
        i = i + 1;
    }

    output_stream.resize(size as usize, 0);
    output_stream
}

/// The requested password length and the nine independent character-class
/// selectors.
#[derive(Clone, Copy)]
pub struct GeneratePasswordParams {
    pub size: u32,
    pub use_uppercase_chars: bool,
    pub use_lowercase_chars: bool,
    pub use_numbers: bool,
    pub use_logograms: bool,
    pub use_punctuation: bool,
    pub use_quotation_marks: bool,
    pub use_dashes_and_slashes: bool,
    pub use_maths_symbols: bool,
    pub use_brackets: bool,
}

/// The alphabet for a parameter set: the enabled character-class segments
/// concatenated in their fixed declared order.
pub open spec fn password_alphabet(params: GeneratePasswordParams) -> Seq<char> {
    (if params.use_uppercase_chars {
        "ABCDEFGHIJKLMNOPQRSTUVWXYZ"@
    } else {
        Seq::<char>::empty()
    }) + (if params.use_lowercase_chars {
        "abcdefghijklmnopqrstuvwxyz"@
    } else {
        Seq::<char>::empty()
    }) + (if params.use_numbers {
        "0123456789"@
    } else {
        Seq::<char>::empty()
    }) + (if params.use_logograms {
        "#$%&@^`~"@
    } else {
        Seq::<char>::empty()
    }) + (if params.use_punctuation {
        ".,:;"@
    } else {
        Seq::<char>::empty()
    }) + (if params.use_quotation_marks {
        "\"'"@
    } else {
        Seq::<char>::empty()
    }) + (if params.use_dashes_and_slashes {
        "\\/|_-"@
    } else {
        Seq::<char>::empty()
    }) + (if params.use_maths_symbols {
        "<>*+!?="@
    } else {
        Seq::<char>::empty()
    }) + (if params.use_brackets {
        "()[]{}"@
    } else {
        Seq::<char>::empty()
    })
}

/// Appends every character of `s` to `v` in order.
fn append_str_chars(v: &mut Vec<char>, s: &str)
    ensures
        final(v)@ == old(v)@ + s@,
{
    let n = s.unicode_len();
    let mut i: usize = 0;
    while i < n
        invariant
            i <= n,
            n as nat == s@.len(),
            v@ == old(v)@ + s@.subrange(0, i as int),
        decreases n - i,
    {
        let c = s.get_char(i);
        v.push(c);
        i = i + 1;
        proof {
            assert(v@ =~= old(v)@ + s@.subrange(0, i as int));
        }
    }
    proof {
        assert(old(v)@ + s@.subrange(0, n as int) =~= old(v)@ + s@);
    }
}

/// Relies on String::push: appends a single character to the string.
#[verifier::external_body]
fn push_char(s: &mut String, c: char)
    ensures
        final(s)@ == old(s)@.push(c),
{
    s.push(c);
}

/// Maps the byte stream onto the alphabet: character `i` of the result is
/// `alphabet[stream[i] mod alphabet.len()]`, the password encoder's defining
/// equation. When the alphabet length does not divide 256 evenly the mapping
/// is accepted as not perfectly uniform.
pub fn encode_stream(stream: &Vec<u8>, alphabet: &Vec<char>) -> (r: String)
    requires
        alphabet@.len() > 0,
    ensures
        r@.len() == stream@.len(),
        forall|i: int|
            0 <= i < stream@.len() ==> r@[i] == alphabet@[stream@[i] as int % alphabet@.len() as int],
{
    let mut encoded = String::new();
    let n = stream.len();
    let alphabet_length = alphabet.len();
    let mut i: usize = 0;
    while i < n
        invariant
            i <= n,
            n == stream@.len(),
            alphabet_length == alphabet@.len(),
            alphabet_length > 0,
            encoded@.len() == i as nat,
            forall|j: int|
                0 <= j < i ==> encoded@[j] == alphabet@[stream@[j] as int % alphabet@.len() as int],
        decreases n - i,
    {
        let b = stream[i];
        let idx = (b as usize) % alphabet_length;
        push_char(&mut encoded, alphabet[idx]);
        i = i + 1;
    }
    encoded
}

/// Generates a password of `params.size` characters drawn from the selected
/// alphabet, or the empty string when the requested size is zero or no
/// character class is enabled (in both of those cases no stream is generated
/// and the context is left untouched). Exactly one stream of `params.size`
/// bytes is generated and encoded through `encode_stream`, whose contract
/// pins each character to `alphabet[stream[i] mod alphabet length]`. The
/// ratchet a caller hands in is either the initial empty value or a previous
/// 64-byte chain value.
pub fn generate_password(
    instance: &mut PigeonInstance,
    entropy: Option<&EntropyState>,
    params: &GeneratePasswordParams,
) -> (r: String)
    requires
        params.size as int + 32 <= usize::MAX as int,
        old(instance).last_used_entropy@.len() == 0 || old(instance).last_used_entropy@.len()
            == 64,
    ensures
        r@.len() == if params.size == 0 || password_alphabet(*params).len() == 0 {
            0nat
        } else {
            params.size as nat
        },
        forall|i: int| 0 <= i < r@.len() ==> password_alphabet(*params).contains(r@[i]),
        final(instance).program_start_time == old(instance).program_start_time,
        final(instance).generated_streams_count == old(instance).generated_streams_count,
        params.size == 0 || password_alphabet(*params).len() == 0 ==> *final(instance)
            == *old(instance),
        params.size != 0 && password_alphabet(*params).len() != 0
            ==> final(instance).last_used_entropy@.len() == 64,
        params.size != 0 && password_alphabet(*params).len() != 0 ==> exists|ev: Seq<u8>|
            final(instance).last_used_entropy@ == whirlpool_512_of(ev + ratchet_trailer()),
{
    if params.size == 0 {
        return String::new();
    }

    let mut characters: Vec<char> = Vec::new();
    if params.use_uppercase_chars {
        append_str_chars(&mut characters, "ABCDEFGHIJKLMNOPQRSTUVWXYZ");
    }
    if params.use_lowercase_chars {
        append_str_chars(&mut characters, "abcdefghijklmnopqrstuvwxyz");
    }
    if params.use_numbers {
        append_str_chars(&mut characters, "0123456789");
    }
    if params.use_logograms {
        append_str_chars(&mut characters, "#$%&@^`~");
    }
    if params.use_punctuation {
        append_str_chars(&mut characters, ".,:;");
    }
    if params.use_quotation_marks {
        append_str_chars(&mut characters, "\"'");
    }
    if params.use_dashes_and_slashes {
        append_str_chars(&mut characters, "\\/|_-");
    }
    if params.use_maths_symbols {
        append_str_chars(&mut characters, "<>*+!?=");
    }
    if params.use_brackets {
        append_str_chars(&mut characters, "()[]{}");
    }
    proof {
        assert(characters@ =~= password_alphabet(*params));
    }

    let characters_length = characters.len();
    if characters_length == 0 {
        return String::new();
    }

    let stream = generate_stream(instance, entropy, params.size);
    let password = encode_stream(&stream, &characters);
    proof {
        assert forall|i: int| 0 <= i < password@.len() implies password_alphabet(*params).contains(
            #[trigger] password@[i],
        ) by {
            let idx = stream@[i] as int % characters@.len() as int;
            assert(0 <= idx < characters@.len());
            assert(password@[i] == password_alphabet(*params)[idx]);
            assert(password_alphabet(*params).contains(password@[i]));
        }
    }
    password
}

} // verus!
