//! Entropy collection: OS-grade random bytes, nanosecond timestamps, and the
//! shared 256-byte entropy buffer fed by pointer-position samples. Bytes
//! [0, 64) of the buffer hold a compacted digest; bytes [64, 256) hold 48
//! rotating 4-byte samples. When the ring completes a full cycle the whole
//! buffer is folded into the digest region.

use vstd::prelude::*;

use rand::rngs::OsRng;
use rand::RngCore;

use crate::hashes::whirlpool_512_compute;
use crate::hashes::whirlpool_512_of;
use vstd::pervasive::VecAdditionalExecFns;
use vstd::slice::slice_to_vec;
use vstd::string::StringSliceAdditionalSpecFns;

verus! {

/// Relies on rand::rngs::OsRng::fill_bytes: `length` cryptographically secure
/// random bytes. Nothing is stated of the contents.
#[verifier::external_body]
pub fn generate_bytes(length: u32) -> (r: Vec<u8>)
    ensures
        r@.len() == length as nat,
{
    let mut data = vec![0; length as usize];
    OsRng.fill_bytes(&mut data);
    data
}

/// Relies on std::time::SystemTime::now: nanoseconds since the Unix epoch.
/// The result depends on the wall clock, so nothing is stated of it.
#[verifier::external_body]
pub fn get_current_time_ns() -> u128 {
    let duration_since_epoch = std::time::SystemTime::now().duration_since(
        std::time::SystemTime::UNIX_EPOCH,
    ).unwrap();
    duration_since_epoch.as_nanos()
}

/// The label whose Whirlpool digest seeds the entropy buffer at start.
pub open spec fn seed_label() -> Seq<u8> {
    "P-GEN DEFAULT MOUSE POSITION ENTROPY".spec_bytes()
}

/// The shared 256-byte entropy buffer: a 64-byte compacted digest followed by
/// 48 rotating 4-byte pointer-position samples.
pub struct EntropyState {
    buf: Vec<u8>,
}

/// `s` with the 4-byte encoded pair (x, y) written at the sample slot that
/// starts `offset` bytes into the sample region: x high byte, x low byte,
/// y high byte, y low byte.
pub open spec fn with_sample(s: Seq<u8>, offset: int, x: u16, y: u16) -> Seq<u8> {
    s.update(64 + offset, (x >> 8) as u8).update(65 + offset, (x & 0xff) as u8).update(
        66 + offset,
        (y >> 8) as u8,
    ).update(67 + offset, (y & 0xff) as u8)
}

impl View for EntropyState {
    type V = Seq<u8>;

    closed spec fn view(&self) -> Seq<u8> {
        self.buf@
    }
}

impl EntropyState {
    /// The buffer always holds exactly 256 bytes.
    pub open spec fn wf(&self) -> bool {
        self@.len() == 256
    }

    /// The initial buffer: the Whirlpool digest of a fixed literal label in
    /// bytes [0, 64), zeroes in bytes [64, 256).
    pub fn new() -> (r: EntropyState)
        ensures
            r.wf(),
            r@.subrange(0, 64) == whirlpool_512_of(seed_label()),
            forall|i: int| 64 <= i < 256 ==> r@[i] == 0u8,
    {
        let label: &str = "P-GEN DEFAULT MOUSE POSITION ENTROPY";
        let mut buf = whirlpool_512_compute(label.as_bytes());
        let mut i: usize = 0;
        while i < 192
            invariant
                i <= 192,
                buf@.len() == 64 + i as nat,
                buf@.subrange(0, 64) == whirlpool_512_of(seed_label()),
                forall|j: int| 64 <= j < buf@.len() ==> buf@[j] == 0u8,
            decreases 192 - i,
        {
            buf.push(0u8);
            proof {
                assert(buf@.subrange(0, 64) =~= whirlpool_512_of(seed_label()));
            }
            i = i + 1;
        }
        let r = EntropyState { buf };
        proof {
            assert(r@.subrange(0, 64) =~= whirlpool_512_of(seed_label()));
        }
        r
    }

    /// A view of the whole buffer.
    pub fn as_slice(&self) -> (r: &[u8])
        ensures
            r@ == self@,
    {
        self.buf.as_slice()
    }

    /// A copy of the whole buffer.
    pub fn to_bytes(&self) -> (r: Vec<u8>)
        ensures
            r@ == self@,
    {
        slice_to_vec(self.buf.as_slice())
    }

    /// Writes the encoded pair (x, y) into the sample slot at `offset`.
    pub fn write_sample(&mut self, offset: usize, x: u16, y: u16)
        requires
            old(self).wf(),
            offset < 192,
            offset % 4 == 0,
        ensures
            final(self).wf(),
            final(self)@ == with_sample(old(self)@, offset as int, x, y),
    {
        self.buf.set(64 + offset, (x >> 8) as u8);
        self.buf.set(64 + offset + 1, (x & 0xff) as u8);
        self.buf.set(64 + offset + 2, (y >> 8) as u8);
        self.buf.set(64 + offset + 3, (y & 0xff) as u8);
    }

    /// Folds the whole buffer into the digest region: bytes [0, 64) become
    /// the Whirlpool digest of the entire pre-compaction buffer, the sample
    /// region is kept as it is.
    pub fn compact(&mut self)
        requires
            old(self).wf(),
        ensures
            final(self).wf(),
            final(self)@ == whirlpool_512_of(old(self)@) + old(self)@.subrange(64, 256),
    {
        let digest = whirlpool_512_compute(self.buf.as_slice());
        let mut i: usize = 0;
        while i < 64
            invariant
                i <= 64,
                digest@.len() == 64,
                digest@ == whirlpool_512_of(old(self)@),
                self.buf@.len() == 256,
                forall|j: int| 0 <= j < i ==> self.buf@[j] == digest@[j],
                forall|j: int| i <= j < 256 ==> self.buf@[j] == old(self)@[j],
            decreases 64 - i,
        {
            self.buf.set(i, digest[i]);
            i = i + 1;
        }
        proof {
            assert(self.buf@ =~= whirlpool_512_of(old(self)@) + old(self)@.subrange(64, 256));
        }
    }
}

/// The buffer after one accepted pointer sample at the ring position that
/// follows `offset`: the sample is written into its slot, and if that slot is
/// the last of the ring, the whole buffer is folded into the digest region.
pub open spec fn sampler_step(buf: Seq<u8>, offset: nat, x: u16, y: u16) -> Seq<u8> {
    let off = ((offset + 4) % 192) as int;
    let written = with_sample(buf, off, x, y);
    if off == 188 {
        whirlpool_512_of(written) + written.subrange(64, 256)
    } else {
        written
    }
}

/// Completing the 48-slot ring cycle folds the buffer: when the accepted
/// sample lands in the last ring slot (byte offset 188), the buffer becomes
/// the wide hash of the whole pre-compaction buffer — the buffer with that
/// final sample already written and the digest region still holding its
/// previous value — followed by the unchanged sample region.
pub proof fn lemma_ring_cycle_compaction(buf: Seq<u8>, offset: nat, x: u16, y: u16)
    requires
        (offset + 4) % 192 == 188,
    ensures
        sampler_step(buf, offset, x, y) == whirlpool_512_of(with_sample(buf, 188, x, y))
            + with_sample(buf, 188, x, y).subrange(64, 256),
{
}

/// The sampler's own state: the byte offset of the last-written ring slot and
/// the last pointer position seen.
pub struct PointerSampler {
    offset: usize,
    last_x: u16,
    last_y: u16,
}

impl PointerSampler {
    /// The byte offset of the last-written ring slot, within [0, 192).
    pub closed spec fn spec_offset(&self) -> nat {
        self.offset as nat
    }

    /// The last pointer position seen.
    pub closed spec fn spec_last(&self) -> (u16, u16) {
        (self.last_x, self.last_y)
    }

    /// The slot offset stays a multiple of 4 below 192.
    pub open spec fn wf(&self) -> bool {
        self.spec_offset() < 192 && self.spec_offset() % 4 == 0
    }

    pub fn new() -> (r: PointerSampler)
        ensures
            r.wf(),
            r.spec_offset() == 0,
            r.spec_last() == (0u16, 0u16),
    {
        PointerSampler { offset: 0, last_x: 0, last_y: 0 }
    }

    /// One poll of the pointer position. An unchanged position is dropped;
    /// a changed one advances the ring and is written into its slot, and
    /// completing the 48-sample cycle folds the buffer into the digest
    /// region.
    pub fn observe(&mut self, state: &mut EntropyState, x: u16, y: u16)
        requires
            old(self).wf(),
            old(state).wf(),
        ensures
            final(self).wf(),
            final(state).wf(),
            (x, y) == old(self).spec_last() ==> final(state)@ == old(state)@ && *final(self)
                == *old(self),
            (x, y) != old(self).spec_last() ==> final(state)@ == sampler_step(
                old(state)@,
                old(self).spec_offset(),
                x,
                y,
            ) && final(self).spec_offset() == (old(self).spec_offset() + 4) % 192
                && final(self).spec_last() == (x, y),
    {
        if x == self.last_x && y == self.last_y {
            return ;
        }
        self.last_x = x;
        self.last_y = y;
        self.offset = (self.offset + 4) % 192;
        state.write_sample(self.offset, x, y);
        if self.offset == 188 {
            state.compact();
        }
    }
}

} // verus!
