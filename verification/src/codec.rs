//! Sample Codec: turns the little-endian sample bytes popped from the
//! Ring Transport into the values the render side hands to the hardware
//! backend, with a defined fallback for every missing sample.
//!
//! Decoding goes by byte width: 1 is signed 8-bit, 2 is signed 16-bit
//! little-endian, 3 is 24-bit little-endian padded to 32 bits with a zero
//! high byte, 4 is a 32-bit float bit pattern, 8 is a 64-bit float bit
//! pattern, and any other width yields the backend's equilibrium
//! (silence). On underrun the emitted sample is never left undefined: the
//! configured policy fills it, either with silence or with the next value
//! of a deterministic pseudo-random sequence.

use vstd::prelude::*;
use crate::ring::{ByteRing, ring_bytes, ring_capacity};

verus! {

pub const FORMAT_I8: u8 = 0;

pub const FORMAT_I16: u8 = 1;

pub const FORMAT_I24: u8 = 2;

pub const FORMAT_I32: u8 = 3;

pub const FORMAT_I64: u8 = 4;

pub const FORMAT_U8: u8 = 5;

pub const FORMAT_U16: u8 = 6;

pub const FORMAT_U32: u8 = 7;

pub const FORMAT_U64: u8 = 8;

pub const FORMAT_F32: u8 = 9;

pub const FORMAT_F64: u8 = 10;

/// In-memory width in bytes of one sample of the given format code: the
/// size of the native sample type the backend renders (the 24-bit format
/// is carried in a 32-bit value). Zero for an unpublished code.
pub open spec fn spec_sample_width(code: u8) -> int {
    if code == FORMAT_I8 || code == FORMAT_U8 {
        1
    } else if code == FORMAT_I16 || code == FORMAT_U16 {
        2
    } else if code == FORMAT_I24 || code == FORMAT_I32 || code == FORMAT_U32 || code
        == FORMAT_F32 {
        4
    } else if code == FORMAT_I64 || code == FORMAT_U64 || code == FORMAT_F64 {
        8
    } else {
        0
    }
}

/// The sample width of a published format code; `None` exactly for codes
/// outside the published set.
pub fn sample_width(code: u8) -> (w: Option<u8>)
    ensures
        match w {
            Some(b) => code <= 10 && b == spec_sample_width(code),
            None => code > 10,
        },
{
    if code == FORMAT_I8 || code == FORMAT_U8 {
        Some(1)
    } else if code == FORMAT_I16 || code == FORMAT_U16 {
        Some(2)
    } else if code == FORMAT_I24 || code == FORMAT_I32 || code == FORMAT_U32 || code
        == FORMAT_F32 {
        Some(4)
    } else if code == FORMAT_I64 || code == FORMAT_U64 || code == FORMAT_F64 {
        Some(8)
    } else {
        None
    }
}

/// One decoded output sample, still in exact (bit-level) form; only the
/// unverified rim converts it to the native floating-point sample type.
#[derive(Clone, Copy, Debug, PartialEq, Eq, Structural)]
pub enum Decoded {
    /// An integer sample (widths 1, 2 and 3).
    Int(i32),
    /// The bit pattern of a 32-bit float sample (width 4).
    F32Bits(u32),
    /// The bit pattern of a 64-bit float sample (width 8).
    F64Bits(u64),
    /// The backend's equilibrium value, for unrecognized widths.
    Silence,
    /// A pseudo-random fallback value emitted on underrun.
    Noise(u32),
}

/// The signed value of one byte.
pub open spec fn s8_val(b: u8) -> int {
    if b >= 128 {
        b - 256
    } else {
        b as int
    }
}

/// The signed value of two little-endian bytes.
pub open spec fn s16_le_val(b0: u8, b1: u8) -> int {
    let v = b0 + 256 * b1;
    if v >= 32768 {
        v - 65536
    } else {
        v
    }
}

/// The value of three little-endian bytes padded to 32 bits with a zero
/// high byte (hence never negative).
pub open spec fn u24_le_val(b0: u8, b1: u8, b2: u8) -> int {
    b0 + 256 * b1 + 65536 * b2
}

/// The value of four little-endian bytes.
pub open spec fn u32_le_val(b0: u8, b1: u8, b2: u8, b3: u8) -> int {
    b0 + 256 * b1 + 65536 * b2 + 16777216 * b3
}

/// The value of eight little-endian bytes.
pub open spec fn u64_le_val(b: Seq<u8>) -> int
    recommends
        b.len() == 8,
{
    b[0] + 256 * b[1] + 65536 * b[2] + 16777216 * b[3] + 4294967296 * b[4] + 1099511627776 * b[5]
        + 281474976710656 * b[6] + 72057594037927936 * b[7]
}

/// What one popped chunk of sample bytes decodes to, by its width.
pub open spec fn decoded_of(b: Seq<u8>) -> Decoded {
    if b.len() == 1 {
        Decoded::Int(s8_val(b[0]) as i32)
    } else if b.len() == 2 {
        Decoded::Int(s16_le_val(b[0], b[1]) as i32)
    } else if b.len() == 3 {
        Decoded::Int(u24_le_val(b[0], b[1], b[2]) as i32)
    } else if b.len() == 4 {
        Decoded::F32Bits(u32_le_val(b[0], b[1], b[2], b[3]) as u32)
    } else if b.len() == 8 {
        Decoded::F64Bits(u64_le_val(b) as u64)
    } else {
        Decoded::Silence
    }
}

/// Decodes one complete sample chunk.
pub fn decode_sample(bytes: &[u8]) -> (d: Decoded)
    ensures
        d == decoded_of(bytes@),
{
    let n = bytes.len();
    if n == 1 {
        let b0 = bytes[0];
        if b0 >= 128 {
            Decoded::Int(b0 as i32 - 256)
        } else {
            Decoded::Int(b0 as i32)
        }
    } else if n == 2 {
        let v: i32 = bytes[0] as i32 + 256 * bytes[1] as i32;
        if v >= 32768 {
            Decoded::Int(v - 65536)
        } else {
            Decoded::Int(v)
        }
    } else if n == 3 {
        Decoded::Int(bytes[0] as i32 + 256 * bytes[1] as i32 + 65536 * bytes[2] as i32)
    } else if n == 4 {
        Decoded::F32Bits(
            bytes[0] as u32 + 256 * bytes[1] as u32 + 65536 * bytes[2] as u32 + 16777216 * bytes[3]
                as u32,
        )
    } else if n == 8 {
        Decoded::F64Bits(
            bytes[0] as u64 + 256 * bytes[1] as u64 + 65536 * bytes[2] as u64 + 16777216 * bytes[3]
                as u64 + 4294967296 * bytes[4] as u64 + 1099511627776 * bytes[5] as u64
                + 281474976710656 * bytes[6] as u64 + 72057594037927936 * bytes[7] as u64,
        )
    } else {
        Decoded::Silence
    }
}

/// One step of the deterministic xorshift pseudo-random sequence that
/// feeds the audible-noise underrun policy.
pub open spec fn next_noise(x: u32) -> u32 {
    let a = x ^ (x << 13);
    let b = a ^ (a >> 17);
    b ^ (b << 5)
}

/// `k` steps of the pseudo-random sequence from seed `s`.
pub open spec fn noise_iter(s: u32, k: nat) -> u32
    decreases k,
{
    if k == 0 {
        s
    } else {
        next_noise(noise_iter(s, (k - 1) as nat))
    }
}

/// Advances the pseudo-random state by one step.
pub fn noise_step(x: u32) -> (r: u32)
    ensures
        r == next_noise(x),
{
    let a = x ^ (x << 13u32);
    let b = a ^ (a >> 17u32);
    b ^ (b << 5u32)
}

/// What to emit for a sample the ring could not supply: silence, or the
/// next value of the pseudo-random sequence. The choice is explicit and
/// fixed per stream.
#[derive(Clone, Copy, Debug, PartialEq, Eq, Structural)]
pub enum UnderrunPolicy {
    Silence,
    Noise(u32),
}

/// The sample emitted for the `k`-th missing slot (0-based) under
/// policy `p`.
pub open spec fn fallback_at(p: UnderrunPolicy, k: int) -> Decoded {
    match p {
        UnderrunPolicy::Silence => Decoded::Silence,
        UnderrunPolicy::Noise(s) => Decoded::Noise(noise_iter(s, (k + 1) as nat)),
    }
}

/// The policy state after filling `k` missing slots.
pub open spec fn policy_after(p: UnderrunPolicy, k: int) -> UnderrunPolicy {
    match p {
        UnderrunPolicy::Silence => UnderrunPolicy::Silence,
        UnderrunPolicy::Noise(s) => UnderrunPolicy::Noise(noise_iter(s, k as nat)),
    }
}

/// How many of the `count` requested samples the queued bytes can fill
/// completely.
pub open spec fn full_slots(qlen: int, width: int, count: int) -> int {
    let f = qlen / width;
    if count <= f {
        count
    } else {
        f
    }
}

/// How many queued bytes rendering `count` samples consumes: whole
/// samples while they last; the first short slot drains the rest.
pub open spec fn consumed_bytes(qlen: int, width: int, count: int) -> int {
    if count <= qlen / width {
        count * width
    } else {
        qlen
    }
}

/// Renders `count` output sample slots from the ring: each slot pops one
/// sample's worth of bytes and decodes them; a slot the ring cannot fill
/// completely is filled by the underrun policy, never left undefined.
/// Bytes of a short final chunk are consumed and discarded.
pub fn render_block(
    ring: &mut ByteRing,
    width: usize,
    count: usize,
    policy: &mut UnderrunPolicy,
) -> (out: Vec<Decoded>)
    requires
        1 <= width <= 8,
    ensures
        out@.len() == count,
        ring_capacity(*final(ring)) == ring_capacity(*old(ring)),
        ({
            let q = ring_bytes(*old(ring));
            let full = full_slots(q.len() as int, width as int, count as int);
            &&& forall|i: int|
                0 <= i < full ==> out@[i] == decoded_of(
                    #[trigger] q.subrange(i * width, i * width + width),
                )
            &&& forall|i: int| full <= i < count ==> out@[i] == fallback_at(*old(policy), i - full)
            &&& *final(policy) == policy_after(*old(policy), count - full)
            &&& ring_bytes(*final(ring)) == q.skip(
                consumed_bytes(q.len() as int, width as int, count as int),
            )
        }),
{
    let ghost q = ring_bytes(*ring);
    let ghost p0 = *policy;
    let ghost cap0 = ring_capacity(*ring);
    let ghost full = full_slots(q.len() as int, width as int, count as int);
    proof {
        vstd::arithmetic::div_mod::lemma_fundamental_div_mod(q.len() as int, width as int);
        vstd::arithmetic::div_mod::lemma_mod_bound(q.len() as int, width as int);
    }
    let mut out: Vec<Decoded> = Vec::new();
    let mut i: usize = 0;
    while i < count
        invariant
            1 <= width <= 8,
            i <= count,
            out@.len() == i,
            ring_capacity(*ring) == cap0,
            full == full_slots(q.len() as int, width as int, count as int),
            q.len() == width * (q.len() as int / width as int) + q.len() as int % width as int,
            0 <= (q.len() as int % width as int) < width,
            i <= full ==> ring_bytes(*ring) == q.skip(i * width),
            i <= full ==> *policy == p0,
            i > full ==> ring_bytes(*ring).len() == 0,
            i > full ==> *policy == policy_after(p0, i - full),
            forall|j: int|
                0 <= j < i && j < full ==> out@[j] == decoded_of(
                    #[trigger] q.subrange(j * width, j * width + width),
                ),
            forall|j: int| full <= j < i ==> out@[j] == fallback_at(p0, j - full),
        decreases count - i,
    {
        let chunk = ring.pop(width);
        if chunk.len() == width {
            proof {
                // A complete chunk means the ring still held a whole
                // sample, so this is a full slot.
                if i > full {
                    assert(false);
                }
                if i == full {
                    // At the first short slot the ring holds fewer than
                    // `width` bytes, contradicting the complete chunk.
                    assert(full < count);
                    assert(full == q.len() as int / width as int);
                    assert(q.skip(i * width).len() == q.len() - i * width);
                    assert(i * width == (q.len() as int / width as int) * width);
                    assert(q.len() - i * width < width);
                    assert(false);
                }
                assert(i < full);
                assert(chunk@ =~= q.skip(i * width).take(width as int));
                assert(q.skip(i * width).take(width as int) =~= q.subrange(
                    i * width,
                    i * width + width,
                ));
                assert((i + 1) * width == i * width + width) by (nonlinear_arith);
                assert(q.skip(i * width).skip(width as int) =~= q.skip((i + 1) * width));
            }
            let d = decode_sample(chunk.as_slice());
            out.push(d);
        } else {
            proof {
                // A short chunk is an underrun: the ring is drained and
                // the slot is filled by the policy.
                if i < full {
                    assert((i + 1) * width <= (q.len() as int / width as int) * width) by (nonlinear_arith)
                        requires
                            i + 1 <= q.len() as int / width as int,
                            width >= 1,
                    ;
                    assert(q.skip(i * width).len() >= width);
                    assert(false);
                }
                assert(i >= full);
                if i == full {
                    assert(ring_bytes(*ring).len() == 0);
                }
            }
            match policy {
                UnderrunPolicy::Silence => {
                    out.push(Decoded::Silence);
                },
                UnderrunPolicy::Noise(s) => {
                    let v = noise_step(*s);
                    *s = v;
                    out.push(Decoded::Noise(v));
                },
            }
            proof {
                assert(*policy == policy_after(p0, i + 1 - full));
                assert(out@[i as int] == fallback_at(p0, i - full));
            }
        }
        i += 1;
    }
    proof {
        if count <= full {
            assert(full == count);
            assert(count <= q.len() as int / width as int);
            assert(consumed_bytes(q.len() as int, width as int, count as int) == count * width);
        } else {
            assert(ring_bytes(*ring) =~= q.skip(q.len() as int));
            assert(consumed_bytes(q.len() as int, width as int, count as int) == q.len());
        }
    }
    out
}

} // verus!
