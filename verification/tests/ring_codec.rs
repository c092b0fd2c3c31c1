//! Ring Transport and Sample Codec behavior, exercised end to end
//! against the real ring buffer backend.

use vdriver::codec::{
    decode_sample, noise_step, render_block, sample_width, Decoded, UnderrunPolicy,
};
use vdriver::ring::ByteRing;

#[test]
fn ring_round_trip_within_capacity() {
    let mut r = ByteRing::new(8);
    assert_eq!(r.capacity(), 8);
    let pushed = r.push(&[1, 2, 3, 4, 5]);
    assert_eq!(pushed, 5);
    assert_eq!(r.len(), 5);
    let got = r.pop(5);
    assert_eq!(got, vec![1, 2, 3, 4, 5]);
    assert_eq!(r.len(), 0);
}

#[test]
fn ring_overfill_keeps_earliest() {
    let mut r = ByteRing::new(4);
    let pushed = r.push(&[10, 20, 30, 40, 50, 60]);
    assert_eq!(pushed, 4);
    let got = r.pop(10);
    assert_eq!(got, vec![10, 20, 30, 40]);
}

#[test]
fn ring_pop_empty_returns_nothing() {
    let mut r = ByteRing::new(4);
    let got = r.pop(2);
    assert_eq!(got.len(), 0);
}

#[test]
fn ring_pop_partial_on_underrun() {
    let mut r = ByteRing::new(8);
    r.push(&[7, 8, 9]);
    let got = r.pop(8);
    assert_eq!(got, vec![7, 8, 9]);
}

#[test]
fn ring_push_after_pop_wraps() {
    let mut r = ByteRing::new(4);
    assert_eq!(r.push(&[1, 2, 3]), 3);
    assert_eq!(r.pop(2), vec![1, 2]);
    assert_eq!(r.push(&[4, 5, 6]), 3);
    assert_eq!(r.pop(4), vec![3, 4, 5, 6]);
}

#[test]
fn decode_width_one_is_signed() {
    assert_eq!(decode_sample(&[0x80]), Decoded::Int(-128));
    assert_eq!(decode_sample(&[0xFF]), Decoded::Int(-1));
    assert_eq!(decode_sample(&[0x7F]), Decoded::Int(127));
}

#[test]
fn decode_width_two_is_signed_le() {
    assert_eq!(decode_sample(&[0x34, 0x12]), Decoded::Int(0x1234));
    assert_eq!(decode_sample(&[0xFF, 0xFF]), Decoded::Int(-1));
    assert_eq!(decode_sample(&[0x00, 0x80]), Decoded::Int(-32768));
}

#[test]
fn decode_width_three_zero_padded() {
    assert_eq!(decode_sample(&[0x01, 0x02, 0x03]), Decoded::Int(0x030201));
    assert_eq!(decode_sample(&[0xFF, 0xFF, 0xFF]), Decoded::Int(0x00FF_FFFF));
}

#[test]
fn decode_width_four_is_f32_bits() {
    assert_eq!(
        decode_sample(&[0x00, 0x00, 0x80, 0x3F]),
        Decoded::F32Bits(0x3F80_0000)
    );
}

#[test]
fn decode_width_eight_is_f64_bits() {
    assert_eq!(
        decode_sample(&[0, 0, 0, 0, 0, 0, 0xF0, 0x3F]),
        Decoded::F64Bits(0x3FF0_0000_0000_0000)
    );
}

#[test]
fn decode_other_width_is_silence() {
    assert_eq!(decode_sample(&[1, 2, 3, 4, 5]), Decoded::Silence);
    assert_eq!(decode_sample(&[]), Decoded::Silence);
}

#[test]
fn noise_sequence_is_deterministic() {
    assert_eq!(noise_step(1), 0x42021);
    assert_eq!(noise_step(1), 0x42021);
}

#[test]
fn sample_widths_match_native_sizes() {
    assert_eq!(sample_width(0), Some(1)); // i8
    assert_eq!(sample_width(1), Some(2)); // i16
    assert_eq!(sample_width(2), Some(4)); // 24-bit carried in 32
    assert_eq!(sample_width(3), Some(4)); // i32
    assert_eq!(sample_width(4), Some(8)); // i64
    assert_eq!(sample_width(9), Some(4)); // f32
    assert_eq!(sample_width(10), Some(8)); // f64
    assert_eq!(sample_width(11), None);
}

#[test]
fn render_underrun_silence_policy() {
    let mut r = ByteRing::new(8);
    let mut p = UnderrunPolicy::Silence;
    let out = render_block(&mut r, 2, 1, &mut p);
    assert_eq!(out, vec![Decoded::Silence]);
}

#[test]
fn render_underrun_noise_policy() {
    let mut r = ByteRing::new(8);
    let mut p = UnderrunPolicy::Noise(1);
    let out = render_block(&mut r, 2, 2, &mut p);
    let n1 = noise_step(1);
    let n2 = noise_step(n1);
    assert_eq!(out, vec![Decoded::Noise(n1), Decoded::Noise(n2)]);
    assert_eq!(p, UnderrunPolicy::Noise(n2));
}

#[test]
fn render_decodes_then_falls_back() {
    let mut r = ByteRing::new(8);
    r.push(&[0x34, 0x12, 0xAB]);
    let mut p = UnderrunPolicy::Silence;
    let out = render_block(&mut r, 2, 3, &mut p);
    assert_eq!(out, vec![Decoded::Int(0x1234), Decoded::Silence, Decoded::Silence]);
    // The short chunk's leftover byte was consumed and discarded.
    assert_eq!(r.len(), 0);
}
