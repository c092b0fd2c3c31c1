//! Stream-configuration enumeration: of the configuration ranges a
//! device reports, only those with a ranged buffer-size policy are kept;
//! ranges with an unknown policy are dropped. The surviving records are
//! returned to the host as a flat buffer of fixed-size records.

use vstd::prelude::*;
use crate::registry::RawConfig;

verus! {

/// Size in bytes of one encoded configuration record.
pub const CONFIG_RECORD_BYTES: usize = 24;

/// One reported configuration range, with a known buffer-size range.
#[derive(Clone, Copy, Debug, PartialEq, Eq, Structural)]
pub struct StreamConfig {
    pub sample_format: u8,
    pub min_sample_rate: u32,
    pub max_sample_rate: u32,
    pub min_buf_size: u32,
    pub max_buf_size: u32,
    pub channels: u16,
}

/// The record kept for a raw range whose buffer-size policy is ranged.
pub open spec fn record_of(c: RawConfig) -> StreamConfig
    recommends
        c.buffer is Some,
{
    StreamConfig {
        sample_format: c.sample_format,
        min_sample_rate: c.min_sample_rate,
        max_sample_rate: c.max_sample_rate,
        min_buf_size: (c.buffer->0).0,
        max_buf_size: (c.buffer->0).1,
        channels: c.channels,
    }
}

/// The reported records: every ranged entry verbatim, in order, and
/// nothing else.
pub open spec fn ranged_configs(raw: Seq<RawConfig>) -> Seq<StreamConfig>
    decreases raw.len(),
{
    if raw.len() == 0 {
        Seq::empty()
    } else {
        let rest = ranged_configs(raw.drop_last());
        if raw.last().buffer is Some {
            rest.push(record_of(raw.last()))
        } else {
            rest
        }
    }
}

/// Keeps exactly the ranged entries, with every field verbatim.
pub fn build_configs(raw: &Vec<RawConfig>) -> (out: Vec<StreamConfig>)
    ensures
        out@ == ranged_configs(raw@),
{
    let mut out: Vec<StreamConfig> = Vec::new();
    let mut i: usize = 0;
    while i < raw.len()
        invariant
            i <= raw@.len(),
            out@ == ranged_configs(raw@.take(i as int)),
        decreases raw@.len() - i,
    {
        let c = raw[i];
        proof {
            assert(raw@.take(i + 1).drop_last() =~= raw@.take(i as int));
            assert(raw@.take(i + 1).last() == raw@[i as int]);
        }
        match c.buffer {
            Some((min_buf, max_buf)) => {
                out.push(StreamConfig {
                    sample_format: c.sample_format,
                    min_sample_rate: c.min_sample_rate,
                    max_sample_rate: c.max_sample_rate,
                    min_buf_size: min_buf,
                    max_buf_size: max_buf,
                    channels: c.channels,
                });
            },
            None => {},
        }
        i += 1;
    }
    proof {
        assert(raw@.take(raw@.len() as int) =~= raw@);
    }
    out
}

/// The four little-endian bytes of `x`.
pub open spec fn le32(x: u32) -> Seq<u8> {
    seq![
        (x % 256) as u8,
        ((x / 256) % 256) as u8,
        ((x / 65536) % 256) as u8,
        ((x / 16777216) % 256) as u8,
    ]
}

/// The two little-endian bytes of `x`.
pub open spec fn le16(x: u16) -> Seq<u8> {
    seq![(x % 256) as u8, ((x / 256) % 256) as u8]
}

/// The 24-byte wire form of one record: the format code, three bytes of
/// padding, the four rate and buffer bounds little-endian, the channel
/// count little-endian, two bytes of tail padding.
pub open spec fn encoded_record(c: StreamConfig) -> Seq<u8> {
    seq![c.sample_format, 0u8, 0u8, 0u8] + le32(c.min_sample_rate) + le32(c.max_sample_rate)
        + le32(c.min_buf_size) + le32(c.max_buf_size) + le16(c.channels) + seq![0u8, 0u8]
}

/// The wire form of a record sequence: the records' encodings in order.
pub open spec fn encoded_configs(cfgs: Seq<StreamConfig>) -> Seq<u8>
    decreases cfgs.len(),
{
    if cfgs.len() == 0 {
        Seq::empty()
    } else {
        encoded_configs(cfgs.drop_last()) + encoded_record(cfgs.last())
    }
}

/// Each record encodes to exactly `CONFIG_RECORD_BYTES` bytes.
pub proof fn lemma_encoded_configs_len(cfgs: Seq<StreamConfig>)
    ensures
        encoded_configs(cfgs).len() == CONFIG_RECORD_BYTES * cfgs.len(),
    decreases cfgs.len(),
{
    if cfgs.len() > 0 {
        lemma_encoded_configs_len(cfgs.drop_last());
    }
}

/// Appends the four little-endian bytes of `x`.
pub fn push_le32(out: &mut Vec<u8>, x: u32)
    ensures
        final(out)@ == old(out)@ + le32(x),
{
    out.push((x % 256) as u8);
    out.push(((x / 256) % 256) as u8);
    out.push(((x / 65536) % 256) as u8);
    out.push(((x / 16777216) % 256) as u8);
    proof {
        assert(out@ =~= old(out)@ + le32(x));
    }
}

/// Encodes the kept records into the flat buffer handed to the host.
pub fn encode_configs(cfgs: &Vec<StreamConfig>) -> (out: Vec<u8>)
    ensures
        out@ == encoded_configs(cfgs@),
        out@.len() == CONFIG_RECORD_BYTES * cfgs@.len(),
{
    let mut out: Vec<u8> = Vec::new();
    let mut i: usize = 0;
    while i < cfgs.len()
        invariant
            i <= cfgs@.len(),
            out@ == encoded_configs(cfgs@.take(i as int)),
        decreases cfgs@.len() - i,
    {
        let c = cfgs[i];
        proof {
            assert(cfgs@.take(i + 1).drop_last() =~= cfgs@.take(i as int));
            assert(cfgs@.take(i + 1).last() == cfgs@[i as int]);
        }
        out.push(c.sample_format);
        out.push(0);
        out.push(0);
        out.push(0);
        push_le32(&mut out, c.min_sample_rate);
        push_le32(&mut out, c.max_sample_rate);
        push_le32(&mut out, c.min_buf_size);
        push_le32(&mut out, c.max_buf_size);
        out.push((c.channels % 256) as u8);
        out.push(((c.channels / 256) % 256) as u8);
        out.push(0);
        out.push(0);
        proof {
            assert(out@ =~= encoded_configs(cfgs@.take(i as int)) + encoded_record(
                cfgs@[i as int],
            ));
        }
        i += 1;
    }
    proof {
        assert(cfgs@.take(cfgs@.len() as int) =~= cfgs@);
        lemma_encoded_configs_len(cfgs@);
    }
    out
}

} // verus!
