//! Capability Table Builder and stream-configuration enumeration.

use vdriver::captable::{audio_capability_table, FnOp, NAME_BYTES};
use vdriver::configs::{build_configs, encode_configs, StreamConfig, CONFIG_RECORD_BYTES};
use vdriver::names::{pad_bytes, str_to_slice};
use vdriver::registry::RawConfig;
use vdriver::value::{TypeTag, Value};

fn padded(name: &str) -> Vec<u8> {
    let mut v = name.as_bytes().to_vec();
    while v.len() < NAME_BYTES {
        v.push(0);
    }
    v
}

#[test]
fn audio_table_counts_match_declaration() {
    let t = audio_capability_table();
    assert_eq!(t.consts.len(), 11);
    assert_eq!(t.fns.len(), 4);
}

#[test]
fn audio_table_constants_publish_format_codes() {
    let t = audio_capability_table();
    let names = [
        "SAMPLE_FORMAT_I8",
        "SAMPLE_FORMAT_I16",
        "SAMPLE_FORMAT_I24",
        "SAMPLE_FORMAT_I32",
        "SAMPLE_FORMAT_I64",
        "SAMPLE_FORMAT_U8",
        "SAMPLE_FORMAT_U16",
        "SAMPLE_FORMAT_U32",
        "SAMPLE_FORMAT_U64",
        "SAMPLE_FORMAT_F32",
        "SAMPLE_FORMAT_F64",
    ];
    for (i, name) in names.iter().enumerate() {
        let e = &t.consts[i];
        assert_eq!(e.name, padded(name));
        assert_eq!(e.type_tag, TypeTag::U8);
        assert!(matches!(e.value, Value::U8(code) if code == i as u8));
    }
}

#[test]
fn audio_table_functions_and_params() {
    let t = audio_capability_table();
    assert_eq!(t.fns[0].name, padded("get_configs"));
    assert_eq!(t.fns[0].ret_type, TypeTag::Buf);
    assert_eq!(t.fns[0].params.len(), 0);

    assert_eq!(t.fns[1].name, padded("open_stream"));
    assert_eq!(t.fns[1].ret_type, TypeTag::OpaquePtr);
    let p = &t.fns[1].params;
    assert_eq!(p.len(), 5);
    assert_eq!(p[0].name, padded("config_sample_format"));
    assert_eq!(p[0].type_tag, TypeTag::U8);
    assert_eq!(p[1].name, padded("config_channels"));
    assert_eq!(p[1].type_tag, TypeTag::U16);
    assert_eq!(p[2].name, padded("config_sample_rate"));
    assert_eq!(p[2].type_tag, TypeTag::U32);
    assert_eq!(p[3].name, padded("config_buf_size"));
    assert_eq!(p[3].type_tag, TypeTag::U32);
    assert_eq!(p[4].name, padded("ringbuf_size"));
    assert_eq!(p[4].type_tag, TypeTag::U32);

    assert_eq!(t.fns[2].name, padded("write"));
    assert_eq!(t.fns[2].ret_type, TypeTag::Void);
    assert_eq!(t.fns[2].params.len(), 2);
    assert_eq!(t.fns[2].params[0].name, padded("stream"));
    assert_eq!(t.fns[2].params[0].type_tag, TypeTag::OpaquePtr);
    assert_eq!(t.fns[2].params[1].name, padded("buf"));
    assert_eq!(t.fns[2].params[1].type_tag, TypeTag::Buf);

    assert_eq!(t.fns[3].name, padded("play"));
    assert_eq!(t.fns[3].ret_type, TypeTag::Void);
    assert_eq!(t.fns[3].params.len(), 1);
    assert_eq!(t.fns[3].params[0].name, padded("stream"));
    assert_eq!(t.fns[3].params[0].type_tag, TypeTag::OpaquePtr);
}

#[test]
fn audio_table_dispatch_is_distinct() {
    let t = audio_capability_table();
    let ops = [t.fns[0].op, t.fns[1].op, t.fns[2].op, t.fns[3].op];
    assert_eq!(ops[0], FnOp::GetConfigs);
    assert_eq!(ops[1], FnOp::OpenStream);
    assert_eq!(ops[2], FnOp::Write);
    assert_eq!(ops[3], FnOp::Play);
    for i in 0..4 {
        for j in 0..4 {
            if i != j {
                assert_ne!(ops[i], ops[j]);
            }
        }
    }
}

#[test]
fn ranged_config_kept_verbatim_unknown_dropped() {
    let raw = vec![
        RawConfig {
            sample_format: 9,
            min_sample_rate: 44100,
            max_sample_rate: 48000,
            buffer: Some((128, 2048)),
            channels: 2,
        },
        RawConfig {
            sample_format: 9,
            min_sample_rate: 44100,
            max_sample_rate: 48000,
            buffer: None,
            channels: 2,
        },
    ];
    let out = build_configs(&raw);
    assert_eq!(out.len(), 1);
    assert_eq!(
        out[0],
        StreamConfig {
            sample_format: 9,
            min_sample_rate: 44100,
            max_sample_rate: 48000,
            min_buf_size: 128,
            max_buf_size: 2048,
            channels: 2,
        }
    );
}

#[test]
fn encode_configs_record_layout() {
    let cfgs = vec![StreamConfig {
        sample_format: 9,
        min_sample_rate: 44100,
        max_sample_rate: 48000,
        min_buf_size: 128,
        max_buf_size: 2048,
        channels: 2,
    }];
    let bytes = encode_configs(&cfgs);
    assert_eq!(bytes.len(), CONFIG_RECORD_BYTES);
    assert_eq!(&bytes[0..4], &[9, 0, 0, 0]);
    assert_eq!(&bytes[4..8], &44100u32.to_le_bytes());
    assert_eq!(&bytes[8..12], &48000u32.to_le_bytes());
    assert_eq!(&bytes[12..16], &128u32.to_le_bytes());
    assert_eq!(&bytes[16..20], &2048u32.to_le_bytes());
    assert_eq!(&bytes[20..22], &2u16.to_le_bytes());
    assert_eq!(&bytes[22..24], &[0, 0]);
}

#[test]
fn encode_configs_empty_is_empty() {
    let bytes = encode_configs(&Vec::new());
    assert_eq!(bytes.len(), 0);
}

#[test]
fn str_to_slice_pads_with_nulls() {
    let v = str_to_slice("ab", 4);
    assert_eq!(v, vec![b'a', b'b', 0, 0]);
    let w = str_to_slice("", 3);
    assert_eq!(w, vec![0, 0, 0]);
}

#[test]
fn pad_bytes_pads_with_nulls() {
    let v = pad_bytes(&[1, 2, 3], 6);
    assert_eq!(v, vec![1, 2, 3, 0, 0, 0]);
}
