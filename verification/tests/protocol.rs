//! The driver protocol end to end: probe, connect, call dispatch, the
//! stream lifecycle behind opaque handles, and interrupt records.

use vdriver::codec::{noise_step, Decoded, UnderrunPolicy};
use vdriver::protocol::{DriverContext, Notification};
use vdriver::registry::{DeviceInfo, RawConfig};
use vdriver::value::{CallError, Value};
use vdriver::win::{window_event_action, WinEvent};

fn device(name: &str) -> DeviceInfo {
    DeviceInfo {
        name: name.as_bytes().to_vec(),
        raw_configs: vec![
            RawConfig {
                sample_format: 9,
                min_sample_rate: 44100,
                max_sample_rate: 48000,
                buffer: Some((128, 2048)),
                channels: 2,
            },
            RawConfig {
                sample_format: 9,
                min_sample_rate: 44100,
                max_sample_rate: 48000,
                buffer: None,
                channels: 2,
            },
        ],
    }
}

fn ctx_with_device() -> (DriverContext, u64) {
    let mut ctx = DriverContext::new(7, 5, UnderrunPolicy::Silence);
    let out = ctx.probe(vec![device("speakers")]);
    assert_eq!(out.len(), 1);
    (ctx, 5)
}

fn open_i16_stream(ctx: &mut DriverContext, vdev: u64, ring_frames: u32) -> u64 {
    let args = vec![
        Value::U8(1),
        Value::U16(1),
        Value::U32(44100),
        Value::U32(128),
        Value::U32(ring_frames),
    ];
    match ctx.dispatch(vdev, 1, &args) {
        Ok(Value::OpaquePtr(h)) => h,
        other => panic!("open_stream did not return a handle: {:?}", other),
    }
}

#[test]
fn probe_assigns_increasing_ids_from_watermark() {
    let mut ctx = DriverContext::new(7, 5, UnderrunPolicy::Silence);
    let out = ctx.probe(vec![device("front"), device("back")]);
    assert_eq!(out.len(), 2);
    for (i, n) in out.iter().enumerate() {
        match n {
            Notification::Attach { vdev } => {
                assert_eq!(vdev.vdev_id, 5 + i as u64);
                assert_eq!(vdev.host_id, 7);
                assert_eq!(vdev.vers, 0);
                assert_eq!(vdev.pref, 0);
                assert_eq!(vdev.spec_name.len(), 64);
                assert!(vdev.spec_name.starts_with(b"aquabsd.black.audio"));
                assert_eq!(vdev.spec_name[19], 0);
                assert_eq!(vdev.human.len(), 256);
                assert_eq!(vdev.driver_human.len(), 256);
            }
            other => panic!("probe emitted a non-attach notification: {:?}", kind_of(other)),
        }
    }
    match &out[0] {
        Notification::Attach { vdev } => assert!(vdev.human.starts_with(b"front")),
        _ => unreachable!(),
    }
    // A second probe continues where the first stopped.
    let out2 = ctx.probe(vec![device("third")]);
    match &out2[0] {
        Notification::Attach { vdev } => assert_eq!(vdev.vdev_id, 7),
        _ => panic!("expected an attach notification"),
    }
}

fn kind_of(n: &Notification) -> &'static str {
    match n {
        Notification::Attach { .. } => "attach",
        Notification::Conn { .. } => "conn",
        Notification::ConnFail { .. } => "conn_fail",
        Notification::CallRet { .. } => "call_ret",
        Notification::Interrupt { .. } => "interrupt",
    }
}

#[test]
fn connect_unknown_id_fails_once() {
    let (ctx, _) = ctx_with_device();
    let n = ctx.connect(9, 99, 1);
    match n {
        Notification::ConnFail { cookie } => assert_eq!(cookie, 9),
        other => panic!("expected a connect failure, got {}", kind_of(&other)),
    }
}

#[test]
fn connect_known_id_carries_table() {
    let (ctx, vdev) = ctx_with_device();
    let n = ctx.connect(11, vdev, 3);
    match n {
        Notification::Conn { cookie, conn_id, table } => {
            assert_eq!(cookie, 11);
            assert_eq!(conn_id, 3);
            assert_eq!(table.consts.len(), 11);
            assert_eq!(table.fns.len(), 4);
        }
        other => panic!("expected a connect notification, got {}", kind_of(&other)),
    }
}

#[test]
fn call_out_of_range_fn_id_is_typed_error() {
    let (mut ctx, vdev) = ctx_with_device();
    let n = ctx.call(1, vdev, 2, 4, &Vec::new());
    match n {
        Notification::CallRet { cookie, conn_id, ret } => {
            assert_eq!(cookie, 1);
            assert_eq!(conn_id, 2);
            assert_eq!(ret.unwrap_err(), CallError::NoSuchFunction);
        }
        other => panic!("expected a call return, got {}", kind_of(&other)),
    }
}

#[test]
fn get_configs_returns_encoded_ranged_records() {
    let (mut ctx, vdev) = ctx_with_device();
    match ctx.dispatch(vdev, 0, &Vec::new()) {
        Ok(Value::Buf(bytes)) => {
            // One ranged record survives; the unknown-buffer one is dropped.
            assert_eq!(bytes.len(), 24);
            assert_eq!(bytes[0], 9);
            assert_eq!(&bytes[4..8], &44100u32.to_le_bytes());
        }
        other => panic!("get_configs did not return a buffer: {:?}", other),
    }
}

#[test]
fn get_configs_unknown_device() {
    let (mut ctx, _) = ctx_with_device();
    assert_eq!(ctx.dispatch(42, 0, &Vec::new()).unwrap_err(), CallError::UnknownDevice);
}

#[test]
fn get_configs_rejects_extra_args() {
    let (mut ctx, vdev) = ctx_with_device();
    let args = vec![Value::U8(0)];
    assert_eq!(ctx.dispatch(vdev, 0, &args).unwrap_err(), CallError::BadArgument);
}

#[test]
fn open_stream_rejects_unknown_format() {
    let (mut ctx, vdev) = ctx_with_device();
    let args = vec![
        Value::U8(11),
        Value::U16(2),
        Value::U32(44100),
        Value::U32(128),
        Value::U32(64),
    ];
    assert_eq!(ctx.dispatch(vdev, 1, &args).unwrap_err(), CallError::UnsupportedFormat);
}

#[test]
fn open_stream_rejects_zero_ring() {
    let (mut ctx, vdev) = ctx_with_device();
    let args = vec![
        Value::U8(1),
        Value::U16(2),
        Value::U32(44100),
        Value::U32(128),
        Value::U32(0),
    ];
    assert_eq!(ctx.dispatch(vdev, 1, &args).unwrap_err(), CallError::InvalidRingSize);
}

#[test]
fn open_stream_rejects_wrong_arg_types() {
    let (mut ctx, vdev) = ctx_with_device();
    let args = vec![
        Value::U32(1),
        Value::U16(2),
        Value::U32(44100),
        Value::U32(128),
        Value::U32(64),
    ];
    assert_eq!(ctx.dispatch(vdev, 1, &args).unwrap_err(), CallError::BadArgument);
}

#[test]
fn open_stream_rejects_unknown_device() {
    let (mut ctx, _) = ctx_with_device();
    let args = vec![
        Value::U8(1),
        Value::U16(2),
        Value::U32(44100),
        Value::U32(128),
        Value::U32(64),
    ];
    assert_eq!(ctx.dispatch(404, 1, &args).unwrap_err(), CallError::UnknownDevice);
}

#[test]
fn write_play_render_scenario() {
    let (mut ctx, vdev) = ctx_with_device();
    let h = open_i16_stream(&mut ctx, vdev, 4);

    let write_args = vec![Value::OpaquePtr(h), Value::Buf(vec![0x34, 0x12])];
    assert!(matches!(ctx.dispatch(vdev, 2, &write_args), Ok(Value::Void)));

    let play_args = vec![Value::OpaquePtr(h)];
    assert!(matches!(ctx.dispatch(vdev, 3, &play_args), Ok(Value::Void)));

    let out = ctx.render_samples(h, 1).unwrap();
    assert_eq!(out, vec![Decoded::Int(0x1234)]);
}

#[test]
fn write_bad_handle_is_rejected() {
    let (mut ctx, vdev) = ctx_with_device();
    let args = vec![Value::OpaquePtr(0xDEAD), Value::Buf(vec![1, 2])];
    assert_eq!(ctx.dispatch(vdev, 2, &args).unwrap_err(), CallError::BadHandle);
}

#[test]
fn play_requires_pointer_argument() {
    let (mut ctx, vdev) = ctx_with_device();
    let args = vec![Value::U64(1)];
    assert_eq!(ctx.dispatch(vdev, 3, &args).unwrap_err(), CallError::BadArgument);
}

#[test]
fn closed_handle_is_stale() {
    let (mut ctx, vdev) = ctx_with_device();
    let h = open_i16_stream(&mut ctx, vdev, 4);
    ctx.close_stream(h).unwrap();
    let args = vec![Value::OpaquePtr(h), Value::Buf(vec![1, 2])];
    assert_eq!(ctx.dispatch(vdev, 2, &args).unwrap_err(), CallError::BadHandle);
    assert_eq!(ctx.close_stream(h).unwrap_err(), CallError::BadHandle);
}

#[test]
fn identical_opens_give_independent_streams() {
    let (mut ctx, vdev) = ctx_with_device();
    let h1 = open_i16_stream(&mut ctx, vdev, 4);
    let h2 = open_i16_stream(&mut ctx, vdev, 4);
    assert_ne!(h1, h2);

    // Bytes written to the first stream never appear in the second.
    let write_args = vec![Value::OpaquePtr(h1), Value::Buf(vec![0x34, 0x12])];
    assert!(matches!(ctx.dispatch(vdev, 2, &write_args), Ok(Value::Void)));

    let out2 = ctx.render_samples(h2, 1).unwrap();
    assert_eq!(out2, vec![Decoded::Silence]);
    let out1 = ctx.render_samples(h1, 1).unwrap();
    assert_eq!(out1, vec![Decoded::Int(0x1234)]);
}

#[test]
fn overfull_write_drops_tail() {
    let (mut ctx, vdev) = ctx_with_device();
    // 4 frames of 2 bytes: the ring holds 8 bytes.
    let h = open_i16_stream(&mut ctx, vdev, 4);
    let ten_bytes = vec![1, 0, 2, 0, 3, 0, 4, 0, 5, 0];
    let write_args = vec![Value::OpaquePtr(h), Value::Buf(ten_bytes)];
    assert!(matches!(ctx.dispatch(vdev, 2, &write_args), Ok(Value::Void)));
    let out = ctx.render_samples(h, 5).unwrap();
    assert_eq!(
        out,
        vec![
            Decoded::Int(1),
            Decoded::Int(2),
            Decoded::Int(3),
            Decoded::Int(4),
            Decoded::Silence,
        ]
    );
}

#[test]
fn noise_policy_streams_emit_noise_on_underrun() {
    let mut ctx = DriverContext::new(0, 0, UnderrunPolicy::Noise(1));
    ctx.probe(vec![device("dev")]);
    let h = open_i16_stream(&mut ctx, 0, 4);
    let out = ctx.render_samples(h, 1).unwrap();
    assert_eq!(out, vec![Decoded::Noise(noise_step(1))]);
}

#[test]
fn resize_interrupt_payload_is_packed() {
    let a = window_event_action(&WinEvent::Resized { width: 3, height: 4 }, Some(2));
    assert!(!a.exit_loop);
    assert!(!a.request_redraw);
    match a.interrupt {
        Some(Notification::Interrupt { ino, data }) => {
            assert_eq!(ino, 2);
            assert_eq!(data, vec![1, 3, 0, 0, 0, 4, 0, 0, 0]);
        }
        _ => panic!("expected a resize interrupt"),
    }
}

#[test]
fn redraw_event_requests_next_redraw() {
    let a = window_event_action(&WinEvent::RedrawRequested, Some(5));
    assert!(a.request_redraw);
    match a.interrupt {
        Some(Notification::Interrupt { ino, data }) => {
            assert_eq!(ino, 5);
            assert_eq!(data, vec![0]);
        }
        _ => panic!("expected a redraw interrupt"),
    }
    // Without a registered channel no interrupt is emitted.
    let b = window_event_action(&WinEvent::RedrawRequested, None);
    assert!(b.interrupt.is_none());
}

#[test]
fn close_event_exits_loop() {
    let a = window_event_action(&WinEvent::CloseRequested, Some(1));
    assert!(a.exit_loop);
    assert!(a.interrupt.is_none());
}

#[test]
fn get_configs_resolves_the_right_device() {
    let mut ctx = DriverContext::new(0, 10, UnderrunPolicy::Silence);
    let mut second = device("hdmi");
    second.raw_configs = vec![RawConfig {
        sample_format: 1,
        min_sample_rate: 8000,
        max_sample_rate: 96000,
        buffer: Some((64, 512)),
        channels: 6,
    }];
    ctx.probe(vec![device("analog"), second]);
    match ctx.dispatch(11, 0, &Vec::new()) {
        Ok(Value::Buf(bytes)) => {
            assert_eq!(bytes.len(), 24);
            assert_eq!(bytes[0], 1);
            assert_eq!(&bytes[4..8], &8000u32.to_le_bytes());
            assert_eq!(&bytes[20..22], &6u16.to_le_bytes());
        }
        other => panic!("get_configs did not return a buffer: {:?}", other),
    }
}
