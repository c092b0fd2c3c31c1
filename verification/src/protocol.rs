//! Driver Protocol State Machine: probe registers every enumerated
//! device and announces it, connect validates the id and exchanges the
//! capability table (or reports failure), call dispatches a bounds-checked
//! function id and always produces exactly one call-return notification.
//!
//! All results travel as `Notification` values returned to the caller,
//! which delivers them to the host synchronously; nothing here performs
//! I/O. Every malformed host request becomes a typed error inside the
//! call-return notification instead of aborting the driver.

use vstd::prelude::*;
use crate::captable::{CapTable, audio_capability_table, is_audio_table};
use crate::codec::{Decoded, UnderrunPolicy, sample_width, spec_sample_width};
use crate::configs::{build_configs, encode_configs, encoded_configs, ranged_configs};
use crate::names::{pad_bytes, padded_bytes, padded_chars, str_to_slice};
use crate::registry::{DeviceInfo, Registry};
use crate::ring::{ring_bytes, ring_capacity};
use crate::stream::{StreamTable, handle_generation, handle_index};
use crate::value::{CallError, Value};

verus! {

/// Identifies one virtual device to the host. All string fields are
/// fixed-width and null-padded; the descriptor is immutable once emitted.
pub struct DeviceDescriptor {
    /// The driver's interface identifier, 64 bytes null-padded.
    pub spec_name: Vec<u8>,
    pub vers: u32,
    /// The device's human-readable name, 256 bytes null-padded.
    pub human: Vec<u8>,
    /// The driver's human-readable name, 256 bytes null-padded.
    pub driver_human: Vec<u8>,
    pub pref: u8,
    pub host_id: u32,
    pub vdev_id: u64,
}

/// The one channel from driver to host: every result and asynchronous
/// event is delivered as exactly one of these records.
pub enum Notification {
    /// One device discovered during probing.
    Attach { vdev: DeviceDescriptor },
    /// A connect succeeded; carries the freshly built capability table.
    Conn { cookie: u64, conn_id: u64, table: CapTable },
    /// A connect referenced an id the registry does not hold.
    ConnFail { cookie: u64 },
    /// The outcome of one `call`, success or typed error.
    CallRet { cookie: u64, conn_id: u64, ret: Result<Value, CallError> },
    /// An asynchronous interrupt with its opaque payload.
    Interrupt { ino: u32, data: Vec<u8> },
}

/// Descriptor `d` announces the device named `name` under id `id`.
pub open spec fn descriptor_is(d: DeviceDescriptor, host_id: u32, id: u64, name: Seq<u8>) -> bool {
    &&& d.spec_name@ == padded_chars("aquabsd.black.audio"@, 64)
    &&& d.vers == 0
    &&& d.human@ == padded_bytes(name, 256)
    &&& d.driver_human@ == padded_chars(
        "Rust CPAL audio driver for FreeBSD, Linux, and macOS"@,
        256,
    )
    &&& d.pref == 0
    &&& d.host_id == host_id
    &&& d.vdev_id == id
}

/// Notification `n` announces the device named `name` under id `id`.
pub open spec fn attach_is(n: Notification, host_id: u32, id: u64, name: Seq<u8>) -> bool {
    n matches Notification::Attach { vdev } && descriptor_is(vdev, host_id, id, name)
}

/// The payload of a `U8` value.
pub open spec fn as_u8(v: Value) -> u8 {
    match v {
        Value::U8(x) => x,
        _ => 0,
    }
}

/// The payload of a `U16` value.
pub open spec fn as_u16(v: Value) -> u16 {
    match v {
        Value::U16(x) => x,
        _ => 0,
    }
}

/// The payload of a `U32` value.
pub open spec fn as_u32(v: Value) -> u32 {
    match v {
        Value::U32(x) => x,
        _ => 0,
    }
}

/// The payload of an `OpaquePtr` value.
pub open spec fn as_ptr(v: Value) -> u64 {
    match v {
        Value::OpaquePtr(x) => x,
        _ => 0,
    }
}

/// The payload of a `Buf` value.
pub open spec fn as_buf(v: Value) -> Seq<u8> {
    match v {
        Value::Buf(b) => b@,
        _ => Seq::empty(),
    }
}

/// The argument list declared for `open_stream`.
pub open spec fn open_args_ok(args: Seq<Value>) -> bool {
    &&& args.len() == 5
    &&& args[0] is U8
    &&& args[1] is U16
    &&& args[2] is U32
    &&& args[3] is U32
    &&& args[4] is U32
}

/// The argument list declared for `write`.
pub open spec fn write_args_ok(args: Seq<Value>) -> bool {
    &&& args.len() == 2
    &&& args[0] is OpaquePtr
    &&& args[1] is Buf
}

/// The argument list declared for `play`.
pub open spec fn play_args_ok(args: Seq<Value>) -> bool {
    &&& args.len() == 1
    &&& args[0] is OpaquePtr
}

/// The driver context: the Device Registry, the stream handle table, the
/// host-assigned identity, and the configured underrun policy for new
/// streams. One context is built at load time and owns all driver state.
pub struct DriverContext {
    host_id: u32,
    registry: Registry,
    streams: StreamTable,
    default_policy: UnderrunPolicy,
}

impl DriverContext {
    /// The host id announced in every descriptor.
    pub closed spec fn spec_host_id(&self) -> u32 {
        self.host_id
    }

    /// The device registry.
    pub closed spec fn spec_registry(&self) -> Registry {
        self.registry
    }

    /// The stream handle table.
    pub closed spec fn spec_streams(&self) -> StreamTable {
        self.streams
    }

    /// The underrun policy given to newly opened streams.
    pub closed spec fn spec_policy(&self) -> UnderrunPolicy {
        self.default_policy
    }

    /// Well-formedness of all owned state.
    pub open spec fn wf(&self) -> bool {
        &&& self.spec_registry().well_formed()
        &&& self.spec_streams().wf()
    }


    /// How many devices the registry holds.
    pub fn device_count(&self) -> (n: usize)
        ensures
            n == self.spec_registry().spec_devices().len(),
    {
        self.registry.len()
    }

    /// The low watermark device ids are assigned from.
    pub fn id_low_watermark(&self) -> (lo: u64)
        ensures
            lo == self.spec_registry().spec_lo(),
    {
        self.registry.lo_watermark()
    }

    /// A fresh context. Device ids will be assigned from `vdev_id_lo`;
    /// `default_policy` decides what underruns sound like.
    pub fn new(host_id: u32, vdev_id_lo: u64, default_policy: UnderrunPolicy) -> (ctx:
        DriverContext)
        ensures
            ctx.wf(),
            ctx.spec_host_id() == host_id,
            ctx.spec_registry().spec_lo() == vdev_id_lo,
            ctx.spec_registry().spec_devices() =~= Seq::<DeviceInfo>::empty(),
            ctx.spec_streams().spec_slots() =~= Seq::<crate::stream::StreamSlot>::empty(),
            ctx.spec_policy() == default_policy,
    {
        DriverContext {
            host_id,
            registry: Registry::new(vdev_id_lo),
            streams: StreamTable::new(),
            default_policy,
        }
    }

    /// Probe: registers every enumerated device under the next free ids,
    /// in order, and returns one attach notification per device. Device
    /// names carry at most 255 bytes (the descriptor field holds 256 with
    /// a terminating null).
    pub fn probe(&mut self, devices: Vec<DeviceInfo>) -> (out: Vec<Notification>)
        requires
            old(self).wf(),
            forall|i: int|
                0 <= i < devices@.len() ==> (#[trigger] devices@[i]).name@.len() <= 255,
            old(self).spec_registry().spec_lo() + old(self).spec_registry().spec_devices().len()
                + devices@.len() < u64::MAX,
        ensures
            final(self).wf(),
            final(self).spec_host_id() == old(self).spec_host_id(),
            final(self).spec_policy() == old(self).spec_policy(),
            final(self).spec_streams() == old(self).spec_streams(),
            final(self).spec_registry().spec_lo() == old(self).spec_registry().spec_lo(),
            final(self).spec_registry().spec_devices() == old(
                self,
            ).spec_registry().spec_devices() + devices@,
            out@.len() == devices@.len(),
            forall|i: int|
                0 <= i < devices@.len() ==> attach_is(
                    #[trigger] out@[i],
                    old(self).spec_host_id(),
                    (old(self).spec_registry().spec_lo() + old(
                        self,
                    ).spec_registry().spec_devices().len() + i) as u64,
                    devices@[i].name@,
                ),
    {
        let ghost devs0 = devices@;
        let ghost reg0 = self.registry;
        let mut devices = devices;
        let mut out: Vec<Notification> = Vec::new();
        let ghost k: int = 0;
        while devices.len() > 0
            invariant
                self.streams == old(self).spec_streams(),
                self.host_id == old(self).spec_host_id(),
                self.default_policy == old(self).spec_policy(),
                k == devs0.len() - devices@.len(),
                0 <= k <= devs0.len(),
                devices@ == devs0.skip(k),
                forall|i: int| 0 <= i < devs0.len() ==> (#[trigger] devs0[i]).name@.len() <= 255,
                reg0.spec_lo() + devs0.len() + reg0.spec_devices().len() < u64::MAX,
                self.registry.spec_lo() == reg0.spec_lo(),
                self.registry.spec_devices() == reg0.spec_devices() + devs0.take(k),
                out@.len() == k,
                forall|i: int|
                    0 <= i < k ==> attach_is(
                        #[trigger] out@[i],
                        self.host_id,
                        (reg0.spec_lo() + reg0.spec_devices().len() + i) as u64,
                        devs0[i].name@,
                    ),
            decreases devices@.len(),
        {
            proof {
                assert(devices@[0] == devs0[k]);
            }
            let d = devices.remove(0);
            let human = pad_bytes(d.name.as_slice(), 256);
            let id = self.registry.register(d);
            proof {
                reveal_strlit("aquabsd.black.audio");
                reveal_strlit("Rust CPAL audio driver for FreeBSD, Linux, and macOS");
            }
            let descr = DeviceDescriptor {
                spec_name: str_to_slice("aquabsd.black.audio", 64),
                vers: 0,
                human,
                driver_human: str_to_slice(
                    "Rust CPAL audio driver for FreeBSD, Linux, and macOS",
                    256,
                ),
                pref: 0,
                host_id: self.host_id,
                vdev_id: id,
            };
            out.push(Notification::Attach { vdev: descr });
            proof {
                k = k + 1;
                assert(devs0.take(k).drop_last() =~= devs0.take(k - 1));
                assert(devs0.take(k).last() == devs0[k - 1]);
                assert(self.registry.spec_devices() =~= reg0.spec_devices() + devs0.take(k));
                assert(devices@ =~= devs0.skip(k));
            }
        }
        proof {
            assert(devs0.take(devs0.len() as int) =~= devs0);
        }
        out
    }

    /// Connect: looks the id up and answers with exactly one
    /// notification. A miss is reported as a connect failure carrying the
    /// cookie; a hit carries the connection id, the cookie and the
    /// freshly rebuilt audio capability table.
    pub fn connect(&self, cookie: u64, vdev_id: u64, conn_id: u64) -> (n: Notification)
        requires
            self.wf(),
        ensures
            !self.spec_registry().contains_id(vdev_id) ==> n == (Notification::ConnFail { cookie }),
            self.spec_registry().contains_id(vdev_id) ==> (n matches Notification::Conn {
                cookie: c,
                conn_id: ci,
                table,
            } && c == cookie && ci == conn_id && is_audio_table(table)),
    {
        match self.registry.lookup(vdev_id) {
            None => Notification::ConnFail { cookie },
            Some(_) => Notification::Conn { cookie, conn_id, table: audio_capability_table() },
        }
    }

    /// Call: dispatches the bounds-checked function id and wraps the
    /// outcome in exactly one call-return notification carrying the
    /// cookie and connection id.
    pub fn call(
        &mut self,
        cookie: u64,
        vdev_id: u64,
        conn_id: u64,
        fn_id: u64,
        args: &Vec<Value>,
    ) -> (n: Notification)
        requires
            old(self).wf(),
        ensures
            final(self).wf(),
            n matches Notification::CallRet { cookie: c, conn_id: ci, ret } && c == cookie && ci
                == conn_id && call_post(*old(self), *final(self), vdev_id, fn_id, args@, ret),
    {
        let ret = self.dispatch(vdev_id, fn_id, args);
        Notification::CallRet { cookie, conn_id, ret }
    }

    /// Dispatch: the function id indexes the capability table; out of
    /// range is a typed error, never undefined behavior.
    pub fn dispatch(&mut self, vdev_id: u64, fn_id: u64, args: &Vec<Value>) -> (ret: Result<
        Value,
        CallError,
    >)
        requires
            old(self).wf(),
        ensures
            final(self).wf(),
            call_post(*old(self), *final(self), vdev_id, fn_id, args@, ret),
    {
        if fn_id == 0 {
            self.op_get_configs(vdev_id, args)
        } else if fn_id == 1 {
            self.op_open_stream(vdev_id, args)
        } else if fn_id == 2 {
            self.op_write(args)
        } else if fn_id == 3 {
            self.op_play(args)
        } else {
            Err(CallError::NoSuchFunction)
        }
    }

    /// Reports the device's ranged output configurations as the flat
    /// record buffer the host expects.
    fn op_get_configs(&self, vdev_id: u64, args: &Vec<Value>) -> (ret: Result<Value, CallError>)
        requires
            self.wf(),
        ensures
            get_configs_post(*self, *self, vdev_id, args@, ret),
    {
        match self.registry.lookup(vdev_id) {
            None => Err(CallError::UnknownDevice),
            Some(dev) => {
                if args.len() != 0 {
                    Err(CallError::BadArgument)
                } else {
                    let cfgs = build_configs(&dev.raw_configs);
                    Ok(Value::Buf(encode_configs(&cfgs)))
                }
            },
        }
    }

    /// Opens a stream on the device: validates the format code, sizes the
    /// ring as frames times sample width, and returns the opaque handle.
    fn op_open_stream(&mut self, vdev_id: u64, args: &Vec<Value>) -> (ret: Result<
        Value,
        CallError,
    >)
        requires
            old(self).wf(),
        ensures
            final(self).wf(),
            open_stream_post(*old(self), *final(self), vdev_id, args@, ret),
    {
        if self.registry.lookup(vdev_id).is_none() {
            return Err(CallError::UnknownDevice);
        }
        if args.len() != 5 {
            return Err(CallError::BadArgument);
        }
        let fmt: u8 = match &args[0] {
            Value::U8(x) => *x,
            _ => {
                return Err(CallError::BadArgument);
            },
        };
        let channels: u16 = match &args[1] {
            Value::U16(x) => *x,
            _ => {
                return Err(CallError::BadArgument);
            },
        };
        let sample_rate: u32 = match &args[2] {
            Value::U32(x) => *x,
            _ => {
                return Err(CallError::BadArgument);
            },
        };
        let buffer_frames: u32 = match &args[3] {
            Value::U32(x) => *x,
            _ => {
                return Err(CallError::BadArgument);
            },
        };
        let ring_frames: u32 = match &args[4] {
            Value::U32(x) => *x,
            _ => {
                return Err(CallError::BadArgument);
            },
        };
        let width: u8 = match sample_width(fmt) {
            Some(w) => w,
            None => {
                return Err(CallError::UnsupportedFormat);
            },
        };
        if ring_frames == 0 {
            return Err(CallError::InvalidRingSize);
        }
        proof {
            assert(width <= 8);
            vstd::arithmetic::mul::lemma_mul_upper_bound(
                ring_frames as int,
                0xFFFF_FFFF,
                width as int,
                8,
            );
            assert(ring_frames as int * width as int >= 1) by (nonlinear_arith)
                requires
                    ring_frames >= 1,
                    width >= 1,
            ;
        }
        let bytes64: u64 = ring_frames as u64 * width as u64;
        if bytes64 > usize::MAX as u64 {
            return Err(CallError::InvalidRingSize);
        }
        let cap = bytes64 as usize;
        match self.streams.open(
            fmt,
            channels,
            sample_rate,
            buffer_frames,
            cap,
            self.default_policy,
        ) {
            Ok(h) => Ok(Value::OpaquePtr(h)),
            Err(e) => Err(e),
        }
    }

    /// Pushes the buffer's bytes into the stream's ring transport; a full
    /// ring drops the excess rather than blocking the host's call.
    fn op_write(&mut self, args: &Vec<Value>) -> (ret: Result<Value, CallError>)
        requires
            old(self).wf(),
        ensures
            final(self).wf(),
            write_post(*old(self), *final(self), args@, ret),
    {
        if args.len() != 2 {
            return Err(CallError::BadArgument);
        }
        let h: u64 = match &args[0] {
            Value::OpaquePtr(x) => *x,
            _ => {
                return Err(CallError::BadArgument);
            },
        };
        match &args[1] {
            Value::Buf(data) => {
                match self.streams.write(h, data.as_slice()) {
                    Ok(_) => Ok(Value::Void),
                    Err(e) => Err(e),
                }
            },
            _ => Err(CallError::BadArgument),
        }
    }

    /// Marks the stream as playing.
    fn op_play(&mut self, args: &Vec<Value>) -> (ret: Result<Value, CallError>)
        requires
            old(self).wf(),
        ensures
            final(self).wf(),
            play_post(*old(self), *final(self), args@, ret),
    {
        if args.len() != 1 {
            return Err(CallError::BadArgument);
        }
        let h: u64 = match &args[0] {
            Value::OpaquePtr(x) => *x,
            _ => {
                return Err(CallError::BadArgument);
            },
        };
        match self.streams.play(h) {
            Ok(_) => Ok(Value::Void),
            Err(e) => Err(e),
        }
    }

    /// Closes a stream explicitly, invalidating its handle for good.
    pub fn close_stream(&mut self, h: u64) -> (r: Result<(), CallError>)
        requires
            old(self).wf(),
        ensures
            final(self).wf(),
            final(self).spec_registry() == old(self).spec_registry(),
            final(self).spec_host_id() == old(self).spec_host_id(),
            final(self).spec_policy() == old(self).spec_policy(),
            match r {
                Ok(_) => {
                    &&& old(self).spec_streams().valid_handle(h)
                    &&& !final(self).spec_streams().valid_handle(h)
                    &&& final(self).spec_streams().spec_slots().len() == old(
                        self,
                    ).spec_streams().spec_slots().len()
                    &&& forall|j: int|
                        0 <= j < old(self).spec_streams().spec_slots().len() && j != handle_index(h)
                            ==> final(self).spec_streams().spec_slots()[j] == old(
                            self,
                        ).spec_streams().spec_slots()[j]
                },
                Err(e) => {
                    &&& e == CallError::BadHandle
                    &&& !old(self).spec_streams().valid_handle(h)
                    &&& *final(self) == *old(self)
                },
            },
    {
        self.streams.close(h)
    }

    /// Renders output samples from a stream's ring through the Sample
    /// Codec; this is the operation the hardware render callback drives.
    pub fn render_samples(&mut self, h: u64, count: usize) -> (r: Result<Vec<Decoded>, CallError>)
        requires
            old(self).wf(),
        ensures
            final(self).wf(),
            final(self).spec_registry() == old(self).spec_registry(),
            match r {
                Ok(out) => {
                    &&& old(self).spec_streams().valid_handle(h)
                    &&& out@.len() == count
                    &&& render_post(
                        old(self).spec_streams(),
                        final(self).spec_streams(),
                        h,
                        count as int,
                        out@,
                    )
                },
                Err(e) => {
                    &&& e == CallError::BadHandle
                    &&& !old(self).spec_streams().valid_handle(h)
                    &&& *final(self) == *old(self)
                },
            },
    {
        self.streams.render(h, count)
    }
}

/// What rendering `count` slots from the stream behind `h` did: full
/// chunks decode in order, the tail is filled by the policy, the policy
/// state advances, and every other slot is untouched.
pub open spec fn render_post(
    t0: StreamTable,
    t1: StreamTable,
    h: u64,
    count: int,
    out: Seq<Decoded>,
) -> bool {
    let i = handle_index(h);
    let s0 = t0.spec_slots()[i];
    let s1 = t1.spec_slots()[i];
    let w = spec_sample_width(s0.sample_format);
    let q = ring_bytes(s0.ring);
    let full = crate::codec::full_slots(q.len() as int, w, count);
    &&& t1.valid_handle(h)
    &&& t1.spec_slots().len() == t0.spec_slots().len()
    &&& forall|j: int|
        0 <= j < t0.spec_slots().len() && j != i ==> t1.spec_slots()[j] == t0.spec_slots()[j]
    &&& forall|k: int|
        0 <= k < full ==> out[k] == crate::codec::decoded_of(#[trigger] q.subrange(k * w, k * w + w))
    &&& forall|k: int| full <= k < count ==> out[k] == crate::codec::fallback_at(s0.policy, k - full)
    &&& s1.policy == crate::codec::policy_after(s0.policy, count - full)
    &&& ring_bytes(s1.ring) == q.skip(crate::codec::consumed_bytes(q.len() as int, w, count))
    &&& ring_capacity(s1.ring) == ring_capacity(s0.ring)
}

/// What one dispatched call did, by function id: out-of-range ids change
/// nothing and report `NoSuchFunction`; each valid id behaves as its
/// operation's postcondition says.
pub open spec fn call_post(
    o: DriverContext,
    f: DriverContext,
    vdev_id: u64,
    fn_id: u64,
    args: Seq<Value>,
    ret: Result<Value, CallError>,
) -> bool {
    &&& fn_id >= 4 ==> f == o && (ret matches Err(e) && e == CallError::NoSuchFunction)
    &&& fn_id == 0 ==> get_configs_post(o, f, vdev_id, args, ret)
    &&& fn_id == 1 ==> open_stream_post(o, f, vdev_id, args, ret)
    &&& fn_id == 2 ==> write_post(o, f, args, ret)
    &&& fn_id == 3 ==> play_post(o, f, args, ret)
}

/// `get_configs`: never changes state; reports the device's ranged
/// configurations, encoded, or the exact typed error.
pub open spec fn get_configs_post(
    o: DriverContext,
    f: DriverContext,
    vdev_id: u64,
    args: Seq<Value>,
    ret: Result<Value, CallError>,
) -> bool {
    &&& f == o
    &&& if !o.spec_registry().contains_id(vdev_id) {
        (ret matches Err(e) && e == CallError::UnknownDevice)
    } else if args.len() != 0 {
        (ret matches Err(e) && e == CallError::BadArgument)
    } else {
        ret matches Ok(v) && (v matches Value::Buf(b) && b@ == encoded_configs(
            ranged_configs(o.spec_registry().spec_lookup(vdev_id).raw_configs@),
        ))
    }
}

/// `open_stream`: on success a fresh, independent stream slot exists
/// with an empty ring of exactly `ring_frames` times the sample width
/// bytes; every failure is the exact typed error and changes nothing.
pub open spec fn open_stream_post(
    o: DriverContext,
    f: DriverContext,
    vdev_id: u64,
    args: Seq<Value>,
    ret: Result<Value, CallError>,
) -> bool {
    if !o.spec_registry().contains_id(vdev_id) {
        f == o && (ret matches Err(e) && e == CallError::UnknownDevice)
    } else if !open_args_ok(args) {
        f == o && (ret matches Err(e) && e == CallError::BadArgument)
    } else {
        let fmt = as_u8(args[0]);
        let ring_frames = as_u32(args[4]);
        if fmt > 10 {
            f == o && (ret matches Err(e) && e == CallError::UnsupportedFormat)
        } else if ring_frames == 0 || ring_frames * spec_sample_width(fmt) > usize::MAX {
            f == o && (ret matches Err(e) && e == CallError::InvalidRingSize)
        } else if o.spec_streams().spec_slots().len() >= 0xFFFF_FFFF {
            f == o && (ret matches Err(e) && e == CallError::TooManyStreams)
        } else {
            &&& f.spec_registry() == o.spec_registry()
            &&& f.spec_host_id() == o.spec_host_id()
            &&& f.spec_policy() == o.spec_policy()
            &&& ret matches Ok(v) && (v matches Value::OpaquePtr(h) && {
                let slots0 = o.spec_streams().spec_slots();
                let slots1 = f.spec_streams().spec_slots();
                let s = slots1.last();
                &&& slots1.len() == slots0.len() + 1
                &&& forall|j: int| 0 <= j < slots0.len() ==> slots1[j] == slots0[j]
                &&& handle_index(h) == slots0.len()
                &&& handle_generation(h) == 1
                &&& f.spec_streams().valid_handle(h)
                &&& s.sample_format == fmt
                &&& s.channels == as_u16(args[1])
                &&& s.sample_rate == as_u32(args[2])
                &&& s.buffer_frames == as_u32(args[3])
                &&& !s.playing
                &&& s.policy == o.spec_policy()
                &&& ring_bytes(s.ring) == Seq::<u8>::empty()
                &&& ring_capacity(s.ring) == ring_frames * spec_sample_width(fmt)
            })
        }
    }
}

/// `write`: pushes as many bytes as fit into exactly the addressed
/// stream's ring; every other slot and all other state are untouched.
pub open spec fn write_post(
    o: DriverContext,
    f: DriverContext,
    args: Seq<Value>,
    ret: Result<Value, CallError>,
) -> bool {
    if !write_args_ok(args) {
        f == o && (ret matches Err(e) && e == CallError::BadArgument)
    } else {
        let h = as_ptr(args[0]);
        let data = as_buf(args[1]);
        if !o.spec_streams().valid_handle(h) {
            f == o && (ret matches Err(e) && e == CallError::BadHandle)
        } else {
            let i = handle_index(h);
            let s0 = o.spec_streams().spec_slots()[i];
            let s1 = f.spec_streams().spec_slots()[i];
            &&& ret matches Ok(v) && v is Void
            &&& f.spec_registry() == o.spec_registry()
            &&& f.spec_host_id() == o.spec_host_id()
            &&& f.spec_policy() == o.spec_policy()
            &&& f.spec_streams().valid_handle(h)
            &&& f.spec_streams().spec_slots().len() == o.spec_streams().spec_slots().len()
            &&& forall|j: int|
                0 <= j < o.spec_streams().spec_slots().len() && j != i
                    ==> f.spec_streams().spec_slots()[j] == o.spec_streams().spec_slots()[j]
            &&& ring_bytes(s1.ring) == crate::ring::ring_after_push(
                ring_bytes(s0.ring),
                ring_capacity(s0.ring),
                data,
            )
            &&& ring_capacity(s1.ring) == ring_capacity(s0.ring)
            &&& s1 == (crate::stream::StreamSlot { ring: s1.ring, ..s0 })
        }
    }
}

/// `play`: marks exactly the addressed stream as playing.
pub open spec fn play_post(
    o: DriverContext,
    f: DriverContext,
    args: Seq<Value>,
    ret: Result<Value, CallError>,
) -> bool {
    if !play_args_ok(args) {
        f == o && (ret matches Err(e) && e == CallError::BadArgument)
    } else {
        let h = as_ptr(args[0]);
        if !o.spec_streams().valid_handle(h) {
            f == o && (ret matches Err(e) && e == CallError::BadHandle)
        } else {
            let i = handle_index(h);
            &&& ret matches Ok(v) && v is Void
            &&& f.spec_registry() == o.spec_registry()
            &&& f.spec_host_id() == o.spec_host_id()
            &&& f.spec_policy() == o.spec_policy()
            &&& f.spec_streams().spec_slots().len() == o.spec_streams().spec_slots().len()
            &&& forall|j: int|
                0 <= j < o.spec_streams().spec_slots().len() && j != i
                    ==> f.spec_streams().spec_slots()[j] == o.spec_streams().spec_slots()[j]
            &&& f.spec_streams().spec_slots()[i] == (crate::stream::StreamSlot {
                playing: true,
                ..o.spec_streams().spec_slots()[i]
            })
        }
    }
}

/// Stream isolation on write: a write through one handle leaves every
/// other stream's slot, and so its ring, exactly as it was.
pub proof fn lemma_write_isolated(
    o: DriverContext,
    f: DriverContext,
    args: Seq<Value>,
    ret: Result<Value, CallError>,
    h2: u64,
)
    requires
        write_post(o, f, args, ret),
        write_args_ok(args),
        o.spec_streams().valid_handle(as_ptr(args[0])),
        o.spec_streams().valid_handle(h2),
        h2 != as_ptr(args[0]),
    ensures
        f.spec_streams().spec_slots()[handle_index(h2)] == o.spec_streams().spec_slots()[
            handle_index(h2)
        ],
{
    crate::stream::lemma_distinct_handles_distinct_slots(
        &o.spec_streams(),
        as_ptr(args[0]),
        h2,
    );
}

/// Stream independence on open: a successfully opened stream sits in a
/// slot no existing handle names, with its own empty ring; every stream
/// that existed before is untouched.
pub proof fn lemma_open_gives_fresh_stream(
    o: DriverContext,
    f: DriverContext,
    vdev_id: u64,
    args: Seq<Value>,
    ret: Result<Value, CallError>,
    h2: u64,
)
    requires
        open_stream_post(o, f, vdev_id, args, ret),
        ret matches Ok(v) && v is OpaquePtr,
        o.spec_streams().valid_handle(h2),
    ensures
        handle_index(h2) != handle_index(as_ptr(ret->Ok_0)),
        f.spec_streams().spec_slots()[handle_index(h2)] == o.spec_streams().spec_slots()[
            handle_index(h2)
        ],
        f.spec_streams().valid_handle(h2),
{
}

} // verus!
