//! The value encoding shared by the protocol: a tagged union over the
//! integer widths the host can pass, float bit patterns, an opaque
//! handle, and a byte-buffer view, together with the matching type tags
//! and the typed errors a call can report.

use vstd::prelude::*;

verus! {

/// Type tag of a constant, parameter or return value, as declared in a
/// capability table.
#[derive(Clone, Copy, Debug, PartialEq, Eq, Structural)]
pub enum TypeTag {
    Void,
    U8,
    U16,
    U32,
    U64,
    I8,
    I16,
    I32,
    I64,
    F32,
    F64,
    OpaquePtr,
    Buf,
}

/// One value crossing the protocol boundary. Floating-point values are
/// carried as their raw little-endian bit patterns; only the unverified
/// rim reinterprets them as floats.
#[derive(Debug)]
pub enum Value {
    Void,
    U8(u8),
    U16(u16),
    U32(u32),
    U64(u64),
    I8(i8),
    I16(i16),
    I32(i32),
    I64(i64),
    F32Bits(u32),
    F64Bits(u64),
    OpaquePtr(u64),
    Buf(Vec<u8>),
}

/// Why a `call` could not be carried out. Every variant is reported back
/// through the call-return notification instead of aborting the driver.
#[derive(Clone, Copy, Debug, PartialEq, Eq, Structural)]
pub enum CallError {
    /// The function id is not an index into the capability table.
    NoSuchFunction,
    /// The virtual-device id was never registered.
    UnknownDevice,
    /// An argument is missing or carries the wrong type tag.
    BadArgument,
    /// The requested sample format is not one of the published codes.
    UnsupportedFormat,
    /// The requested ring size is zero or its byte count overflows.
    InvalidRingSize,
    /// The stream table cannot hold another stream.
    TooManyStreams,
    /// The opaque stream handle does not name a live stream.
    BadHandle,
}

} // verus!
