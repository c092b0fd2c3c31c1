//! Verified core of a capability-oriented device-driver shim for audio
//! output peripherals: device registry, driver protocol state machine,
//! capability tables, a bounded ring transport for sample bytes, and the
//! sample codec run by the render side.

pub mod captable;
pub mod codec;
pub mod configs;
pub mod names;
pub mod protocol;
pub mod registry;
pub mod ring;
pub mod stream;
pub mod value;
pub mod win;
