//! The reusable interrupt side of the protocol, as the windowing device
//! family uses it: each interrupt kind carries an opaque payload of
//! statically known size, delivered outside the call/return cycle on an
//! interrupt channel the host registered beforehand.
//!
//! The decision taken for each windowing event is a pure function here;
//! the native event loop that produces the events is owned by the
//! windowing library and stays outside the verified core.

use vstd::prelude::*;
use crate::protocol::Notification;

verus! {

/// Interrupt kind byte: the window must be redrawn.
pub const INTR_REDRAW: u8 = 0;

/// Interrupt kind byte: the window was resized.
pub const INTR_RESIZE: u8 = 1;

/// The one-byte payload of a redraw interrupt.
pub open spec fn redraw_payload() -> Seq<u8> {
    seq![INTR_REDRAW]
}

/// The nine-byte packed payload of a resize interrupt: the kind byte,
/// then width and height, each little-endian.
pub open spec fn resize_payload(width: u32, height: u32) -> Seq<u8> {
    seq![INTR_RESIZE] + crate::configs::le32(width) + crate::configs::le32(height)
}

/// Builds the redraw interrupt notification for channel `ino`.
pub fn redraw_interrupt(ino: u32) -> (n: Notification)
    ensures
        n matches Notification::Interrupt { ino: i, data } && i == ino && data@
            == redraw_payload(),
{
    let mut data: Vec<u8> = Vec::new();
    data.push(INTR_REDRAW);
    proof {
        assert(data@ =~= redraw_payload());
    }
    Notification::Interrupt { ino, data }
}

/// Builds the resize interrupt notification for channel `ino`.
pub fn resize_interrupt(ino: u32, width: u32, height: u32) -> (n: Notification)
    ensures
        n matches Notification::Interrupt { ino: i, data } && i == ino && data@
            == resize_payload(width, height),
{
    let mut data: Vec<u8> = Vec::new();
    data.push(INTR_RESIZE);
    crate::configs::push_le32(&mut data, width);
    crate::configs::push_le32(&mut data, height);
    proof {
        assert(data@ =~= resize_payload(width, height));
    }
    Notification::Interrupt { ino, data }
}

/// One windowing event, as handed in by the native event loop.
pub enum WinEvent {
    /// The user asked to close the window.
    CloseRequested,
    /// The window took a new size, in pixels.
    Resized { width: u32, height: u32 },
    /// The window must be painted.
    RedrawRequested,
    /// Anything this driver does not react to.
    Other,
}

/// What to do in reaction to one windowing event.
pub struct WinAction {
    /// Leave the event loop.
    pub exit_loop: bool,
    /// Ask the windowing library for another redraw.
    pub request_redraw: bool,
    /// The interrupt to deliver, if an interrupt channel is registered.
    pub interrupt: Option<Notification>,
}

/// Decides the reaction to one windowing event: close requests end the
/// loop; a resize emits a resize interrupt; a redraw request emits a
/// redraw interrupt and asks for the next one. Interrupts are emitted
/// only once the host has registered a channel.
pub fn window_event_action(ev: &WinEvent, ino: Option<u32>) -> (a: WinAction)
    ensures
        a.exit_loop == ev is CloseRequested,
        a.request_redraw == ev is RedrawRequested,
        match ev {
            WinEvent::Resized { width, height } => match ino {
                Some(i) => a.interrupt matches Some(n) && (n matches Notification::Interrupt {
                    ino: ni,
                    data,
                } && ni == i && data@ == resize_payload(*width, *height)),
                None => a.interrupt is None,
            },
            WinEvent::RedrawRequested => match ino {
                Some(i) => a.interrupt matches Some(n) && (n matches Notification::Interrupt {
                    ino: ni,
                    data,
                } && ni == i && data@ == redraw_payload()),
                None => a.interrupt is None,
            },
            _ => a.interrupt is None,
        },
{
    match ev {
        WinEvent::CloseRequested => WinAction {
            exit_loop: true,
            request_redraw: false,
            interrupt: None,
        },
        WinEvent::Resized { width, height } => WinAction {
            exit_loop: false,
            request_redraw: false,
            interrupt: match ino {
                Some(i) => Some(resize_interrupt(i, *width, *height)),
                None => None,
            },
        },
        WinEvent::RedrawRequested => WinAction {
            exit_loop: false,
            request_redraw: true,
            interrupt: match ino {
                Some(i) => Some(redraw_interrupt(i)),
                None => None,
            },
        },
        WinEvent::Other => WinAction { exit_loop: false, request_redraw: false, interrupt: None },
    }
}

} // verus!
