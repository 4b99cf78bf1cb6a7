//! The host GUI's input-event taxonomy as the adapter sees it, and the
//! adapter's answers back to the host: an event status and a cursor kind.

use vstd::prelude::*;

verus! {

/// Which member of the host's input taxonomy an event belongs to.
#[derive(Clone, Copy, Debug, PartialEq, Eq, Structural)]
pub enum InputKind {
    Pointer,
    Keyboard,
    Touch,
    RedrawRequested,
}

/// One input event: its taxonomy member plus an opaque identifier standing
/// for whatever payload the host attached (position, key code, timestamp).
#[derive(Clone, Copy, Debug, PartialEq, Eq, Structural)]
pub struct InputEvent {
    pub kind: InputKind,
    pub payload: u64,
}

/// Whether the adapter consumed an event or lets it propagate further in the
/// host's dispatch.
#[derive(Clone, Copy, Debug, PartialEq, Eq, Structural)]
pub enum EventStatus {
    Captured,
    Ignored,
}

/// The cursor kind the adapter reports over its bounds.
#[derive(Clone, Copy, Debug, PartialEq, Eq, Structural)]
pub enum CursorKind {
    Idle,
    Pointer,
}

} // verus!
