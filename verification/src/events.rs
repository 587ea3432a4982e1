//! The events that the editor hands to its tools.
use vstd::prelude::*;

verus! {

/// What the mouse did.
#[derive(Clone, Copy, Debug, PartialEq, Eq, Structural)]
pub enum MouseEventType {
    Pressed,
    DoubleClick,
    Released,
    Moved,
}

/// An event that the editor hands to a tool: a mouse event, with the mouse position
/// (`P`), or any other event (keys, commands, scrolling).
#[derive(Clone, Copy, Debug)]
pub enum EditorEvent<P> {
    MouseEvent { event_type: MouseEventType, position: P },
    Other,
}

} // verus!
