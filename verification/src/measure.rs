//! The measuring tool: while the mouse button is held it measures the distance from
//! where the button went down to the mouse.
use vstd::prelude::*;
use crate::events::{EditorEvent, MouseEventType};

verus! {

/// The measuring tool. `P` is a point on the canvas.
#[derive(Clone, Debug)]
pub struct Measure<P> {
    measure_from: Option<P>,
}

impl<P> View for Measure<P> {
    type V = Option<P>;

    /// The point measured from, while the mouse button is down.
    closed spec fn view(&self) -> Option<P> {
        self.measure_from
    }
}

/// Where the tool measures from after an event: a press of the button starts a
/// measurement there, letting go ends it, and every other event leaves it as it is.
pub open spec fn measure_after<P>(from: Option<P>, event: EditorEvent<P>) -> Option<P> {
    match event {
        EditorEvent::MouseEvent { event_type: MouseEventType::Pressed, position } => Some(position),
        EditorEvent::MouseEvent { event_type: MouseEventType::Released, .. } => None,
        _ => from,
    }
}

impl<P: Copy> Measure<P> {
    /// A tool that measures nothing yet.
    pub fn new() -> (m: Self)
        ensures
            m@ is None,
    {
        Measure { measure_from: None }
    }

    /// The point the tool measures from, while the mouse button is down.
    pub fn measure_from(&self) -> (r: Option<P>)
        ensures
            r == self@,
    {
        self.measure_from
    }

    /// Hands an event to the tool.
    pub fn event(&mut self, event: EditorEvent<P>)
        ensures
            final(self)@ == measure_after(old(self)@, event),
    {
        if let EditorEvent::MouseEvent { event_type, position } = event {
            match event_type {
                MouseEventType::Pressed => self.mouse_pressed(position),
                MouseEventType::Released => self.mouse_released(),
                _ => (),
            }
        }
    }

    fn mouse_pressed(&mut self, position: P)
        ensures
            final(self)@ == Some(position),
    {
        self.measure_from = Some(position);
    }

    fn mouse_released(&mut self)
        ensures
            final(self)@ is None,
    {
        self.measure_from = None;
    }
}

/// A measurement lasts while the button is held: after a press at `p` the tool
/// measures from `p`, and once the button is let go it measures nothing, whatever it
/// measured before.
pub proof fn lemma_press_then_release<P>(from: Option<P>, p: P, q: P)
    ensures
        measure_after(
            from,
            EditorEvent::MouseEvent { event_type: MouseEventType::Pressed, position: p },
        ) == Some(p),
        measure_after(
            measure_after(
                from,
                EditorEvent::MouseEvent { event_type: MouseEventType::Pressed, position: p },
            ),
            EditorEvent::MouseEvent { event_type: MouseEventType::Released, position: q },
        ) is None,
{
}

/// Moving the mouse, double clicks and events that are not mouse events leave the point
/// measured from as it is.
pub proof fn lemma_other_events_keep_measurement<P>(from: Option<P>, p: P)
    ensures
        measure_after(
            from,
            EditorEvent::MouseEvent { event_type: MouseEventType::Moved, position: p },
        ) == from,
        measure_after(
            from,
            EditorEvent::MouseEvent { event_type: MouseEventType::DoubleClick, position: p },
        ) == from,
        measure_after(from, EditorEvent::Other) == from,
{
}

} // verus!
