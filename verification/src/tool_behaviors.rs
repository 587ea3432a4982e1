//! Tool behaviours: parts of a tool that the editor keeps on a stack.
use vstd::prelude::*;
use crate::events::EditorEvent;

verus! {

/// A part of a tool, such as panning, that the editor pushes onto its stack of
/// behaviours: while a behaviour is on top of the stack it gets the editor's events
/// before the tool does. `E` is the editor, `I` its interface, `C` the canvas drawn
/// on and `P` a point on it.
pub trait ToolBehavior<E, I, C, P> {
    fn event(&mut self, v: &mut E, i: &mut I, event: EditorEvent<P>);

    /// Not every behaviour draws: by default nothing is drawn on the canvas, and the
    /// behaviour itself is left as it was.
    fn draw(&mut self, v: &E, i: &I, canvas: &mut C)
        default_ensures
            &*final(self) == &*old(self),
            *final(canvas) == *old(canvas),
    {
    }
}

} // verus!
