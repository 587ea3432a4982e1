//! Editing logic of the MFEKglif glyph editor, verified with Verus.

pub mod events;
pub mod filesystem_watch;
pub mod icons;
pub mod measure;
pub mod tool_behaviors;
pub mod vws;
