//! Verified core of a screenshot annotation tool: choosing and cropping the
//! monitor under the cursor, the editing state of the annotation canvas, and
//! the pixel-level rendering of annotations onto the captured frame.

pub mod capture;
pub mod color;
pub mod editor;
pub mod editor_laws;
pub mod frame;
pub mod render;
pub mod render_laws;
pub mod shape;
pub mod text;
pub mod tool;
