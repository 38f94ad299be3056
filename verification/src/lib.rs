//! Decisions of an overlay that draws inside another program's OpenGL window.
//!
//! The overlay lives in a detour of `wglSwapBuffers`.  What it does to the
//! window, to the graphics state and to the overlay toolkits is done by the
//! host program around this crate; which of those things are done, in which
//! order and with which values is decided here and proved.

pub mod call_laws;
pub mod clock;
pub mod frame;
pub mod geometry;
pub mod hooks;
pub mod laws;
pub mod lock;
pub mod once;
pub mod panel;
pub mod renderer;
pub mod state;
pub mod text;
pub mod viewport;
pub mod win32;
