//! A typed, verified model of a small OpenGL ES binding layer together with
//! the event-dispatch shell that drives it.
//!
//! The library keeps the whole state of the graphics API as an explicit
//! value: a [`gl::Context`] records every call that has been issued and which
//! resource handles are alive.  Every operation of the binding layer
//! (attribute setup, buffer and texture lifecycle, shader and program
//! builds, draws, event dispatch) is a verified function over that value,
//! and its contract pins down exactly which calls it appends and how the set
//! of live handles changes.  The platform layer that owns the real window
//! and graphics context interprets the recorded calls; verdicts that only
//! the real API can produce (a compiler log, a name lookup) enter the
//! library as plain values.

pub mod application;
pub mod attrib;
pub mod buffer;
pub mod demo;
pub mod gl;
pub mod pianino;
pub mod program;
pub mod shell;
pub mod texture;
pub mod uniform;

pub use gl::{Context, GlCall};
