//! Fixed-resolution frame scaling and shader light-slot bookkeeping for a
//! small real-time demo.
//!
//! - [`viewport`]: integer scaling and centering of an offscreen render
//!   target inside a resizable window, and the blit that draws it.
//! - [`light`]: a bounded registry of shader light slots and the uniform
//!   writes that keep a shader in step with each light.
//! - [`text`]: horizontal centering of a line of text.
pub mod light;
pub mod text;
pub mod viewport;
