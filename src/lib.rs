//! The render-pass orchestration core of a raymarching engine: a registry of
//! named textures sized from the surface, the raymarching compute pass, the
//! manager that sequences the passes of each frame and rebuilds them on
//! request, the surface's presentation state machine, and the command line.
//!
//! Each function plans GPU work as plain values; the program around the
//! library performs that work on the device.

pub mod cli;
pub mod raymarching;
pub mod render_pass_manager;
pub mod surface;
pub mod texture_manager;
