//! Shader-program management and render dispatch for a small WebGL water
//! scene.
//!
//! The core compiles and links one program per [`shader::ShaderKind`], caches
//! uniform locations per program, elides redundant program binds, and
//! dispatches heterogeneous drawables in submission order.  It owns the single
//! record of what is bound on the device: every device call it decides to
//! issue is appended to a [`gpu::GpuLog`], and an unverified host executor
//! performs the recorded calls against the real graphics context.

pub mod gpu;
pub mod render;
pub mod shader;
