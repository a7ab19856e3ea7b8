//! A verified protocol layer over a stateful graphics driver: shaders,
//! programs, vertex attributes, textures, uniforms and draw calls. Each
//! operation is a session that says, from the driver's replies so far, which
//! call to issue next; whoever owns the driver issues it and hands back the
//! reply.
pub mod gl;
pub mod shader;
pub mod program;
pub mod vertices;
pub mod uniform;
pub mod draw;
pub mod model;
pub mod laws;
