//! Verified core of a small OpenGL rendering and audio toolkit.
//!
//! The library holds the decisions of the toolkit: how its enums map to GL
//! enumerants, how the GL state cache decides which commands are needed, how
//! vertex and uniform layouts turn into upload commands, how audio samples are
//! normalised and how audio slots are handed out. The commands it computes are
//! carried out by the host application against a live GL context.

pub mod gl;
pub mod glam_types;
pub mod texture;
pub mod pipeline_params;
pub mod cache;
pub mod gl_state;
pub mod buffer;
pub mod vertex;
pub mod uniform;
pub mod pipeline;
pub mod render_pass;
pub mod error;
pub mod color;
pub mod debug;
pub mod fs;
pub mod audio;
pub mod frame;
