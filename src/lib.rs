//! Generates typed Rust bindings for GLSL vertex/fragment shader pairs: the
//! pairing of shader files by stem, the mapping of GL types to Rust types
//! and uniform tags, and the text of one binding module per pair.

pub mod error;
pub mod types;
pub mod escape;
pub mod codegen;
pub mod laws;
pub mod filesystem;
