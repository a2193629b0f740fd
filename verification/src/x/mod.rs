//! The D3DX utility surface: the shader compiler entry point, its data
//! types, and the handle wrappers for its interfaces.

pub mod functions;
pub mod interfaces;
pub mod types;
