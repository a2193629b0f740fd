//! The standard Direct3D9 interface surface: the data types that marshal
//! parameters into the numeric shapes the native API expects, and the
//! handle wrappers for its interfaces.

pub mod interfaces;
pub mod types;
