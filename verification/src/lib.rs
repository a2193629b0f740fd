//! A type-safe model of a Direct3D9 binding layer.
//!
//! The library captures the two mechanisms every interface wrapper is built
//! from: a reference-counted foreign-object handle ([`com::Com`]) and the
//! translation of numeric status codes into typed results
//! ([`error::WindowsError`]).  Around them stand the data types that marshal
//! parameters into the numeric shapes the native API expects.
//!
//! The native calls themselves cross an ABI boundary that cannot be verified;
//! they live outside this crate.  Everything here works on plain values: the
//! codes handed to a call and the status codes and handle values it returns.

pub mod com;
pub mod error;
pub mod standard;
pub mod x;
