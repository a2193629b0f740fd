//! Handle wrappers for the D3DX interfaces.

pub mod buffer;
pub mod constant_table;

pub use buffer::Buffer;
pub use constant_table::ConstantTable;
