//! Handle wrappers for the standard Direct3D9 interfaces.

pub mod context;
pub mod cube_texture;
pub mod device;
pub mod index_buffer;
pub mod pixel_shader;
pub mod query;
pub mod state_block;
pub mod surface;
pub mod swap_chain;
pub mod texture;
pub mod vertex_buffer;
pub mod vertex_declaration;
pub mod vertex_shader;
pub mod volume_texture;

pub use context::Context;
pub use cube_texture::CubeTexture;
pub use device::Device;
pub use index_buffer::IndexBuffer;
pub use pixel_shader::PixelShader;
pub use query::Query;
pub use state_block::StateBlock;
pub use surface::Surface;
pub use swap_chain::SwapChain;
pub use texture::Texture;
pub use vertex_buffer::VertexBuffer;
pub use vertex_declaration::VertexDeclaration;
pub use vertex_shader::VertexShader;
pub use volume_texture::VolumeTexture;
