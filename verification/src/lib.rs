//! Layout and scheduling rules of a small rendering layer: how buffer views are
//! packed into one allocation, which byte ranges an upload touches, which image
//! barriers and copies a texture needs, and how specialization constants are
//! encoded. Everything here is a function from plain values to plain values;
//! the device calls that act on the results live with the caller.

pub mod buffer;
pub mod bufferpool;
pub mod descriptorpool;
pub mod flags;
pub mod framebuffer;
pub mod hal;
pub mod mesh;
pub mod pipeline;
pub mod renderpass;
pub mod shader;
pub mod swapchain;
pub mod texture;
pub mod util;
pub mod window;

pub use crate::{
    buffer::Buffer,
    bufferpool::BufferPool,
    descriptorpool::DescriptorPool,
    framebuffer::FrameBuffer,
    hal::HALData,
    mesh::Mesh,
    pipeline::Pipeline,
    renderpass::RenderPass,
    shader::{Shader, ShaderModData},
    swapchain::Swapchain,
    texture::Texture,
    window::Window,
};
