//! What the kernel keeps of the renderer's state: which picture of which
//! surface lies on the GPU.

pub mod texture;

pub use texture::TextureCache;
