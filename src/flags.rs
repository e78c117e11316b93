use vstd::prelude::*;

verus! {

/// How a buffer is used: a set of the `BUFFER_*` bits.
pub type BufferUsageFlags = u32;

pub const BUFFER_NONE: BufferUsageFlags = 0;
pub const BUFFER_MAP_READ: BufferUsageFlags = 1;
pub const BUFFER_MAP_WRITE: BufferUsageFlags = 2;
pub const BUFFER_TRANSFER_SRC: BufferUsageFlags = 4;
pub const BUFFER_TRANSFER_DST: BufferUsageFlags = 8;
pub const BUFFER_INDEX: BufferUsageFlags = 16;
pub const BUFFER_VERTEX: BufferUsageFlags = 32;
pub const BUFFER_UNIFORM: BufferUsageFlags = 64;
pub const BUFFER_STORAGE: BufferUsageFlags = 128;

/// How a texture is used: a set of the `TEXTURE_*` bits.
pub type TextureUsageFlags = u32;

pub const TEXTURE_NONE: TextureUsageFlags = 0;
pub const TEXTURE_TRANSFER_SRC: TextureUsageFlags = 1;
pub const TEXTURE_TRANSFER_DST: TextureUsageFlags = 2;
pub const TEXTURE_SAMPLED: TextureUsageFlags = 4;
pub const TEXTURE_STORAGE: TextureUsageFlags = 8;
pub const TEXTURE_OUTPUT_ATTACHMENT: TextureUsageFlags = 16;
pub const TEXTURE_PRESENT: TextureUsageFlags = 32;

/// Which aspects of a texture an operation touches: a set of the `ASPECT_*` bits.
pub type TextureAspectFlags = u32;

pub const ASPECT_COLOR: TextureAspectFlags = 1;
pub const ASPECT_DEPTH: TextureAspectFlags = 2;
pub const ASPECT_STENCIL: TextureAspectFlags = 8;

/// Shader stages that see a binding: a set of the `STAGE_*` bits.
pub type ShaderStageFlags = u32;

pub const STAGE_NONE: ShaderStageFlags = 0;
pub const STAGE_VERTEX: ShaderStageFlags = 1;
pub const STAGE_FRAGMENT: ShaderStageFlags = 2;
pub const STAGE_COMPUTE: ShaderStageFlags = 4;

/// Color channels that a render target writes: a set of the `WRITE_*` bits.
pub type ColorWriteFlags = u32;

pub const WRITE_NONE: ColorWriteFlags = 0;
pub const WRITE_RED: ColorWriteFlags = 1;
pub const WRITE_GREEN: ColorWriteFlags = 2;
pub const WRITE_BLUE: ColorWriteFlags = 4;
pub const WRITE_ALPHA: ColorWriteFlags = 8;
pub const WRITE_ALL: ColorWriteFlags = 15;

} // verus!
