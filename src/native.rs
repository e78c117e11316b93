use vstd::prelude::*;

use crate::flags::{BufferUsageFlags, TextureAspectFlags, TextureUsageFlags};
use crate::types::{Color, Extent3D, IndexFormat, Origin3D};

verus! {

/// The bit pattern of the `f32` value 1.0.
pub const F32_ONE_BITS: u32 = 0x3f80_0000;

#[derive(Clone, Copy, Debug, PartialEq, Eq, Structural)]
pub enum BindPoint {
    Graphics,
    Compute,
}

/// One layer of a texture at a mip level, and the aspects touched.
#[derive(Clone, Copy, Debug, PartialEq, Eq, Structural)]
pub struct SubresourceLayer {
    pub aspect_mask: TextureAspectFlags,
    pub mip_level: u32,
    pub base_array_layer: u32,
    pub layer_count: u32,
}

/// A copy region between a buffer and a texture.
#[derive(Clone, Copy, Debug, PartialEq, Eq, Structural)]
pub struct BufferImageCopy {
    pub buffer_offset: u64,
    pub buffer_row_length: u32,
    pub buffer_image_height: u32,
    pub image_subresource: SubresourceLayer,
    pub image_offset: Origin3D,
    pub image_extent: Extent3D,
}

/// A copy region between two textures.
#[derive(Clone, Copy, Debug, PartialEq, Eq, Structural)]
pub struct ImageCopy {
    pub src_subresource: SubresourceLayer,
    pub src_offset: Origin3D,
    pub dst_subresource: SubresourceLayer,
    pub dst_offset: Origin3D,
    pub extent: Extent3D,
}

/// One call into the native driver, as the recorder decided it.
///
/// Render passes and framebuffers are named by the ids the device gave
/// them; `command` fields name the command of the log whose payload
/// (attachments, clear values, vertex buffers, dynamic offsets) the call uses.
#[derive(Clone, Copy, Debug, PartialEq, Eq, Structural)]
pub enum NativeCommand {
    BufferBarrier { buffer: u64, from: BufferUsageFlags, to: BufferUsageFlags },
    TextureBarrier {
        texture: u64,
        aspect: TextureAspectFlags,
        from: TextureUsageFlags,
        to: TextureUsageFlags,
    },
    CopyBuffer { src: u64, dst: u64, src_offset: u64, dst_offset: u64, size: u64 },
    CopyBufferToImage { buffer: u64, image: u64, region: BufferImageCopy },
    CopyImageToBuffer { image: u64, buffer: u64, region: BufferImageCopy },
    CopyImage { src: u64, dst: u64, region: ImageCopy },
    /// Create the render pass `render_pass` from the key the cache holds for it.
    CreateRenderPass { render_pass: u64 },
    /// Create framebuffer `framebuffer` over the attachments of `command`.
    CreateFramebuffer { framebuffer: u64, render_pass: u64, command: usize, width: u32, height: u32 },
    /// Begin a render pass, clearing with the clear values of `command`.
    BeginRenderPass { render_pass: u64, framebuffer: u64, command: usize, width: u32, height: u32 },
    EndRenderPass,
    SetLineWidth { width: u32 },
    SetDepthBounds { min: u32, max: u32 },
    SetStencilReference { reference: u32 },
    SetBlendConstants { color: Color },
    /// A viewport at the origin of the given size, depth range 0 to 1.
    SetViewportExtent { width: u32, height: u32 },
    SetViewport { x: u32, y: u32, width: u32, height: u32, min_depth: u32, max_depth: u32 },
    SetScissor { x: u32, y: u32, width: u32, height: u32 },
    BindPipeline { bind_point: BindPoint, pipeline: u64 },
    BindDescriptorSet {
        bind_point: BindPoint,
        layout: u64,
        slot: u32,
        set: u64,
        /// The command whose dynamic offsets apply, if any.
        offsets_from: Option<usize>,
    },
    /// Bind the vertex buffers of `command`.
    BindVertexBuffers { command: usize },
    BindIndexBuffer { buffer: u64, offset: u64, format: IndexFormat },
    Draw { vertex_count: u32, instance_count: u32, first_vertex: u32, first_instance: u32 },
    DrawIndexed {
        index_count: u32,
        instance_count: u32,
        first_index: u32,
        base_vertex: i32,
        first_instance: u32,
    },
    Dispatch { x: u32, y: u32, z: u32 },
    DispatchIndirect { buffer: u64, offset: u64 },
}

} // verus!
