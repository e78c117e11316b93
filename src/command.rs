use vstd::prelude::*;

use crate::pass_resource_usage::CommandBufferResourceUsage;
use crate::types::{
    BindGroup, Buffer, Color, Extent3D, IndexFormat, LoadOp, Origin3D, PipelineLayout, StoreOp,
    Texture, TextureView,
};

verus! {

/// A region of a buffer that a copy reads or writes.
#[derive(Clone, Copy, Debug)]
pub struct BufferCopy {
    pub buffer: Buffer,
    pub offset: u64,
    pub row_pitch: u32,
    pub image_height: u32,
}

/// A region of a texture that a copy reads or writes.
#[derive(Clone, Copy, Debug)]
pub struct TextureCopy {
    pub texture: Texture,
    pub mip_level: u32,
    pub array_layer: u32,
    pub origin_texels: Origin3D,
}

#[derive(Clone, Copy, Debug)]
pub struct RenderPassColorAttachmentDescriptor {
    pub attachment: TextureView,
    pub load_op: LoadOp,
    pub store_op: StoreOp,
    pub clear_color: Color,
}

#[derive(Clone, Copy, Debug)]
pub struct RenderPassDepthStencilAttachmentDescriptor {
    pub attachment: TextureView,
    pub depth_load_op: LoadOp,
    pub depth_store_op: StoreOp,
    pub stencil_load_op: LoadOp,
    pub stencil_store_op: StoreOp,
    /// The IEEE-754 bit pattern of the `f32` depth to clear to.
    pub clear_depth: u32,
    pub clear_stencil: u32,
}

/// A render pipeline: its handle, its layout and the index format it draws with.
#[derive(Clone, Debug)]
pub struct RenderPipeline {
    pub handle: u64,
    pub layout: PipelineLayout,
    pub index_format: IndexFormat,
}

/// A compute pipeline: its handle and its layout.
#[derive(Clone, Debug)]
pub struct ComputePipeline {
    pub handle: u64,
    pub layout: PipelineLayout,
}

/// One recorded operation of a command log.
#[derive(Clone, Debug)]
pub enum Command {
    CopyBufferToBuffer { src: BufferCopy, dst: BufferCopy, size_bytes: u64 },
    CopyBufferToTexture { src: BufferCopy, dst: TextureCopy, size_texels: Extent3D },
    CopyTextureToBuffer { src: TextureCopy, dst: BufferCopy, size_texels: Extent3D },
    CopyTextureToTexture { src: TextureCopy, dst: TextureCopy, size_texels: Extent3D },
    BeginRenderPass {
        color_attachments: Vec<RenderPassColorAttachmentDescriptor>,
        depth_stencil_attachment: Option<RenderPassDepthStencilAttachmentDescriptor>,
        width: u32,
        height: u32,
        sample_count: u32,
    },
    EndRenderPass,
    BeginComputePass,
    EndComputePass,
    Draw { vertex_count: u32, instance_count: u32, first_vertex: u32, first_instance: u32 },
    DrawIndexed {
        index_count: u32,
        instance_count: u32,
        first_index: u32,
        base_vertex: i32,
        first_instance: u32,
    },
    Dispatch { x: u32, y: u32, z: u32 },
    DispatchIndirect { buffer: Buffer, offset: u64 },
    SetRenderPipeline { pipeline: RenderPipeline },
    SetComputePipeline { pipeline: ComputePipeline },
    SetBindGroup { index: u32, bind_group: BindGroup, dynamic_offsets: Option<Vec<u32>> },
    SetVertexBuffers { start_slot: u32, buffers: Vec<Buffer>, offsets: Vec<u64> },
    SetIndexBuffer { buffer: Buffer, offset: u32 },
    /// Each value is the IEEE-754 bit pattern of an `f32`.
    SetViewport { x: u32, y: u32, width: u32, height: u32, min_depth: u32, max_depth: u32 },
    SetScissorRect { x: u32, y: u32, width: u32, height: u32 },
    SetBlendColor { color: Color },
    SetStencilReference { reference: u32 },
    PushDebugGroup { label: String },
    PopDebugGroup,
    InsertDebugMarker { label: String },
}

/// A recorded command buffer: its command log and the usage of its resources.
#[derive(Debug)]
pub struct CommandBufferState {
    pub commands: Vec<Command>,
    pub resource_usages: CommandBufferResourceUsage,
}

/// The recorded contents of a command buffer, ready to become native commands.
#[derive(Debug)]
pub struct CommandBufferInner {
    pub state: CommandBufferState,
}

/// A finished command buffer.
#[derive(Debug)]
pub struct CommandBuffer {
    pub inner: CommandBufferInner,
}

} // verus!
