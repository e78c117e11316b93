use vstd::prelude::*;

use crate::flags::{ColorWriteFlags, ShaderStageFlags, TextureAspectFlags, TextureUsageFlags};
use crate::flags::{BufferUsageFlags, TEXTURE_OUTPUT_ATTACHMENT};

verus! {

/// The entry point to the driver.
#[derive(Clone, Copy, Debug, PartialEq, Eq, Structural, Hash)]
pub struct Instance {
    pub handle: u64,
}

#[derive(Clone, Copy, Debug, PartialEq, Eq, Structural, Hash)]
pub enum PowerPreference {
    LowPower,
    HighPerformance,
}

impl Default for PowerPreference {
    fn default() -> (r: PowerPreference)
        ensures
            r == PowerPreference::HighPerformance,
    {
        PowerPreference::HighPerformance
    }
}

#[derive(Clone, Copy, Debug, PartialEq, Eq, Structural, Hash)]
pub struct RequestAdapterOptions {
    pub power_preference: PowerPreference,
}

#[derive(Clone, Copy, Debug, PartialEq, Eq, Structural, Hash)]
pub struct Extensions {
    pub anisotropic_filtering: bool,
}

/// A physical device.
#[derive(Clone, Copy, Debug, PartialEq, Eq, Structural, Hash)]
pub struct Adapter {
    pub handle: u64,
}

#[derive(Clone, Copy, Debug, PartialEq, Eq, Structural, Hash)]
pub struct Limits {
    pub max_bind_groups: u32,
}

/// A presentation surface.
#[derive(Clone, Copy, Debug, PartialEq, Eq, Structural, Hash)]
pub struct Surface {
    pub handle: u64,
}

#[derive(Clone, Copy, Debug, PartialEq, Eq, Structural, Hash)]
pub struct DeviceDescriptor {
    pub extensions: Extensions,
    /// The queue created for the device supports presenting to this surface.
    pub surface_support: Option<Surface>,
}

impl DeviceDescriptor {
    pub fn with_surface_support(self, surface: Surface) -> (r: DeviceDescriptor)
        ensures
            r.extensions == self.extensions,
            r.surface_support == Some(surface),
    {
        let mut d = self;
        d.surface_support = Some(surface);
        d
    }
}

#[derive(Clone, Copy, Debug, PartialEq, Eq, Structural, Hash)]
pub struct SwapchainDescriptor {
    pub surface: Surface,
    pub format: TextureFormat,
    pub usage: TextureUsageFlags,
}

impl SwapchainDescriptor {
    pub fn default_with_surface(surface: Surface) -> (r: SwapchainDescriptor)
        ensures
            r.surface == surface,
            r.format == TextureFormat::B8G8R8A8UnormSRGB,
            r.usage == TEXTURE_OUTPUT_ATTACHMENT,
    {
        SwapchainDescriptor {
            surface,
            format: TextureFormat::B8G8R8A8UnormSRGB,
            usage: TEXTURE_OUTPUT_ATTACHMENT,
        }
    }
}

/// A chain of presentable images.
#[derive(Debug)]
pub struct Swapchain {
    pub handle: u64,
}

/// One acquired image of a swapchain.
#[derive(Clone, Copy, Debug)]
pub struct SwapchainImage {
    pub swapchain: u64,
    pub image_index: u32,
    pub texture: Texture,
    pub view: TextureView,
}

#[derive(Clone, Copy, Debug, PartialEq, Eq, Structural, Default, Hash)]
pub struct Extent3D {
    pub width: u32,
    pub height: u32,
    pub depth: u32,
}

#[derive(Clone, Copy, Debug, PartialEq, Eq, Structural, Default, Hash)]
pub struct Origin3D {
    pub x: u32,
    pub y: u32,
    pub z: u32,
}

/// A color whose channels are the IEEE-754 bit patterns of `f32` values.
#[derive(Clone, Copy, Debug, PartialEq, Eq, Structural, Default, Hash)]
pub struct Color {
    pub r: u32,
    pub g: u32,
    pub b: u32,
    pub a: u32,
}

#[derive(Clone, Copy, Debug, PartialEq, Eq, Structural, Hash)]
pub enum TextureFormat {
    R8G8B8A8Unorm,
    R8G8Unorm,
    R8Unorm,
    R8G8B8A8Uint,
    R8G8Uint,
    R8Uint,
    B8G8R8A8Unorm,
    B8G8R8A8UnormSRGB,
    D32FloatS8Uint,
}

#[derive(Clone, Copy, Debug, PartialEq, Eq, Structural, Hash)]
pub enum TextureDimension {
    D1,
    D2,
    D3,
}

#[derive(Clone, Copy, Debug, PartialEq, Eq, Structural, Hash)]
pub enum TextureViewDimension {
    D1,
    D2,
    D3,
    Cube,
}

#[derive(Clone, Copy, Debug, PartialEq, Eq, Structural, Hash)]
pub struct TextureDescriptor {
    pub size: Extent3D,
    pub array_layer_count: u32,
    pub mip_level_count: u32,
    pub sample_count: u32,
    pub dimension: TextureDimension,
    pub format: TextureFormat,
    pub usage: TextureUsageFlags,
}

#[derive(Clone, Copy, Debug, PartialEq, Eq, Structural, Hash)]
pub struct TextureViewDescriptor {
    pub format: TextureFormat,
    pub dimension: TextureViewDimension,
    pub aspect: TextureAspectFlags,
    pub base_mip_level: u32,
    pub mip_level_count: u32,
    pub base_array_layer: u32,
    pub array_layer_count: u32,
}

/// A texture: its native handle and the descriptor it was created with.
#[derive(Clone, Copy, Debug, PartialEq, Eq, Structural, Hash)]
pub struct Texture {
    pub handle: u64,
    pub descriptor: TextureDescriptor,
}

/// A view of a texture.
#[derive(Clone, Copy, Debug, PartialEq, Eq, Structural, Hash)]
pub struct TextureView {
    pub handle: u64,
    pub texture: Texture,
}

#[derive(Clone, Copy, Debug, PartialEq, Eq, Structural, Hash)]
pub struct BufferDescriptor {
    pub size: u64,
    pub usage: BufferUsageFlags,
}

/// A buffer, named by its native handle.
#[derive(Clone, Copy, Debug, PartialEq, Eq, Structural, Hash)]
pub struct Buffer {
    pub handle: u64,
}

#[derive(Clone, Copy, Debug, PartialEq, Eq, Structural, Hash)]
pub enum FilterMode {
    Nearest,
    Linear,
}

#[derive(Clone, Copy, Debug, PartialEq, Eq, Structural, Hash)]
pub enum AddressMode {
    ClampToEdge,
    Repeat,
    MirrorRepeat,
}

#[derive(Clone, Copy, Debug, PartialEq, Eq, Structural, Hash)]
pub enum CompareFunction {
    Never,
    Less,
    Equal,
    LessEqual,
    Greater,
    NotEqual,
    GreaterEqual,
    Always,
}

/// A sampler, named by its native handle.
#[derive(Clone, Copy, Debug, PartialEq, Eq, Structural, Hash)]
pub struct Sampler {
    pub handle: u64,
}

#[derive(Clone, Copy, Debug, PartialEq, Eq, Structural, Hash)]
pub enum BindingType {
    UniformBuffer,
    DynamicUniformBuffer,
    Sampler,
    SampledTexture,
    StorageBuffer,
    DynamicStorageBuffer,
}

#[derive(Clone, Copy, Debug, PartialEq, Eq, Structural, Hash)]
pub struct BindGroupLayoutBinding {
    pub binding: u32,
    pub visibility: ShaderStageFlags,
    pub binding_type: BindingType,
}

#[derive(Clone, Debug)]
pub struct BindGroupLayoutDescriptor {
    pub bindings: Vec<BindGroupLayoutBinding>,
}

/// A bind group layout (a native descriptor-set layout), named by its handle.
#[derive(Clone, Copy, Debug, PartialEq, Eq, Structural, Hash)]
pub struct BindGroupLayout {
    pub handle: u64,
}

#[derive(Clone, Copy, Debug, PartialEq, Eq, Structural, Hash)]
pub enum BindingResource {
    Sampler(Sampler),
    TextureView(TextureView),
    /// A buffer and the byte range `start..end` of it.
    Buffer(Buffer, u64, u64),
}

#[derive(Clone, Copy, Debug, PartialEq, Eq, Structural, Hash)]
pub struct BindGroupBinding {
    pub binding: u32,
    pub resource: BindingResource,
}

#[derive(Clone, Debug)]
pub struct BindGroupDescriptor {
    pub layout: BindGroupLayout,
    pub bindings: Vec<BindGroupBinding>,
}

/// A bind group (a native descriptor set), named by its handle.
#[derive(Clone, Copy, Debug, PartialEq, Eq, Structural, Hash)]
pub struct BindGroup {
    pub handle: u64,
}

#[derive(Clone, Debug)]
pub struct PipelineLayoutDescriptor {
    pub bind_group_layouts: Vec<BindGroupLayout>,
}

/// A pipeline layout: its handle and the bind group layout of each slot.
#[derive(Clone, Debug)]
pub struct PipelineLayout {
    pub handle: u64,
    pub bind_group_layouts: Vec<BindGroupLayout>,
}

#[derive(Clone, Copy, Debug, PartialEq, Eq, Structural, Hash)]
pub enum IndexFormat {
    U16,
    U32,
}

#[derive(Clone, Copy, Debug, PartialEq, Eq, Structural, Hash)]
pub enum LoadOp {
    Clear,
    Load,
}

#[derive(Clone, Copy, Debug, PartialEq, Eq, Structural, Hash)]
pub enum StoreOp {
    Store,
}

#[derive(Clone, Copy, Debug, PartialEq, Eq, Structural, Hash)]
pub enum FrontFace {
    Ccw,
    Cw,
}

#[derive(Clone, Copy, Debug, PartialEq, Eq, Structural, Hash)]
pub enum CullMode {
    Disabled,
    Front,
    Back,
}

#[derive(Clone, Copy, Debug, PartialEq, Eq, Structural, Hash)]
pub enum BlendFactor {
    Zero,
    One,
    SrcColor,
    OneMinusSrcColor,
    SrcAlpha,
    DstColor,
    OneMinusDstColor,
    DstAlpha,
    OneMinusDstAlpha,
    SrcAlphaSaturated,
    BlendColor,
    OneMinusBlendColor,
}

#[derive(Clone, Copy, Debug, PartialEq, Eq, Structural, Hash)]
pub enum BlendOperation {
    Add,
    Subtract,
    ReverseSubtract,
    Min,
    Max,
}

#[derive(Clone, Copy, Debug, PartialEq, Eq, Structural, Hash)]
pub struct BlendDescriptor {
    pub src_factor: BlendFactor,
    pub dst_factor: BlendFactor,
    pub operation: BlendOperation,
}

#[derive(Clone, Copy, Debug, PartialEq, Eq, Structural, Hash)]
pub struct ColorStateDescriptor {
    pub format: TextureFormat,
    pub alpha_blend: BlendDescriptor,
    pub color_blend: BlendDescriptor,
    pub write_mask: ColorWriteFlags,
}

#[derive(Clone, Copy, Debug, PartialEq, Eq, Structural, Hash)]
pub enum StencilOperation {
    Keep,
    Zero,
    Replace,
    Invert,
    IncrementClamp,
    DecrementClamp,
    IncrementWrap,
    DecrementWrap,
}

#[derive(Clone, Copy, Debug, PartialEq, Eq, Structural, Hash)]
pub struct StencilStateFaceDescriptor {
    pub compare: CompareFunction,
    pub fail_op: StencilOperation,
    pub depth_fail_op: StencilOperation,
    pub pass_op: StencilOperation,
}

#[derive(Clone, Copy, Debug, PartialEq, Eq, Structural, Hash)]
pub struct DepthStencilStateDescriptor {
    pub format: TextureFormat,
    pub depth_write_enabled: bool,
    pub depth_compare: CompareFunction,
    pub stencil_front: StencilStateFaceDescriptor,
    pub stencil_back: StencilStateFaceDescriptor,
    pub stencil_read_mask: u32,
    pub stencil_write_mask: u32,
}

} // verus!
