use vkgpu::command::{
    BufferCopy, Command, CommandBuffer, CommandBufferInner, CommandBufferState, ComputePipeline,
    RenderPassColorAttachmentDescriptor, RenderPipeline, TextureCopy,
};
use vkgpu::device::Device;
use vkgpu::flags::{
    ASPECT_COLOR, ASPECT_DEPTH, ASPECT_STENCIL, BUFFER_TRANSFER_DST, BUFFER_TRANSFER_SRC,
    BUFFER_VERTEX, TEXTURE_OUTPUT_ATTACHMENT, TEXTURE_PRESENT, TEXTURE_TRANSFER_DST,
    TEXTURE_TRANSFER_SRC,
};
use vkgpu::native::{
    BindPoint, BufferImageCopy, ImageCopy, NativeCommand, SubresourceLayer, F32_ONE_BITS,
};
use vkgpu::pass_resource_usage::{CommandBufferResourceUsage, PassResourceUsage};
use vkgpu::queue::Queue;
use vkgpu::recorder::RecordError;
use vkgpu::types::{
    BindGroup, BindGroupLayout, Buffer, Color, Extent3D, IndexFormat, LoadOp, Origin3D,
    PipelineLayout, StoreOp, SwapchainImage, Texture, TextureDescriptor, TextureDimension,
    TextureFormat, TextureView,
};

fn texture(handle: u64, format: TextureFormat) -> Texture {
    Texture {
        handle,
        descriptor: TextureDescriptor {
            size: Extent3D { width: 800, height: 600, depth: 1 },
            array_layer_count: 1,
            mip_level_count: 1,
            sample_count: 1,
            dimension: TextureDimension::D2,
            format,
            usage: TEXTURE_OUTPUT_ATTACHMENT | TEXTURE_PRESENT,
        },
    }
}

fn buffer_copy(handle: u64, offset: u64) -> BufferCopy {
    BufferCopy { buffer: Buffer { handle }, offset, row_pitch: 0, image_height: 0 }
}

fn command_buffer(commands: Vec<Command>, per_pass: Vec<PassResourceUsage>) -> CommandBuffer {
    CommandBuffer {
        inner: CommandBufferInner {
            state: CommandBufferState {
                commands,
                resource_usages: CommandBufferResourceUsage {
                    per_pass,
                    top_level_buffers: vec![],
                    top_level_textures: vec![],
                },
            },
        },
    }
}

fn empty_usage() -> PassResourceUsage {
    PassResourceUsage { buffers: vec![], textures: vec![] }
}

fn layout(handle: u64, groups: &[u64]) -> PipelineLayout {
    PipelineLayout {
        handle,
        bind_group_layouts: groups.iter().map(|&h| BindGroupLayout { handle: h }).collect(),
    }
}

fn render_pipeline() -> RenderPipeline {
    RenderPipeline { handle: 500, layout: layout(900, &[]), index_format: IndexFormat::U32 }
}

fn render_pass_scene() -> CommandBuffer {
    let color_texture = texture(20, TextureFormat::B8G8R8A8Unorm);
    let grey = 0.1f32.to_bits();
    let commands = vec![
        Command::CopyBufferToBuffer { src: buffer_copy(1, 0), dst: buffer_copy(2, 0), size_bytes: 64 },
        Command::BeginRenderPass {
            color_attachments: vec![RenderPassColorAttachmentDescriptor {
                attachment: TextureView { handle: 30, texture: color_texture },
                load_op: LoadOp::Clear,
                store_op: StoreOp::Store,
                clear_color: Color { r: grey, g: grey, b: grey, a: 1.0f32.to_bits() },
            }],
            depth_stencil_attachment: None,
            width: 800,
            height: 600,
            sample_count: 1,
        },
        Command::SetRenderPipeline { pipeline: render_pipeline() },
        Command::SetVertexBuffers { start_slot: 0, buffers: vec![Buffer { handle: 3 }], offsets: vec![0] },
        Command::Draw { vertex_count: 3, instance_count: 1, first_vertex: 0, first_instance: 0 },
        Command::EndRenderPass,
    ];
    let per_pass = vec![PassResourceUsage {
        buffers: vec![(Buffer { handle: 3 }, BUFFER_VERTEX)],
        textures: vec![(color_texture, TEXTURE_OUTPUT_ATTACHMENT)],
    }];
    command_buffer(commands, per_pass)
}

fn pass_body(framebuffer: u64) -> Vec<NativeCommand> {
    vec![
        NativeCommand::CreateFramebuffer { framebuffer, render_pass: 0, command: 1, width: 800, height: 600 },
        NativeCommand::BeginRenderPass { render_pass: 0, framebuffer, command: 1, width: 800, height: 600 },
        NativeCommand::SetLineWidth { width: F32_ONE_BITS },
        NativeCommand::SetDepthBounds { min: 0, max: F32_ONE_BITS },
        NativeCommand::SetStencilReference { reference: 0 },
        NativeCommand::SetBlendConstants { color: Color { r: 0, g: 0, b: 0, a: 0 } },
        NativeCommand::SetViewportExtent { width: 800, height: 600 },
        NativeCommand::SetScissor { x: 0, y: 0, width: 800, height: 600 },
        NativeCommand::BindPipeline { bind_point: BindPoint::Graphics, pipeline: 500 },
        NativeCommand::BindVertexBuffers { command: 3 },
        NativeCommand::Draw { vertex_count: 3, instance_count: 1, first_vertex: 0, first_instance: 0 },
        NativeCommand::EndRenderPass,
    ]
}

#[test]
fn copy_then_render_pass_end_to_end() {
    let mut queue = Queue::new(Device::new());
    let submission = queue.submit(0, &vec![render_pass_scene()]).unwrap();
    assert!(submission.destroyed.is_empty());
    assert_eq!(submission.recorded.len(), 1);
    let mut expected = vec![
        NativeCommand::BufferBarrier { buffer: 1, from: 0, to: BUFFER_TRANSFER_SRC },
        NativeCommand::BufferBarrier { buffer: 2, from: 0, to: BUFFER_TRANSFER_DST },
        NativeCommand::CopyBuffer { src: 1, dst: 2, src_offset: 0, dst_offset: 0, size: 64 },
        NativeCommand::BufferBarrier { buffer: 3, from: 0, to: BUFFER_VERTEX },
        NativeCommand::TextureBarrier { texture: 20, aspect: ASPECT_COLOR, from: 0, to: TEXTURE_OUTPUT_ATTACHMENT },
        NativeCommand::CreateRenderPass { render_pass: 0 },
    ];
    expected.extend(pass_body(0));
    assert_eq!(submission.recorded[0], expected);
    assert_eq!(queue.device.render_passes.queries.len(), 1);
    assert_eq!(queue.device.deleter.entries, vec![(0, 1)]);
    queue.device.submit_pending_commands();

    // Resubmitting reuses the cached render pass, needs no transitions, and
    // makes a fresh framebuffer tagged with the next serial.
    let again = queue.submit(0, &vec![render_pass_scene()]).unwrap();
    let mut expected_again =
        vec![NativeCommand::CopyBuffer { src: 1, dst: 2, src_offset: 0, dst_offset: 0, size: 64 }];
    expected_again.extend(pass_body(1));
    assert_eq!(again.recorded[0], expected_again);
    assert_eq!(queue.device.render_passes.queries.len(), 1);
    assert_eq!(queue.device.deleter.entries, vec![(0, 1), (1, 2)]);
    queue.device.submit_pending_commands();

    let reaped = queue.submit(1, &vec![]).unwrap();
    assert_eq!(reaped.destroyed, vec![0]);
    assert_eq!(queue.device.deleter.entries, vec![(1, 2)]);
}

#[test]
fn compute_pass_flushes_bind_groups_before_dispatch() {
    let pipeline = ComputePipeline { handle: 600, layout: layout(901, &[70]) };
    let commands = vec![
        Command::BeginComputePass,
        Command::SetComputePipeline { pipeline },
        Command::SetBindGroup { index: 0, bind_group: BindGroup { handle: 80 }, dynamic_offsets: Some(vec![256]) },
        Command::Dispatch { x: 1, y: 2, z: 3 },
        Command::DispatchIndirect { buffer: Buffer { handle: 9 }, offset: 16 },
        Command::EndComputePass,
    ];
    let cb = command_buffer(commands, vec![empty_usage()]);
    let mut device = Device::new();
    let mut ops = Vec::new();
    assert_eq!(cb.inner.record_commands(&mut device, &mut ops), Ok(()));
    assert_eq!(
        ops,
        vec![
            NativeCommand::BindPipeline { bind_point: BindPoint::Compute, pipeline: 600 },
            NativeCommand::BindDescriptorSet {
                bind_point: BindPoint::Compute,
                layout: 901,
                slot: 0,
                set: 80,
                offsets_from: Some(2),
            },
            NativeCommand::Dispatch { x: 1, y: 2, z: 3 },
            NativeCommand::DispatchIndirect { buffer: 9, offset: 16 },
        ]
    );
}

#[test]
fn texture_copies_use_regions_and_aspects() {
    let depth = texture(40, TextureFormat::D32FloatS8Uint);
    let color = texture(41, TextureFormat::R8G8B8A8Unorm);
    let size = Extent3D { width: 4, height: 2, depth: 1 };
    let depth_copy = TextureCopy { texture: depth, mip_level: 1, array_layer: 2, origin_texels: Origin3D { x: 1, y: 2, z: 0 } };
    let color_copy = TextureCopy { texture: color, mip_level: 0, array_layer: 0, origin_texels: Origin3D { x: 0, y: 0, z: 0 } };
    let commands = vec![
        Command::CopyTextureToBuffer {
            src: depth_copy,
            dst: BufferCopy { buffer: Buffer { handle: 5 }, offset: 128, row_pitch: 4, image_height: 2 },
            size_texels: size,
        },
        Command::CopyTextureToTexture { src: depth_copy, dst: color_copy, size_texels: size },
    ];
    let cb = command_buffer(commands, vec![]);
    let mut device = Device::new();
    let mut ops = Vec::new();
    assert_eq!(cb.inner.record_commands(&mut device, &mut ops), Ok(()));
    let depth_layer = SubresourceLayer {
        aspect_mask: ASPECT_DEPTH | ASPECT_STENCIL,
        mip_level: 1,
        base_array_layer: 2,
        layer_count: 1,
    };
    assert_eq!(
        ops,
        vec![
            NativeCommand::TextureBarrier { texture: 40, aspect: ASPECT_DEPTH | ASPECT_STENCIL, from: 0, to: TEXTURE_TRANSFER_SRC },
            NativeCommand::BufferBarrier { buffer: 5, from: 0, to: BUFFER_TRANSFER_DST },
            NativeCommand::CopyImageToBuffer {
                image: 40,
                buffer: 5,
                region: BufferImageCopy {
                    buffer_offset: 128,
                    buffer_row_length: 4,
                    buffer_image_height: 2,
                    image_subresource: depth_layer,
                    image_offset: Origin3D { x: 1, y: 2, z: 0 },
                    image_extent: size,
                },
            },
            NativeCommand::TextureBarrier { texture: 41, aspect: ASPECT_COLOR, from: 0, to: TEXTURE_TRANSFER_DST },
            NativeCommand::CopyImage {
                src: 40,
                dst: 41,
                region: ImageCopy {
                    src_subresource: depth_layer,
                    src_offset: Origin3D { x: 1, y: 2, z: 0 },
                    dst_subresource: SubresourceLayer { aspect_mask: ASPECT_COLOR, mip_level: 0, base_array_layer: 0, layer_count: 1 },
                    dst_offset: Origin3D { x: 0, y: 0, z: 0 },
                    extent: size,
                },
            },
        ]
    );
}

#[test]
fn buffer_to_texture_copy_moves_both_sides() {
    let color = texture(42, TextureFormat::R8Unorm);
    let commands = vec![Command::CopyBufferToTexture {
        src: BufferCopy { buffer: Buffer { handle: 6 }, offset: 8, row_pitch: 16, image_height: 4 },
        dst: TextureCopy { texture: color, mip_level: 0, array_layer: 0, origin_texels: Origin3D { x: 0, y: 0, z: 0 } },
        size_texels: Extent3D { width: 16, height: 4, depth: 1 },
    }];
    let cb = command_buffer(commands, vec![]);
    let mut device = Device::new();
    let mut ops = Vec::new();
    cb.inner.record_commands(&mut device, &mut ops).unwrap();
    assert_eq!(ops.len(), 3);
    assert_eq!(ops[0], NativeCommand::BufferBarrier { buffer: 6, from: 0, to: BUFFER_TRANSFER_SRC });
    assert_eq!(ops[1], NativeCommand::TextureBarrier { texture: 42, aspect: ASPECT_COLOR, from: 0, to: TEXTURE_TRANSFER_DST });
    match ops[2] {
        NativeCommand::CopyBufferToImage { buffer, image, region } => {
            assert_eq!((buffer, image), (6, 42));
            assert_eq!(region.buffer_offset, 8);
            assert_eq!(region.buffer_row_length, 16);
            assert_eq!(region.image_extent, Extent3D { width: 16, height: 4, depth: 1 });
        }
        other => panic!("unexpected {:?}", other),
    }
}

#[test]
fn pass_without_usage_entry_fails() {
    let cb = command_buffer(vec![Command::BeginComputePass, Command::EndComputePass], vec![]);
    let mut device = Device::new();
    let mut ops = Vec::new();
    assert_eq!(cb.inner.record_commands(&mut device, &mut ops), Err(RecordError::MissingPassUsage));
}

#[test]
fn pass_without_end_fails() {
    let cb = command_buffer(
        vec![Command::BeginComputePass, Command::Dispatch { x: 1, y: 1, z: 1 }],
        vec![empty_usage()],
    );
    let mut device = Device::new();
    let mut ops = Vec::new();
    assert_eq!(cb.inner.record_commands(&mut device, &mut ops), Err(RecordError::UnterminatedPass));
}

#[test]
fn index_buffer_before_pipeline_fails() {
    let commands = vec![
        Command::BeginRenderPass {
            color_attachments: vec![],
            depth_stencil_attachment: None,
            width: 4,
            height: 4,
            sample_count: 1,
        },
        Command::SetIndexBuffer { buffer: Buffer { handle: 1 }, offset: 0 },
        Command::EndRenderPass,
    ];
    let cb = command_buffer(commands, vec![empty_usage()]);
    let mut device = Device::new();
    let mut ops = Vec::new();
    assert_eq!(cb.inner.record_commands(&mut device, &mut ops), Err(RecordError::IndexBufferWithoutPipeline));
}

#[test]
fn index_buffer_after_pipeline_uses_its_format() {
    let commands = vec![
        Command::BeginRenderPass {
            color_attachments: vec![],
            depth_stencil_attachment: None,
            width: 4,
            height: 4,
            sample_count: 1,
        },
        Command::SetRenderPipeline { pipeline: render_pipeline() },
        Command::SetIndexBuffer { buffer: Buffer { handle: 1 }, offset: 12 },
        Command::DrawIndexed { index_count: 6, instance_count: 1, first_index: 0, base_vertex: -2, first_instance: 0 },
        Command::EndRenderPass,
    ];
    let cb = command_buffer(commands, vec![empty_usage()]);
    let mut device = Device::new();
    let mut ops = Vec::new();
    cb.inner.record_commands(&mut device, &mut ops).unwrap();
    let n = ops.len();
    assert_eq!(ops[n - 3], NativeCommand::BindIndexBuffer { buffer: 1, offset: 12, format: IndexFormat::U32 });
    assert_eq!(
        ops[n - 2],
        NativeCommand::DrawIndexed { index_count: 6, instance_count: 1, first_index: 0, base_vertex: -2, first_instance: 0 }
    );
}

#[test]
fn bind_group_slot_out_of_range_fails() {
    let commands = vec![
        Command::BeginComputePass,
        Command::SetBindGroup { index: 4, bind_group: BindGroup { handle: 1 }, dynamic_offsets: None },
        Command::EndComputePass,
    ];
    let cb = command_buffer(commands, vec![empty_usage()]);
    let mut device = Device::new();
    let mut ops = Vec::new();
    assert_eq!(cb.inner.record_commands(&mut device, &mut ops), Err(RecordError::BindGroupIndexOutOfRange));
}

#[test]
fn exhausted_serials_refuse_submission() {
    let mut device = Device::new();
    device.clock.last_submitted = u64::MAX;
    let mut queue = Queue::new(device);
    assert!(matches!(queue.submit(0, &vec![]), Err(RecordError::SerialsExhausted)));
}

#[test]
fn exhausted_framebuffer_ids_refuse_render_pass() {
    let mut device = Device::new();
    device.next_framebuffer = u64::MAX;
    let cb = render_pass_scene();
    let mut ops = Vec::new();
    assert_eq!(cb.inner.record_commands(&mut device, &mut ops), Err(RecordError::FramebufferIdsExhausted));
}

#[test]
fn present_moves_frame_to_its_usage() {
    let frame_texture = texture(50, TextureFormat::B8G8R8A8UnormSRGB);
    let frame = SwapchainImage {
        swapchain: 1,
        image_index: 0,
        texture: frame_texture,
        view: TextureView { handle: 51, texture: frame_texture },
    };
    let mut queue = Queue::new(Device::new());
    let ops = queue.present(&frame);
    assert_eq!(
        ops,
        vec![NativeCommand::TextureBarrier {
            texture: 50,
            aspect: ASPECT_COLOR,
            from: 0,
            to: TEXTURE_OUTPUT_ATTACHMENT | TEXTURE_PRESENT,
        }]
    );
    assert!(queue.present(&frame).is_empty());
}
