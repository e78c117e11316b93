//! Recording render and compute passes.

use vstd::prelude::*;

use crate::command::{
    Command, CommandBufferInner, RenderPassColorAttachmentDescriptor,
    RenderPassDepthStencilAttachmentDescriptor,
};
use crate::descriptor_set_tracker::{
    flush_calls, layout_key, model_after_flush, model_after_layout_change,
    model_after_set_bind_group, DescriptorSetModel, DescriptorSetTracker, MAX_BIND_GROUPS,
};
use crate::device::Device;
use crate::native::{BindPoint, NativeCommand, F32_ONE_BITS};
use crate::pass_resource_usage::PassType;
use crate::render_pass::{render_pass_lookup, ColorInfo, DepthStencilInfo, RenderPassCacheQuery};
use crate::recorder::{DeviceModel, RecordError};
use crate::types::{Color, IndexFormat};

verus! {

/// The render pass key of a pass with these attachments.
pub open spec fn color_infos(atts: Seq<RenderPassColorAttachmentDescriptor>) -> Seq<ColorInfo> {
    atts.map_values(
        |a: RenderPassColorAttachmentDescriptor|
            ColorInfo { format: a.attachment.texture.descriptor.format, load_op: a.load_op },
    )
}

pub open spec fn depth_stencil_info(d: Option<RenderPassDepthStencilAttachmentDescriptor>) -> Option<
    DepthStencilInfo,
> {
    match d {
        Some(a) => Some(
            DepthStencilInfo {
                format: a.attachment.texture.descriptor.format,
                stencil_load_op: a.stencil_load_op,
                depth_load_op: a.depth_load_op,
            },
        ),
        None => None,
    }
}

/// Beginning the render pass of command `idx`: look the render pass up (and
/// have it created when new), create a framebuffer that is deleted once the
/// pending submission completes, and begin the pass.
pub open spec fn render_pass_begin_outcome(
    dm: DeviceModel,
    idx: int,
    atts: Seq<RenderPassColorAttachmentDescriptor>,
    depth: Option<RenderPassDepthStencilAttachmentDescriptor>,
    width: u32,
    height: u32,
) -> Result<(DeviceModel, Seq<NativeCommand>), RecordError> {
    if dm.clock.0 == u64::MAX {
        Err(RecordError::SerialsExhausted)
    } else if dm.next_framebuffer == u64::MAX {
        Err(RecordError::FramebufferIdsExhausted)
    } else {
        let key = (color_infos(atts), depth_stencil_info(depth));
        let (keys, id) = render_pass_lookup(dm.render_passes, key);
        let fb = dm.next_framebuffer;
        let create = if dm.render_passes.contains(key) {
            Seq::empty()
        } else {
            seq![NativeCommand::CreateRenderPass { render_pass: id as u64 }]
        };
        Ok(
            (
                DeviceModel {
                    render_passes: keys,
                    next_framebuffer: (fb + 1) as u64,
                    deleter: dm.deleter.push((fb, (dm.clock.0 + 1) as u64)),
                    ..dm
                },
                create + seq![
                    NativeCommand::CreateFramebuffer {
                        framebuffer: fb,
                        render_pass: id as u64,
                        command: idx as usize,
                        width,
                        height,
                    },
                    NativeCommand::BeginRenderPass {
                        render_pass: id as u64,
                        framebuffer: fb,
                        command: idx as usize,
                        width,
                        height,
                    },
                ],
            ),
        )
    }
}

/// The dynamic state every render pass starts from.
pub open spec fn dynamic_state_defaults(width: u32, height: u32) -> Seq<NativeCommand> {
    seq![
        NativeCommand::SetLineWidth { width: F32_ONE_BITS },
        NativeCommand::SetDepthBounds { min: 0, max: F32_ONE_BITS },
        NativeCommand::SetStencilReference { reference: 0 },
        NativeCommand::SetBlendConstants { color: Color { r: 0, g: 0, b: 0, a: 0 } },
        NativeCommand::SetViewportExtent { width, height },
        NativeCommand::SetScissor { x: 0, y: 0, width, height },
    ]
}

pub fn record_render_pass_dynamic_state_defaults(ops: &mut Vec<NativeCommand>, width: u32, height: u32)
    ensures
        final(ops)@ == old(ops)@ + dynamic_state_defaults(width, height),
{
    ops.push(NativeCommand::SetLineWidth { width: F32_ONE_BITS });
    ops.push(NativeCommand::SetDepthBounds { min: 0, max: F32_ONE_BITS });
    ops.push(NativeCommand::SetStencilReference { reference: 0 });
    ops.push(NativeCommand::SetBlendConstants { color: Color { r: 0, g: 0, b: 0, a: 0 } });
    ops.push(NativeCommand::SetViewportExtent { width, height });
    ops.push(NativeCommand::SetScissor { x: 0, y: 0, width, height });
    assert(ops@ =~= old(ops)@ + dynamic_state_defaults(width, height));
}

pub fn record_render_pass_begin(
    device: &mut Device,
    ops: &mut Vec<NativeCommand>,
    command_index: usize,
    color_attachments: &Vec<RenderPassColorAttachmentDescriptor>,
    depth_stencil_attachment: &Option<RenderPassDepthStencilAttachmentDescriptor>,
    width: u32,
    height: u32,
) -> (r: Result<(), RecordError>)
    requires
        old(device).wf(),
    ensures
        final(device).wf(),
        match render_pass_begin_outcome(
            old(device).model(),
            command_index as int,
            color_attachments@,
            *depth_stencil_attachment,
            width,
            height,
        ) {
            Ok((d, o)) => r is Ok && final(device).model() == d && final(ops)@ == old(ops)@ + o,
            Err(e) => r == Err::<(), RecordError>(e) && *final(device) == *old(device),
        },
{
    if device.clock.get_last_submitted_serial() == u64::MAX {
        return Err(RecordError::SerialsExhausted);
    }
    if device.next_framebuffer == u64::MAX {
        return Err(RecordError::FramebufferIdsExhausted);
    }
    let mut query = RenderPassCacheQuery::new();
    let mut i: usize = 0;
    while i < color_attachments.len()
        invariant
            i <= color_attachments@.len(),
            query.key() == (color_infos(color_attachments@.subrange(0, i as int)), None::<DepthStencilInfo>),
        decreases color_attachments@.len() - i,
    {
        let a = &color_attachments[i];
        query.add_color(ColorInfo { format: a.attachment.texture.descriptor.format, load_op: a.load_op });
        i += 1;
        assert(color_infos(color_attachments@.subrange(0, i as int)) =~= color_infos(
            color_attachments@.subrange(0, i - 1),
        ).push(ColorInfo { format: a.attachment.texture.descriptor.format, load_op: a.load_op }));
    }
    assert(color_attachments@.subrange(0, i as int) =~= color_attachments@);
    if let Some(d) = depth_stencil_attachment {
        query.set_depth_stencil(
            DepthStencilInfo {
                format: d.attachment.texture.descriptor.format,
                stencil_load_op: d.stencil_load_op,
                depth_load_op: d.depth_load_op,
            },
        );
    }
    let (render_pass, created) = device.render_passes.get_render_pass(query);
    if created {
        ops.push(NativeCommand::CreateRenderPass { render_pass });
    }
    let framebuffer = device.next_framebuffer;
    device.next_framebuffer = framebuffer + 1;
    ops.push(
        NativeCommand::CreateFramebuffer { framebuffer, render_pass, command: command_index, width, height },
    );
    let serial = device.clock.get_next_pending_serial();
    device.deleter.delete_when_unused(framebuffer, serial);
    ops.push(
        NativeCommand::BeginRenderPass { render_pass, framebuffer, command: command_index, width, height },
    );
    let ghost outcome = render_pass_begin_outcome(
        old(device).model(),
        command_index as int,
        color_attachments@,
        *depth_stencil_attachment,
        width,
        height,
    );
    assert(ops@ =~= old(ops)@ + outcome.unwrap().1);
    assert(device.model() == outcome.unwrap().0);
    Ok(())
}


// ------------------------------------------------------------ pass bodies

/// A pass's recording state: the bind-state tracker and, in a render pass,
/// the index format of the last pipeline set.
pub type PassState = (DescriptorSetModel, Option<IndexFormat>);

pub open spec fn initial_pass_state() -> PassState {
    (crate::descriptor_set_tracker::empty_tracker_model(), None)
}

/// Flushing the tracker before a draw or dispatch.
pub open spec fn flushed(t: DescriptorSetModel, bind_point: BindPoint) -> (DescriptorSetModel, Seq<NativeCommand>) {
    if t.layout is Some {
        (model_after_flush(t), flush_calls(t, bind_point, MAX_BIND_GROUPS as nat))
    } else {
        (t, Seq::empty())
    }
}

pub open spec fn bind_group_step(st: PassState, index: u32, set: u64, has_offsets: bool, idx: int) -> Result<
    (PassState, Seq<NativeCommand>),
    RecordError,
> {
    if index >= MAX_BIND_GROUPS {
        Err(RecordError::BindGroupIndexOutOfRange)
    } else {
        let offsets = if has_offsets {
            Some(idx as usize)
        } else {
            None
        };
        Ok(((model_after_set_bind_group(st.0, index as int, set, offsets), st.1), Seq::empty()))
    }
}

/// What one command inside a pass records.
pub open spec fn pass_step(kind: PassType, st: PassState, cmd: Command, idx: int) -> Result<
    (PassState, Seq<NativeCommand>),
    RecordError,
> {
    let (t, format) = st;
    match kind {
        PassType::Render => match cmd {
            Command::Draw { vertex_count, instance_count, first_vertex, first_instance } => {
                let (t2, o) = flushed(t, BindPoint::Graphics);
                Ok(
                    (
                        (t2, format),
                        o.push(
                            NativeCommand::Draw { vertex_count, instance_count, first_vertex, first_instance },
                        ),
                    ),
                )
            },
            Command::DrawIndexed { index_count, instance_count, first_index, base_vertex, first_instance } => {
                let (t2, o) = flushed(t, BindPoint::Graphics);
                Ok(
                    (
                        (t2, format),
                        o.push(
                            NativeCommand::DrawIndexed {
                                index_count,
                                instance_count,
                                first_index,
                                base_vertex,
                                first_instance,
                            },
                        ),
                    ),
                )
            },
            Command::SetBindGroup { index, bind_group, dynamic_offsets } => bind_group_step(
                st,
                index,
                bind_group.handle,
                dynamic_offsets is Some,
                idx,
            ),
            Command::SetBlendColor { color } => Ok((st, seq![NativeCommand::SetBlendConstants { color }])),
            Command::SetIndexBuffer { buffer, offset } => match format {
                Some(f) => Ok(
                    (
                        st,
                        seq![
                            NativeCommand::BindIndexBuffer {
                                buffer: buffer.handle,
                                offset: offset as u64,
                                format: f,
                            },
                        ],
                    ),
                ),
                None => Err(RecordError::IndexBufferWithoutPipeline),
            },
            Command::SetVertexBuffers { .. } => Ok(
                (st, seq![NativeCommand::BindVertexBuffers { command: idx as usize }]),
            ),
            Command::SetRenderPipeline { pipeline } => Ok(
                (
                    (model_after_layout_change(t, layout_key(&pipeline.layout)), Some(pipeline.index_format)),
                    seq![NativeCommand::BindPipeline { bind_point: BindPoint::Graphics, pipeline: pipeline.handle }],
                ),
            ),
            Command::SetStencilReference { reference } => Ok(
                (st, seq![NativeCommand::SetStencilReference { reference }]),
            ),
            Command::SetScissorRect { x, y, width, height } => Ok(
                (st, seq![NativeCommand::SetScissor { x, y, width, height }]),
            ),
            Command::SetViewport { x, y, width, height, min_depth, max_depth } => Ok(
                (st, seq![NativeCommand::SetViewport { x, y, width, height, min_depth, max_depth }]),
            ),
            _ => Ok((st, Seq::empty())),
        },
        PassType::Compute => match cmd {
            Command::Dispatch { x, y, z } => {
                let (t2, o) = flushed(t, BindPoint::Compute);
                Ok(((t2, format), o.push(NativeCommand::Dispatch { x, y, z })))
            },
            Command::DispatchIndirect { buffer, offset } => {
                let (t2, o) = flushed(t, BindPoint::Compute);
                Ok(
                    (
                        (t2, format),
                        o.push(NativeCommand::DispatchIndirect { buffer: buffer.handle, offset }),
                    ),
                )
            },
            Command::SetComputePipeline { pipeline } => Ok(
                (
                    (model_after_layout_change(t, layout_key(&pipeline.layout)), format),
                    seq![NativeCommand::BindPipeline { bind_point: BindPoint::Compute, pipeline: pipeline.handle }],
                ),
            ),
            Command::SetBindGroup { index, bind_group, dynamic_offsets } => bind_group_step(
                st,
                index,
                bind_group.handle,
                dynamic_offsets is Some,
                idx,
            ),
            _ => Ok((st, Seq::empty())),
        },
    }
}

/// Whether `cmd` ends a pass of this kind.
pub open spec fn is_end(kind: PassType, cmd: Command) -> bool {
    match kind {
        PassType::Render => cmd is EndRenderPass,
        PassType::Compute => cmd is EndComputePass,
    }
}

/// The position of the first command at or after `from` that ends a pass of
/// this kind; the length of the log when there is none.
pub open spec fn first_end(kind: PassType, cmds: Seq<Command>, from: int) -> int
    decreases cmds.len() - from,
{
    if from >= cmds.len() || from < 0 {
        cmds.len() as int
    } else if is_end(kind, cmds[from]) {
        from
    } else {
        first_end(kind, cmds, from + 1)
    }
}

/// What commands `lo..hi` of a pass record, one after another.
pub open spec fn pass_body(kind: PassType, st: PassState, cmds: Seq<Command>, lo: int, hi: int) -> Result<
    (PassState, Seq<NativeCommand>),
    RecordError,
>
    decreases hi - lo,
{
    if hi <= lo {
        Ok((st, Seq::empty()))
    } else {
        match pass_body(kind, st, cmds, lo, hi - 1) {
            Err(e) => Err(e),
            Ok((s, o)) => match pass_step(kind, s, cmds[hi - 1], hi - 1) {
                Err(e) => Err(e),
                Ok((s2, o2)) => Ok((s2, o + o2)),
            },
        }
    }
}

proof fn lemma_first_end_bounds(kind: PassType, cmds: Seq<Command>, from: int)
    requires
        0 <= from <= cmds.len(),
    ensures
        from <= first_end(kind, cmds, from) <= cmds.len(),
        first_end(kind, cmds, from) < cmds.len() ==> is_end(kind, cmds[first_end(kind, cmds, from)]),
    decreases cmds.len() - from,
{
    if from < cmds.len() && !is_end(kind, cmds[from]) {
        lemma_first_end_bounds(kind, cmds, from + 1);
    }
}

proof fn lemma_pass_body_error_stays(kind: PassType, st: PassState, cmds: Seq<Command>, lo: int, k: int, k2: int)
    requires
        lo <= k <= k2,
        pass_body(kind, st, cmds, lo, k) is Err,
    ensures
        pass_body(kind, st, cmds, lo, k2) == pass_body(kind, st, cmds, lo, k),
    decreases k2 - k,
{
    if k2 > k {
        lemma_pass_body_error_stays(kind, st, cmds, lo, k, k2 - 1);
    }
}

/// A whole render pass starting at command `start`: its beginning, the
/// default dynamic state, its body, and its end. Also gives where it ends.
pub open spec fn render_pass_outcome(dm: DeviceModel, cmds: Seq<Command>, start: int) -> Result<
    (DeviceModel, Seq<NativeCommand>, int),
    RecordError,
> {
    match cmds[start] {
        Command::BeginRenderPass { color_attachments, depth_stencil_attachment, width, height, .. } => {
            match render_pass_begin_outcome(
                dm,
                start,
                color_attachments@,
                depth_stencil_attachment,
                width,
                height,
            ) {
                Err(e) => Err(e),
                Ok((d1, o1)) => {
                    let end = first_end(PassType::Render, cmds, start + 1);
                    match pass_body(PassType::Render, initial_pass_state(), cmds, start + 1, end) {
                        Err(e) => Err(e),
                        Ok((_, o2)) => if end < cmds.len() {
                            Ok(
                                (
                                    d1,
                                    o1 + dynamic_state_defaults(width, height) + o2 + seq![
                                        NativeCommand::EndRenderPass,
                                    ],
                                    end,
                                ),
                            )
                        } else {
                            Err(RecordError::UnterminatedPass)
                        },
                    }
                },
            }
        },
        _ => Err(RecordError::UnterminatedPass),
    }
}

/// A whole compute pass starting at command `start`, and where it ends.
pub open spec fn compute_pass_outcome(cmds: Seq<Command>, start: int) -> Result<(Seq<NativeCommand>, int), RecordError> {
    let end = first_end(PassType::Compute, cmds, start + 1);
    match pass_body(PassType::Compute, initial_pass_state(), cmds, start + 1, end) {
        Err(e) => Err(e),
        Ok((_, o)) => if end < cmds.len() {
            Ok((o, end))
        } else {
            Err(RecordError::UnterminatedPass)
        },
    }
}

fn flush_tracker(tracker: &mut DescriptorSetTracker, bind_point: BindPoint, ops: &mut Vec<NativeCommand>)
    requires
        old(tracker)@.wf(),
    ensures
        final(tracker)@.wf(),
        (final(tracker)@, final(ops)@) == ({
            let (t, o) = flushed(old(tracker)@, bind_point);
            (t, old(ops)@ + o)
        }),
{
    let _ = tracker.flush(bind_point, ops);
}

fn set_bind_group(
    tracker: &mut DescriptorSetTracker,
    index: u32,
    set: u64,
    has_offsets: bool,
    command_index: usize,
) -> (r: Result<(), RecordError>)
    requires
        old(tracker)@.wf(),
    ensures
        final(tracker)@.wf(),
        match bind_group_step((old(tracker)@, None), index, set, has_offsets, command_index as int) {
            Ok((st, _)) => r is Ok && final(tracker)@ == st.0,
            Err(e) => r == Err::<(), RecordError>(e),
        },
{
    if index as usize >= MAX_BIND_GROUPS {
        return Err(RecordError::BindGroupIndexOutOfRange);
    }
    let offsets = if has_offsets {
        Some(command_index)
    } else {
        None
    };
    tracker.on_set_bind_group(index, set, offsets);
    Ok(())
}

impl CommandBufferInner {
    pub open spec fn commands(&self) -> Seq<Command> {
        self.state.commands@
    }

    fn record_render_pass_command(
        &self,
        tracker: &mut DescriptorSetTracker,
        last_format: &mut Option<IndexFormat>,
        ops: &mut Vec<NativeCommand>,
        i: usize,
    ) -> (r: Result<(), RecordError>)
        requires
            old(tracker)@.wf(),
            i < self.commands().len(),
        ensures
            final(tracker)@.wf(),
            match pass_step(PassType::Render, (old(tracker)@, *old(last_format)), self.commands()[i as int], i as int) {
                Ok((st, o)) => r is Ok && (final(tracker)@, *final(last_format)) == st && final(ops)@ == old(ops)@ + o,
                Err(e) => r == Err::<(), RecordError>(e),
            },
    {
        let ghost o0 = ops@;
        match &self.state.commands[i] {
            Command::Draw { vertex_count, instance_count, first_vertex, first_instance } => {
                flush_tracker(tracker, BindPoint::Graphics, ops);
                ops.push(
                    NativeCommand::Draw {
                        vertex_count: *vertex_count,
                        instance_count: *instance_count,
                        first_vertex: *first_vertex,
                        first_instance: *first_instance,
                    },
                );
            },
            Command::DrawIndexed { index_count, instance_count, first_index, base_vertex, first_instance } => {
                flush_tracker(tracker, BindPoint::Graphics, ops);
                ops.push(
                    NativeCommand::DrawIndexed {
                        index_count: *index_count,
                        instance_count: *instance_count,
                        first_index: *first_index,
                        base_vertex: *base_vertex,
                        first_instance: *first_instance,
                    },
                );
            },
            Command::SetBindGroup { index, bind_group, dynamic_offsets } => {
                let has_offsets = dynamic_offsets.is_some();
                let r = set_bind_group(tracker, *index, bind_group.handle, has_offsets, i);
                assert(ops@ =~= o0 + Seq::<NativeCommand>::empty());
                return r;
            },
            Command::SetBlendColor { color } => {
                ops.push(NativeCommand::SetBlendConstants { color: *color });
            },
            Command::SetIndexBuffer { buffer, offset } => {
                match *last_format {
                    Some(format) => {
                        ops.push(
                            NativeCommand::BindIndexBuffer { buffer: buffer.handle, offset: *offset as u64, format },
                        );
                    },
                    None => {
                        return Err(RecordError::IndexBufferWithoutPipeline);
                    },
                }
            },
            Command::SetVertexBuffers { .. } => {
                ops.push(NativeCommand::BindVertexBuffers { command: i });
            },
            Command::SetRenderPipeline { pipeline } => {
                *last_format = Some(pipeline.index_format);
                ops.push(NativeCommand::BindPipeline { bind_point: BindPoint::Graphics, pipeline: pipeline.handle });
                tracker.on_pipeline_layout_change(&pipeline.layout);
            },
            Command::SetStencilReference { reference } => {
                ops.push(NativeCommand::SetStencilReference { reference: *reference });
            },
            Command::SetScissorRect { x, y, width, height } => {
                ops.push(NativeCommand::SetScissor { x: *x, y: *y, width: *width, height: *height });
            },
            Command::SetViewport { x, y, width, height, min_depth, max_depth } => {
                ops.push(
                    NativeCommand::SetViewport {
                        x: *x,
                        y: *y,
                        width: *width,
                        height: *height,
                        min_depth: *min_depth,
                        max_depth: *max_depth,
                    },
                );
            },
            _ => {
                assert(ops@ =~= o0 + Seq::<NativeCommand>::empty());
            },
        }
        Ok(())
    }

    fn record_compute_pass_command(
        &self,
        tracker: &mut DescriptorSetTracker,
        ops: &mut Vec<NativeCommand>,
        i: usize,
    ) -> (r: Result<(), RecordError>)
        requires
            old(tracker)@.wf(),
            i < self.commands().len(),
        ensures
            final(tracker)@.wf(),
            match pass_step(PassType::Compute, (old(tracker)@, None), self.commands()[i as int], i as int) {
                Ok((st, o)) => r is Ok && final(tracker)@ == st.0 && final(ops)@ == old(ops)@ + o,
                Err(e) => r == Err::<(), RecordError>(e),
            },
    {
        let ghost o0 = ops@;
        match &self.state.commands[i] {
            Command::Dispatch { x, y, z } => {
                flush_tracker(tracker, BindPoint::Compute, ops);
                ops.push(NativeCommand::Dispatch { x: *x, y: *y, z: *z });
            },
            Command::DispatchIndirect { buffer, offset } => {
                flush_tracker(tracker, BindPoint::Compute, ops);
                ops.push(NativeCommand::DispatchIndirect { buffer: buffer.handle, offset: *offset });
            },
            Command::SetComputePipeline { pipeline } => {
                ops.push(NativeCommand::BindPipeline { bind_point: BindPoint::Compute, pipeline: pipeline.handle });
                tracker.on_pipeline_layout_change(&pipeline.layout);
            },
            Command::SetBindGroup { index, bind_group, dynamic_offsets } => {
                let has_offsets = dynamic_offsets.is_some();
                let r = set_bind_group(tracker, *index, bind_group.handle, has_offsets, i);
                assert(ops@ =~= o0 + Seq::<NativeCommand>::empty());
                return r;
            },
            _ => {
                assert(ops@ =~= o0 + Seq::<NativeCommand>::empty());
            },
        }
        Ok(())
    }
}


impl CommandBufferInner {
    /// Records the render pass that command `command_index` begins, up to and
    /// including its end; returns the position of the end.
    pub fn record_render_pass(
        &self,
        device: &mut Device,
        ops: &mut Vec<NativeCommand>,
        command_index: usize,
    ) -> (r: Result<usize, RecordError>)
        requires
            old(device).wf(),
            command_index < self.commands().len(),
            self.commands()[command_index as int] is BeginRenderPass,
        ensures
            final(device).wf(),
            r matches Ok(end) ==> command_index < end < self.commands().len(),
            match render_pass_outcome(old(device).model(), self.commands(), command_index as int) {
                Ok((d, o, end)) => (r matches Ok(e) && e == end) && final(device).model() == d
                    && final(ops)@ == old(ops)@ + o,
                Err(e) => r == Err::<usize, RecordError>(e),
            },
    {
        let cmds = &self.state.commands;
        let ghost c = self.commands();
        let (color_attachments, depth_stencil_attachment, width, height) = match &cmds[command_index] {
            Command::BeginRenderPass { color_attachments, depth_stencil_attachment, width, height, .. } => (
                color_attachments,
                depth_stencil_attachment,
                *width,
                *height,
            ),
            _ => {
                return Err(RecordError::UnterminatedPass);
            },
        };
        match record_render_pass_begin(
            device,
            ops,
            command_index,
            color_attachments,
            depth_stencil_attachment,
            width,
            height,
        ) {
            Ok(()) => {},
            Err(e) => {
                return Err(e);
            },
        }
        let ghost begun = render_pass_begin_outcome(
            old(device).model(),
            command_index as int,
            color_attachments@,
            *depth_stencil_attachment,
            width,
            height,
        ).unwrap();
        record_render_pass_dynamic_state_defaults(ops, width, height);
        let ghost base = ops@;
        assert(base == old(ops)@ + begun.1 + dynamic_state_defaults(width, height));
        let ghost lo: int = command_index as int + 1;
        let mut tracker = DescriptorSetTracker::new();
        let mut last_format: Option<IndexFormat> = None;
        let n = cmds.len();
        let mut i: usize = command_index + 1;
        assert(ops@ =~= base + Seq::<NativeCommand>::empty());
        while i < n
            invariant
                lo <= i <= c.len(),
                lo == command_index as int + 1,
                c == self.commands(),
                cmds@ == c,
                n == c.len(),
                device.wf(),
                device.model() == begun.0,
                base == old(ops)@ + begun.1 + dynamic_state_defaults(width, height),
                render_pass_begin_outcome(
                    old(device).model(),
                    command_index as int,
                    color_attachments@,
                    *depth_stencil_attachment,
                    width,
                    height,
                ) == Ok::<(DeviceModel, Seq<NativeCommand>), RecordError>(begun),
                c[command_index as int] == (Command::BeginRenderPass {
                    color_attachments: *color_attachments,
                    depth_stencil_attachment: *depth_stencil_attachment,
                    width,
                    height,
                    sample_count: c[command_index as int]->BeginRenderPass_sample_count,
                }),
                tracker@.wf(),
                first_end(PassType::Render, c, lo) == first_end(PassType::Render, c, i as int),
                pass_body(PassType::Render, initial_pass_state(), c, lo, i as int) is Ok,
                pass_body(PassType::Render, initial_pass_state(), c, lo, i as int).unwrap().0 == (tracker@, last_format),
                ops@ == base + pass_body(PassType::Render, initial_pass_state(), c, lo, i as int).unwrap().1,
            decreases c.len() - i,
        {
            if let Command::EndRenderPass = &cmds[i] {
                ops.push(NativeCommand::EndRenderPass);
                assert(first_end(PassType::Render, c, i as int) == i);
                assert(ops@ =~= old(ops)@ + render_pass_outcome(old(device).model(), c, command_index as int).unwrap().1);
                return Ok(i);
            }
            proof {
                lemma_first_end_bounds(PassType::Render, c, i + 1);
            }
            let step = self.record_render_pass_command(&mut tracker, &mut last_format, ops, i);
            match step {
                Ok(()) => {},
                Err(e) => {
                    proof {
                        lemma_pass_body_error_stays(
                            PassType::Render,
                            initial_pass_state(),
                            c,
                            lo,
                            i + 1,
                            first_end(PassType::Render, c, lo),
                        );
                    }
                    return Err(e);
                },
            }
            i += 1;
            assert(ops@ =~= base + pass_body(PassType::Render, initial_pass_state(), c, lo, i as int).unwrap().1);
        }
        Err(RecordError::UnterminatedPass)
    }

    /// Records the compute pass that command `command_index` begins, up to
    /// its end; returns the position of the end.
    pub fn record_compute_pass(&self, ops: &mut Vec<NativeCommand>, command_index: usize) -> (r: Result<
        usize,
        RecordError,
    >)
        requires
            command_index < self.commands().len(),
        ensures
            r matches Ok(end) ==> command_index < end < self.commands().len(),
            match compute_pass_outcome(self.commands(), command_index as int) {
                Ok((o, end)) => (r matches Ok(e) && e == end) && final(ops)@ == old(ops)@ + o,
                Err(e) => r == Err::<usize, RecordError>(e),
            },
    {
        let cmds = &self.state.commands;
        let ghost c = self.commands();
        let ghost base = ops@;
        let ghost lo: int = command_index as int + 1;
        let mut tracker = DescriptorSetTracker::new();
        let n = cmds.len();
        let mut i: usize = command_index + 1;
        assert(ops@ =~= base + Seq::<NativeCommand>::empty());
        while i < n
            invariant
                lo <= i <= c.len(),
                lo == command_index as int + 1,
                c == self.commands(),
                cmds@ == c,
                n == c.len(),
                base == old(ops)@,
                tracker@.wf(),
                first_end(PassType::Compute, c, lo) == first_end(PassType::Compute, c, i as int),
                pass_body(PassType::Compute, initial_pass_state(), c, lo, i as int) is Ok,
                pass_body(PassType::Compute, initial_pass_state(), c, lo, i as int).unwrap().0 == (
                    tracker@,
                    None::<IndexFormat>,
                ),
                ops@ == base + pass_body(PassType::Compute, initial_pass_state(), c, lo, i as int).unwrap().1,
            decreases c.len() - i,
        {
            if let Command::EndComputePass = &cmds[i] {
                assert(first_end(PassType::Compute, c, i as int) == i);
                return Ok(i);
            }
            proof {
                lemma_first_end_bounds(PassType::Compute, c, i + 1);
            }
            let step = self.record_compute_pass_command(&mut tracker, ops, i);
            match step {
                Ok(()) => {},
                Err(e) => {
                    proof {
                        lemma_pass_body_error_stays(
                            PassType::Compute,
                            initial_pass_state(),
                            c,
                            lo,
                            i + 1,
                            first_end(PassType::Compute, c, lo),
                        );
                    }
                    return Err(e);
                },
            }
            i += 1;
            assert(ops@ =~= base + pass_body(PassType::Compute, initial_pass_state(), c, lo, i as int).unwrap().1);
        }
        Err(RecordError::UnterminatedPass)
    }
}


} // verus!
