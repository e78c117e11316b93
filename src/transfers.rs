//! Copies and the resource transitions that precede them and each pass.

use vstd::prelude::*;

use crate::command::{BufferCopy, Command, TextureCopy};
use crate::device::{aspect_mask, aspect_of, buffer_transition, texture_transition, Device};
use crate::flags::{
    BUFFER_TRANSFER_DST, BUFFER_TRANSFER_SRC, TEXTURE_TRANSFER_DST, TEXTURE_TRANSFER_SRC,
};
use crate::native::{BufferImageCopy, ImageCopy, NativeCommand, SubresourceLayer};
use crate::pass_resource_usage::PassResourceUsage;
use crate::recorder::DeviceModel;
use crate::usage_table::{keys_unique, resource_pairs};
use crate::types::{Buffer, Extent3D, Texture};

verus! {

pub open spec fn buffer_image_region(b: BufferCopy, t: TextureCopy, size: Extent3D) -> BufferImageCopy {
    BufferImageCopy {
        buffer_offset: b.offset,
        buffer_row_length: b.row_pitch,
        buffer_image_height: b.image_height,
        image_subresource: SubresourceLayer {
            aspect_mask: aspect_of(t.texture.descriptor.format),
            mip_level: t.mip_level,
            base_array_layer: t.array_layer,
            layer_count: 1,
        },
        image_offset: t.origin_texels,
        image_extent: size,
    }
}

pub open spec fn image_region(src: TextureCopy, dst: TextureCopy, size: Extent3D) -> ImageCopy {
    ImageCopy {
        src_subresource: SubresourceLayer {
            aspect_mask: aspect_of(src.texture.descriptor.format),
            mip_level: src.mip_level,
            base_array_layer: src.array_layer,
            layer_count: 1,
        },
        src_offset: src.origin_texels,
        dst_subresource: SubresourceLayer {
            aspect_mask: aspect_of(dst.texture.descriptor.format),
            mip_level: dst.mip_level,
            base_array_layer: dst.array_layer,
            layer_count: 1,
        },
        dst_offset: dst.origin_texels,
        extent: size,
    }
}

/// The region of a copy between a buffer and one layer of a texture.
pub fn buffer_image_copy(buffer_copy: &BufferCopy, texture_copy: &TextureCopy, size_texels: Extent3D) -> (r:
    BufferImageCopy)
    ensures
        r == buffer_image_region(*buffer_copy, *texture_copy, size_texels),
{
    BufferImageCopy {
        buffer_offset: buffer_copy.offset,
        buffer_row_length: buffer_copy.row_pitch,
        buffer_image_height: buffer_copy.image_height,
        image_subresource: SubresourceLayer {
            aspect_mask: aspect_mask(texture_copy.texture.descriptor.format),
            mip_level: texture_copy.mip_level,
            base_array_layer: texture_copy.array_layer,
            layer_count: 1,
        },
        image_offset: texture_copy.origin_texels,
        image_extent: size_texels,
    }
}

/// The region of a copy between one layer of each of two textures.
pub fn image_copy(src: &TextureCopy, dst: &TextureCopy, size_texels: Extent3D) -> (r: ImageCopy)
    ensures
        r == image_region(*src, *dst, size_texels),
{
    ImageCopy {
        src_subresource: SubresourceLayer {
            aspect_mask: aspect_mask(src.texture.descriptor.format),
            mip_level: src.mip_level,
            base_array_layer: src.array_layer,
            layer_count: 1,
        },
        src_offset: src.origin_texels,
        dst_subresource: SubresourceLayer {
            aspect_mask: aspect_mask(dst.texture.descriptor.format),
            mip_level: dst.mip_level,
            base_array_layer: dst.array_layer,
            layer_count: 1,
        },
        dst_offset: dst.origin_texels,
        extent: size_texels,
    }
}

pub open spec fn with_buffer(dm: DeviceModel, h: u64, usage: u32) -> (DeviceModel, Seq<NativeCommand>) {
    (DeviceModel { buffers: dm.buffers.insert(h, usage), ..dm }, buffer_transition(dm.buffers, h, usage))
}

pub open spec fn with_texture(dm: DeviceModel, t: Texture, usage: u32) -> (DeviceModel, Seq<NativeCommand>) {
    (
        DeviceModel { textures: dm.textures.insert(t.handle, usage), ..dm },
        texture_transition(dm.textures, t, usage),
    )
}

/// A copy command: each side moved to its transfer usage, then the copy.
pub open spec fn copy_outcome(dm: DeviceModel, cmd: Command) -> (DeviceModel, Seq<NativeCommand>) {
    match cmd {
        Command::CopyBufferToBuffer { src, dst, size_bytes } => {
            let (d1, o1) = with_buffer(dm, src.buffer.handle, BUFFER_TRANSFER_SRC);
            let (d2, o2) = with_buffer(d1, dst.buffer.handle, BUFFER_TRANSFER_DST);
            (
                d2,
                o1 + o2 + seq![
                    NativeCommand::CopyBuffer {
                        src: src.buffer.handle,
                        dst: dst.buffer.handle,
                        src_offset: src.offset,
                        dst_offset: dst.offset,
                        size: size_bytes,
                    },
                ],
            )
        },
        Command::CopyBufferToTexture { src, dst, size_texels } => {
            let (d1, o1) = with_buffer(dm, src.buffer.handle, BUFFER_TRANSFER_SRC);
            let (d2, o2) = with_texture(d1, dst.texture, TEXTURE_TRANSFER_DST);
            (
                d2,
                o1 + o2 + seq![
                    NativeCommand::CopyBufferToImage {
                        buffer: src.buffer.handle,
                        image: dst.texture.handle,
                        region: buffer_image_region(src, dst, size_texels),
                    },
                ],
            )
        },
        Command::CopyTextureToBuffer { src, dst, size_texels } => {
            let (d1, o1) = with_texture(dm, src.texture, TEXTURE_TRANSFER_SRC);
            let (d2, o2) = with_buffer(d1, dst.buffer.handle, BUFFER_TRANSFER_DST);
            (
                d2,
                o1 + o2 + seq![
                    NativeCommand::CopyImageToBuffer {
                        image: src.texture.handle,
                        buffer: dst.buffer.handle,
                        region: buffer_image_region(dst, src, size_texels),
                    },
                ],
            )
        },
        Command::CopyTextureToTexture { src, dst, size_texels } => {
            let (d1, o1) = with_texture(dm, src.texture, TEXTURE_TRANSFER_SRC);
            let (d2, o2) = with_texture(d1, dst.texture, TEXTURE_TRANSFER_DST);
            (
                d2,
                o1 + o2 + seq![
                    NativeCommand::CopyImage {
                        src: src.texture.handle,
                        dst: dst.texture.handle,
                        region: image_region(src, dst, size_texels),
                    },
                ],
            )
        },
        _ => (dm, Seq::empty()),
    }
}

pub open spec fn is_copy(cmd: Command) -> bool {
    ||| cmd is CopyBufferToBuffer
    ||| cmd is CopyBufferToTexture
    ||| cmd is CopyTextureToBuffer
    ||| cmd is CopyTextureToTexture
}

// ---------------------------------------------------------- pass transitions

/// Every buffer of `entries` moved, in order, to its usage.
pub open spec fn buffers_moved(dm: DeviceModel, entries: Seq<(Buffer, u32)>) -> (DeviceModel, Seq<NativeCommand>)
    decreases entries.len(),
{
    if entries.len() == 0 {
        (dm, Seq::empty())
    } else {
        let (d1, o1) = buffers_moved(dm, entries.drop_last());
        let (d2, o2) = with_buffer(d1, entries.last().0.handle, entries.last().1);
        (d2, o1 + o2)
    }
}

/// Every texture of `entries` moved, in order, to its usage.
pub open spec fn textures_moved(dm: DeviceModel, entries: Seq<(Texture, u32)>) -> (DeviceModel, Seq<NativeCommand>)
    decreases entries.len(),
{
    if entries.len() == 0 {
        (dm, Seq::empty())
    } else {
        let (d1, o1) = textures_moved(dm, entries.drop_last());
        let (d2, o2) = with_texture(d1, entries.last().0, entries.last().1);
        (d2, o1 + o2)
    }
}

/// A pass's resources moved to their aggregated usage: buffers, then textures.
pub open spec fn pass_transitions(dm: DeviceModel, usage: PassResourceUsage) -> (DeviceModel, Seq<NativeCommand>) {
    let (d1, o1) = buffers_moved(dm, usage.buffers@);
    let (d2, o2) = textures_moved(d1, usage.textures@);
    (d2, o1 + o2)
}

impl PassResourceUsage {
    /// Moves every resource of the pass to its aggregated usage.
    pub fn transition_for_pass(&self, device: &mut Device, ops: &mut Vec<NativeCommand>)
        requires
            old(device).wf(),
        ensures
            final(device).wf(),
            (final(device).model(), final(ops)@) == ({
                let (d, o) = pass_transitions(old(device).model(), *self);
                (d, old(ops)@ + o)
            }),
    {
        let ghost start = ops@;
        let mut i: usize = 0;
        while i < self.buffers.len()
            invariant
                device.wf(),
                i <= self.buffers@.len(),
                (device.model(), ops@) == ({
                    let (d, o) = buffers_moved(old(device).model(), self.buffers@.subrange(0, i as int));
                    (d, start + o)
                }),
            decreases self.buffers@.len() - i,
        {
            let (buffer, usage) = self.buffers[i];
            proof {
                assert(self.buffers@.subrange(0, i + 1).drop_last() =~= self.buffers@.subrange(0, i as int));
            }
            device.transition_buffer(buffer, usage, ops);
            i += 1;
            proof {
                let (d, o) = buffers_moved(old(device).model(), self.buffers@.subrange(0, i as int));
                assert(device.model() == d);
                assert(ops@ =~= start + o);
            }
        }
        assert(self.buffers@.subrange(0, i as int) =~= self.buffers@);
        let ghost mid = device.model();
        let ghost mid_ops = ops@;
        let mut j: usize = 0;
        while j < self.textures.len()
            invariant
                device.wf(),
                j <= self.textures@.len(),
                (device.model(), ops@) == ({
                    let (d, o) = textures_moved(mid, self.textures@.subrange(0, j as int));
                    (d, mid_ops + o)
                }),
            decreases self.textures@.len() - j,
        {
            let (texture, usage) = self.textures[j];
            proof {
                assert(self.textures@.subrange(0, j + 1).drop_last() =~= self.textures@.subrange(0, j as int));
            }
            device.transition_texture(texture, usage, ops);
            j += 1;
            proof {
                let (d, o) = textures_moved(mid, self.textures@.subrange(0, j as int));
                assert(device.model() == d);
                assert(ops@ =~= mid_ops + o);
            }
        }
        assert(self.textures@.subrange(0, j as int) =~= self.textures@);
        assert(ops@ =~= old(ops)@ + pass_transitions(old(device).model(), *self).1);
    }
}


pub(crate) fn record_copy(device: &mut Device, cmd: &Command, ops: &mut Vec<NativeCommand>)
    requires
        old(device).wf(),
        is_copy(*cmd),
    ensures
        final(device).wf(),
        (final(device).model(), final(ops)@) == ({
            let (d, o) = copy_outcome(old(device).model(), *cmd);
            (d, old(ops)@ + o)
        }),
{
    match cmd {
        Command::CopyBufferToBuffer { src, dst, size_bytes } => {
            device.transition_buffer(src.buffer, BUFFER_TRANSFER_SRC, ops);
            device.transition_buffer(dst.buffer, BUFFER_TRANSFER_DST, ops);
            ops.push(
                NativeCommand::CopyBuffer {
                    src: src.buffer.handle,
                    dst: dst.buffer.handle,
                    src_offset: src.offset,
                    dst_offset: dst.offset,
                    size: *size_bytes,
                },
            );
        },
        Command::CopyBufferToTexture { src, dst, size_texels } => {
            device.transition_buffer(src.buffer, BUFFER_TRANSFER_SRC, ops);
            device.transition_texture(dst.texture, TEXTURE_TRANSFER_DST, ops);
            let region = buffer_image_copy(src, dst, *size_texels);
            ops.push(
                NativeCommand::CopyBufferToImage { buffer: src.buffer.handle, image: dst.texture.handle, region },
            );
        },
        Command::CopyTextureToBuffer { src, dst, size_texels } => {
            device.transition_texture(src.texture, TEXTURE_TRANSFER_SRC, ops);
            device.transition_buffer(dst.buffer, BUFFER_TRANSFER_DST, ops);
            let region = buffer_image_copy(dst, src, *size_texels);
            ops.push(
                NativeCommand::CopyImageToBuffer { image: src.texture.handle, buffer: dst.buffer.handle, region },
            );
        },
        Command::CopyTextureToTexture { src, dst, size_texels } => {
            device.transition_texture(src.texture, TEXTURE_TRANSFER_SRC, ops);
            device.transition_texture(dst.texture, TEXTURE_TRANSFER_DST, ops);
            let region = image_copy(src, dst, *size_texels);
            ops.push(NativeCommand::CopyImage { src: src.texture.handle, dst: dst.texture.handle, region });
        },
        _ => {},
    }
    assert(ops@ =~= old(ops)@ + copy_outcome(old(device).model(), *cmd).1);
}


/// After a buffer-to-buffer copy is recorded, the destination is in its
/// transfer-destination usage, the source (when it is another buffer) in its
/// transfer-source usage, and the copy is the last command recorded.
pub proof fn lemma_copy_leaves_transfer_usages(dm: DeviceModel, src: BufferCopy, dst: BufferCopy, size_bytes: u64)
    ensures
        ({
            let (d, o) = copy_outcome(dm, Command::CopyBufferToBuffer { src, dst, size_bytes });
            &&& d.buffers[dst.buffer.handle] == BUFFER_TRANSFER_DST
            &&& src.buffer.handle != dst.buffer.handle ==> d.buffers[src.buffer.handle] == BUFFER_TRANSFER_SRC
            &&& o.len() > 0
            &&& o.last() == (NativeCommand::CopyBuffer {
                src: src.buffer.handle,
                dst: dst.buffer.handle,
                src_offset: src.offset,
                dst_offset: dst.offset,
                size: size_bytes,
            })
        }),
{
}

proof fn lemma_buffers_moved(dm: DeviceModel, entries: Seq<(Buffer, u32)>)
    requires
        keys_unique(resource_pairs(entries)),
    ensures
        forall|i: int|
            0 <= i < entries.len() ==> #[trigger] buffers_moved(dm, entries).0.buffers[entries[i].0.handle]
                == entries[i].1,
    decreases entries.len(),
{
    if entries.len() > 0 {
        let prev = entries.drop_last();
        assert(resource_pairs(prev) =~= resource_pairs(entries).drop_last());
        lemma_buffers_moved(dm, prev);
        let last = entries.last();
        assert(buffers_moved(dm, entries).0.buffers == buffers_moved(dm, prev).0.buffers.insert(
            last.0.handle,
            last.1,
        ));
        assert forall|i: int| 0 <= i < entries.len() implies #[trigger] buffers_moved(dm, entries).0.buffers[entries[i].0.handle]
            == entries[i].1 by {
            if i < entries.len() - 1 {
                assert(resource_pairs(entries)[i] == (entries[i].0.handle, entries[i].1));
                assert(prev[i] == entries[i]);
                assert(resource_pairs(entries)[i].0 != resource_pairs(entries)[entries.len() - 1].0);
            }
        }
    }
}

proof fn lemma_textures_moved(dm: DeviceModel, entries: Seq<(Texture, u32)>)
    requires
        keys_unique(resource_pairs(entries)),
    ensures
        forall|i: int|
            0 <= i < entries.len() ==> #[trigger] textures_moved(dm, entries).0.textures[entries[i].0.handle]
                == entries[i].1,
        textures_moved(dm, entries).0.buffers == dm.buffers,
    decreases entries.len(),
{
    if entries.len() > 0 {
        let prev = entries.drop_last();
        assert(resource_pairs(prev) =~= resource_pairs(entries).drop_last());
        lemma_textures_moved(dm, prev);
        let last = entries.last();
        assert(textures_moved(dm, entries).0.textures == textures_moved(dm, prev).0.textures.insert(
            last.0.handle,
            last.1,
        ));
        assert forall|i: int| 0 <= i < entries.len() implies #[trigger] textures_moved(dm, entries).0.textures[entries[i].0.handle]
            == entries[i].1 by {
            if i < entries.len() - 1 {
                assert(resource_pairs(entries)[i] == (entries[i].0.handle, entries[i].1));
                assert(prev[i] == entries[i]);
                assert(resource_pairs(entries)[i].0 != resource_pairs(entries)[entries.len() - 1].0);
            }
        }
    }
}

/// Before the first command of a pass, every buffer and texture of the
/// pass's usage is in exactly its aggregated usage.
pub proof fn lemma_pass_transitions_reach_usage(dm: DeviceModel, usage: PassResourceUsage)
    requires
        usage.wf(),
    ensures
        forall|i: int|
            0 <= i < usage.buffers@.len() ==> #[trigger] pass_transitions(dm, usage).0.buffers[usage.buffers@[i].0.handle]
                == usage.buffers@[i].1,
        forall|i: int|
            0 <= i < usage.textures@.len() ==> #[trigger] pass_transitions(dm, usage).0.textures[usage.textures@[i].0.handle]
                == usage.textures@[i].1,
{
    lemma_buffers_moved(dm, usage.buffers@);
    let d1 = buffers_moved(dm, usage.buffers@).0;
    lemma_textures_moved(d1, usage.textures@);
}

} // verus!
