use vstd::prelude::*;

use crate::fenced_deleter::{due, pending, FencedDeleter};
use crate::flags::{
    BufferUsageFlags, TextureAspectFlags, TextureUsageFlags, ASPECT_COLOR, ASPECT_DEPTH,
    ASPECT_STENCIL,
};
use crate::native::NativeCommand;
use crate::render_pass::RenderPassCache;
use crate::serial::{clock_step, ClockEvent, Serial, SerialClock};
use crate::types::{Buffer, Texture, TextureFormat};
use crate::usage_table::{usage_in, UsageTable};

verus! {

/// The aspects of a texture of the given format.
pub open spec fn aspect_of(format: TextureFormat) -> TextureAspectFlags {
    match format {
        TextureFormat::D32FloatS8Uint => (ASPECT_DEPTH | ASPECT_STENCIL) as u32,
        _ => ASPECT_COLOR,
    }
}

pub fn aspect_mask(format: TextureFormat) -> (r: TextureAspectFlags)
    ensures
        r == aspect_of(format),
{
    match format {
        TextureFormat::D32FloatS8Uint => ASPECT_DEPTH | ASPECT_STENCIL,
        _ => ASPECT_COLOR,
    }
}

/// The barrier that moves buffer `h` from what `states` holds for it to
/// `usage`; none when it is already there.
pub open spec fn buffer_transition(states: Map<u64, u32>, h: u64, usage: BufferUsageFlags) -> Seq<
    NativeCommand,
> {
    if usage_in(states, h) == usage {
        Seq::empty()
    } else {
        seq![NativeCommand::BufferBarrier { buffer: h, from: usage_in(states, h), to: usage }]
    }
}

/// The barrier that moves `texture` from what `states` holds for it to
/// `usage`; none when it is already there.
pub open spec fn texture_transition(
    states: Map<u64, u32>,
    texture: Texture,
    usage: TextureUsageFlags,
) -> Seq<NativeCommand> {
    let h = texture.handle;
    if usage_in(states, h) == usage {
        Seq::empty()
    } else {
        seq![
            NativeCommand::TextureBarrier {
                texture: h,
                aspect: aspect_of(texture.descriptor.format),
                from: usage_in(states, h),
                to: usage,
            },
        ]
    }
}

/// The device-wide state: serials, deferred deletions, cached render passes,
/// the current usage of each resource and the next framebuffer id.
pub struct Device {
    pub clock: SerialClock,
    pub deleter: FencedDeleter,
    pub render_passes: RenderPassCache,
    pub buffer_states: UsageTable<Buffer>,
    pub texture_states: UsageTable<Texture>,
    pub next_framebuffer: u64,
}

impl Device {
    pub open spec fn wf(&self) -> bool {
        &&& self.clock.wf()
        &&& self.render_passes.wf()
        &&& self.buffer_states.wf()
        &&& self.texture_states.wf()
    }

    pub fn new() -> (r: Device)
        ensures
            r.wf(),
            r.clock.last_submitted == 0,
            r.clock.last_completed == 0,
            r.deleter.entries@.len() == 0,
            r.render_passes.keys().len() == 0,
            r.buffer_states.map() == Map::<u64, u32>::empty(),
            r.texture_states.map() == Map::<u64, u32>::empty(),
            r.next_framebuffer == 0,
    {
        Device {
            clock: SerialClock::new(),
            deleter: FencedDeleter::new(),
            render_passes: RenderPassCache::new(),
            buffer_states: UsageTable::new(),
            texture_states: UsageTable::new(),
            next_framebuffer: 0,
        }
    }

    /// Moves `buffer` to `usage`, appending a barrier to `ops` unless it is
    /// already there.
    pub fn transition_buffer(
        &mut self,
        buffer: Buffer,
        usage: BufferUsageFlags,
        ops: &mut Vec<NativeCommand>,
    )
        requires
            old(self).wf(),
        ensures
            final(self).wf(),
            final(self).buffer_states.map() == old(self).buffer_states.map().insert(
                buffer.handle,
                usage,
            ),
            final(ops)@ == old(ops)@ + buffer_transition(
                old(self).buffer_states.map(),
                buffer.handle,
                usage,
            ),
            final(self).texture_states == old(self).texture_states,
            final(self).clock == old(self).clock,
            final(self).deleter == old(self).deleter,
            final(self).render_passes == old(self).render_passes,
            final(self).next_framebuffer == old(self).next_framebuffer,
    {
        let current = self.buffer_states.get(buffer.handle);
        if current != usage {
            ops.push(NativeCommand::BufferBarrier { buffer: buffer.handle, from: current, to: usage });
        }
        self.buffer_states.set(buffer, usage);
        assert(ops@ =~= old(ops)@ + buffer_transition(
            old(self).buffer_states.map(),
            buffer.handle,
            usage,
        ));
    }

    /// Moves `texture` to `usage`, appending a barrier to `ops` unless it is
    /// already there.
    pub fn transition_texture(
        &mut self,
        texture: Texture,
        usage: TextureUsageFlags,
        ops: &mut Vec<NativeCommand>,
    )
        requires
            old(self).wf(),
        ensures
            final(self).wf(),
            final(self).texture_states.map() == old(self).texture_states.map().insert(
                texture.handle,
                usage,
            ),
            final(ops)@ == old(ops)@ + texture_transition(
                old(self).texture_states.map(),
                texture,
                usage,
            ),
            final(self).buffer_states == old(self).buffer_states,
            final(self).clock == old(self).clock,
            final(self).deleter == old(self).deleter,
            final(self).render_passes == old(self).render_passes,
            final(self).next_framebuffer == old(self).next_framebuffer,
    {
        let current = self.texture_states.get(texture.handle);
        if current != usage {
            let aspect = aspect_mask(texture.descriptor.format);
            ops.push(
                NativeCommand::TextureBarrier { texture: texture.handle, aspect, from: current, to: usage },
            );
        }
        self.texture_states.set(texture, usage);
        assert(ops@ =~= old(ops)@ + texture_transition(
            old(self).texture_states.map(),
            texture,
            usage,
        ));
    }

    /// Takes in the serial the driver reports as completed, then removes and
    /// returns the handles whose deletion was waiting for it.
    pub fn tick(&mut self, observed_completed: Serial) -> (r: Vec<u64>)
        requires
            old(self).wf(),
        ensures
            final(self).wf(),
            final(self).clock.pair() == clock_step(
                old(self).clock.pair(),
                ClockEvent::Tick(observed_completed),
            ),
            r@ == due(old(self).deleter.entries@, final(self).clock.last_completed).map_values(
                |e: (u64, Serial)| e.0,
            ),
            final(self).deleter.entries@ == pending(
                old(self).deleter.entries@,
                final(self).clock.last_completed,
            ),
            final(self).render_passes == old(self).render_passes,
            final(self).buffer_states == old(self).buffer_states,
            final(self).texture_states == old(self).texture_states,
            final(self).next_framebuffer == old(self).next_framebuffer,
    {
        self.clock.observe_completed(observed_completed);
        let completed = self.clock.get_last_completed_serial();
        self.deleter.tick(completed)
    }

    /// Commits the submission that was being assembled.
    pub fn submit_pending_commands(&mut self)
        requires
            old(self).wf(),
            old(self).clock.last_submitted < u64::MAX,
        ensures
            final(self).wf(),
            final(self).clock.pair() == clock_step(old(self).clock.pair(), ClockEvent::Submit),
            final(self).deleter == old(self).deleter,
            final(self).render_passes == old(self).render_passes,
            final(self).buffer_states == old(self).buffer_states,
            final(self).texture_states == old(self).texture_states,
            final(self).next_framebuffer == old(self).next_framebuffer,
    {
        self.clock.submit();
    }
}

pub fn get_last_submitted_serial(device: &Device) -> (r: Serial)
    ensures
        r == device.clock.last_submitted,
{
    device.clock.get_last_submitted_serial()
}

pub fn get_last_completed_serial(device: &Device) -> (r: Serial)
    ensures
        r == device.clock.last_completed,
{
    device.clock.get_last_completed_serial()
}

} // verus!
