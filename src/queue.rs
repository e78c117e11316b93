use vstd::prelude::*;

use crate::command::CommandBuffer;
use crate::device::{texture_transition, Device};
use crate::fence::Fence;
use crate::fenced_deleter::{due, pending};
use crate::native::NativeCommand;
use crate::recorder::{record_from, DeviceModel, RecordError};
use crate::serial::{clock_step, ClockEvent, Serial};
use crate::types::SwapchainImage;

verus! {

/// The work of one submission: the handles whose deferred deletion came due
/// at its tick, and the native commands of each command buffer, in order.
pub struct Submission {
    pub destroyed: Vec<u64>,
    pub recorded: Vec<Vec<NativeCommand>>,
}

/// The device model after recording command buffers `0..k`, and what each
/// of them recorded.
pub open spec fn record_buffers(dm: DeviceModel, cbs: Seq<CommandBuffer>, k: int) -> Result<
    (DeviceModel, Seq<Seq<NativeCommand>>),
    RecordError,
>
    decreases k,
{
    if k <= 0 {
        Ok((dm, Seq::empty()))
    } else {
        match record_buffers(dm, cbs, k - 1) {
            Err(e) => Err(e),
            Ok((d, recorded)) => {
                let inner = cbs[k - 1].inner;
                match record_from(d, inner.commands(), inner.state.resource_usages.per_pass@, 0, 0) {
                    Err(e) => Err(e),
                    Ok((d2, o)) => Ok((d2, recorded.push(o))),
                }
            },
        }
    }
}

/// The device-wide queue: submissions go through it in order.
pub struct Queue {
    pub device: Device,
}

impl Queue {
    pub fn new(device: Device) -> (r: Queue)
        ensures
            r.device == device,
    {
        Queue { device }
    }

    /// Ticks the device with the serial the driver reports as completed, then
    /// records each command buffer. The caller submits what was recorded and
    /// then commits it with `Device::submit_pending_commands`.
    pub fn submit(&mut self, observed_completed: Serial, command_buffers: &Vec<CommandBuffer>) -> (r: Result<
        Submission,
        RecordError,
    >)
        requires
            old(self).device.wf(),
        ensures
            final(self).device.wf(),
            ({
                let ticked = clock_step(old(self).device.clock.pair(), ClockEvent::Tick(observed_completed));
                let entries = old(self).device.deleter.entries@;
                let after_tick = DeviceModel {
                    clock: ticked,
                    deleter: pending(entries, ticked.1),
                    ..old(self).device.model()
                };
                if old(self).device.clock.last_submitted == u64::MAX {
                    r == Err::<Submission, RecordError>(RecordError::SerialsExhausted)
                } else {
                    match record_buffers(after_tick, command_buffers@, command_buffers@.len() as int) {
                        Ok((d, recorded)) => r matches Ok(s) && final(self).device.model() == d
                            && s.destroyed@ == due(entries, ticked.1).map_values(|e: (u64, Serial)| e.0)
                            && s.recorded@.len() == recorded.len() && forall|k: int|
                            0 <= k < recorded.len() ==> #[trigger] s.recorded@[k]@ == recorded[k],
                        Err(e) => r == Err::<Submission, RecordError>(e),
                    }
                }
            }),
    {
        if self.device.clock.get_last_submitted_serial() == u64::MAX {
            return Err(RecordError::SerialsExhausted);
        }
        let destroyed = self.device.tick(observed_completed);
        let ghost after_tick = self.device.model();
        let mut recorded: Vec<Vec<NativeCommand>> = Vec::new();
        let mut k: usize = 0;
        while k < command_buffers.len()
            invariant
                k <= command_buffers@.len(),
                self.device.wf(),
                after_tick == ({
                    let ticked = clock_step(old(self).device.clock.pair(), ClockEvent::Tick(observed_completed));
                    DeviceModel {
                        clock: ticked,
                        deleter: pending(old(self).device.deleter.entries@, ticked.1),
                        ..old(self).device.model()
                    }
                }),
                destroyed@ == due(
                    old(self).device.deleter.entries@,
                    clock_step(old(self).device.clock.pair(), ClockEvent::Tick(observed_completed)).1,
                ).map_values(|e: (u64, Serial)| e.0),
                old(self).device.clock.last_submitted < u64::MAX,
                record_buffers(after_tick, command_buffers@, k as int) matches Ok((d, rec)) && self.device.model()
                    == d && recorded@.len() == rec.len() && forall|j: int|
                    0 <= j < rec.len() ==> #[trigger] recorded@[j]@ == rec[j],
            decreases command_buffers@.len() - k,
        {
            let mut ops: Vec<NativeCommand> = Vec::new();
            let ghost before = record_buffers(after_tick, command_buffers@, k as int).unwrap();
            match command_buffers[k].inner.record_commands(&mut self.device, &mut ops) {
                Ok(()) => {},
                Err(e) => {
                    proof {
                        lemma_record_buffers_error_stays(after_tick, command_buffers@, k as int + 1, command_buffers@.len() as int);
                    }
                    return Err(e);
                },
            }
            recorded.push(ops);
            k += 1;
            proof {
                let now = record_buffers(after_tick, command_buffers@, k as int).unwrap();
                assert forall|j: int| 0 <= j < now.1.len() implies #[trigger] recorded@[j]@ == now.1[j] by {
                    if j < before.1.len() {
                        assert(now.1[j] == before.1[j]);
                    }
                }
            }
        }
        Ok(Submission { destroyed, recorded })
    }

    /// Moves the frame's texture to its declared usage ahead of presenting.
    /// The caller submits the returned commands, commits the submission,
    /// presents, and ticks.
    pub fn present(&mut self, frame: &SwapchainImage) -> (r: Vec<NativeCommand>)
        requires
            old(self).device.wf(),
        ensures
            final(self).device.wf(),
            r@ == texture_transition(
                old(self).device.texture_states.map(),
                frame.texture,
                frame.texture.descriptor.usage,
            ),
            final(self).device.texture_states.map() == old(self).device.texture_states.map().insert(
                frame.texture.handle,
                frame.texture.descriptor.usage,
            ),
            final(self).device.clock == old(self).device.clock,
    {
        let mut ops: Vec<NativeCommand> = Vec::new();
        self.device.transition_texture(frame.texture, frame.texture.descriptor.usage, &mut ops);
        assert(ops@ =~= Seq::<NativeCommand>::empty() + ops@);
        ops
    }

    /// A fence on the last submission made so far.
    pub fn create_fence(&self) -> (r: Fence)
        ensures
            r.serial == self.device.clock.last_submitted,
    {
        Fence::new(&self.device)
    }
}

proof fn lemma_record_buffers_error_stays(dm: DeviceModel, cbs: Seq<CommandBuffer>, k: int, k2: int)
    requires
        0 <= k <= k2,
        record_buffers(dm, cbs, k) is Err,
    ensures
        record_buffers(dm, cbs, k2) == record_buffers(dm, cbs, k),
    decreases k2 - k,
{
    if k2 > k {
        lemma_record_buffers_error_stays(dm, cbs, k, k2 - 1);
    }
}

} // verus!
