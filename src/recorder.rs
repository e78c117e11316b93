//! Turning a whole command log into native commands.

use vstd::prelude::*;

use crate::command::{Command, CommandBufferInner};
use crate::device::Device;
use crate::native::NativeCommand;
use crate::pass_resource_usage::PassResourceUsage;
use crate::render_pass::RenderPassKey;
use crate::serial::Serial;
use crate::passes::{compute_pass_outcome, render_pass_outcome};
use crate::transfers::{copy_outcome, is_copy, pass_transitions, record_copy};

verus! {

/// Why a command log could not be turned into native commands.
#[derive(Clone, Copy, Debug, PartialEq, Eq, Structural)]
pub enum RecordError {
    /// A pass began for which the resource usage holds no entry.
    MissingPassUsage,
    /// A pass never ends.
    UnterminatedPass,
    /// An index buffer was set before any render pipeline.
    IndexBufferWithoutPipeline,
    /// A bind group was set at a slot at or above the number of slots.
    BindGroupIndexOutOfRange,
    /// No serial is left for another submission.
    SerialsExhausted,
    /// No framebuffer id is left.
    FramebufferIdsExhausted,
}

/// The part of a device that recording reads and changes.
pub ghost struct DeviceModel {
    pub clock: (Serial, Serial),
    pub deleter: Seq<(u64, Serial)>,
    pub render_passes: Seq<RenderPassKey>,
    pub buffers: Map<u64, u32>,
    pub textures: Map<u64, u32>,
    pub next_framebuffer: u64,
}

impl Device {
    pub open spec fn model(&self) -> DeviceModel {
        DeviceModel {
            clock: self.clock.pair(),
            deleter: self.deleter.entries@,
            render_passes: self.render_passes.keys(),
            buffers: self.buffer_states.map(),
            textures: self.texture_states.map(),
            next_framebuffer: self.next_framebuffer,
        }
    }
}

/// Prepends `pre` to the commands of a successful outcome.
pub open spec fn after<S>(pre: Seq<NativeCommand>, r: Result<(S, Seq<NativeCommand>), RecordError>) -> Result<
    (S, Seq<NativeCommand>),
    RecordError,
> {
    match r {
        Ok((s, o)) => Ok((s, pre + o)),
        Err(e) => Err(e),
    }
}

/// What command `i` of a log records at the top level, `pass` passes having
/// been recorded: a copy transitions eagerly and copies; a pass first moves
/// its resources to their aggregated usage, then records up to its end.
/// Also gives where recording goes on, and the new pass count.
pub open spec fn top_level_step(
    dm: DeviceModel,
    cmds: Seq<Command>,
    per_pass: Seq<PassResourceUsage>,
    i: int,
    pass: int,
) -> Result<(DeviceModel, Seq<NativeCommand>, int, int), RecordError> {
    let cmd = cmds[i];
    if is_copy(cmd) {
        let (d, o) = copy_outcome(dm, cmd);
        Ok((d, o, i + 1, pass))
    } else if cmd is BeginRenderPass || cmd is BeginComputePass {
        if pass < 0 || pass >= per_pass.len() {
            Err(RecordError::MissingPassUsage)
        } else {
            let (d1, o1) = pass_transitions(dm, per_pass[pass]);
            let outcome = if cmd is BeginRenderPass {
                render_pass_outcome(d1, cmds, i)
            } else {
                match compute_pass_outcome(cmds, i) {
                    Ok((o, end)) => Ok((d1, o, end)),
                    Err(e) => Err(e),
                }
            };
            match outcome {
                Err(e) => Err(e),
                Ok((d2, o2, end)) => Ok((d2, o1 + o2, end + 1, pass + 1)),
            }
        }
    } else {
        Ok((dm, Seq::empty(), i + 1, pass))
    }
}

/// What commands `i..` of a log record, `pass` passes having been recorded.
pub open spec fn record_from(
    dm: DeviceModel,
    cmds: Seq<Command>,
    per_pass: Seq<PassResourceUsage>,
    i: int,
    pass: int,
) -> Result<(DeviceModel, Seq<NativeCommand>), RecordError>
    decreases cmds.len() - i,
{
    if i < 0 || i >= cmds.len() {
        Ok((dm, Seq::empty()))
    } else {
        match top_level_step(dm, cmds, per_pass, i, pass) {
            Err(e) => Err(e),
            Ok((d, o, next, next_pass)) => if i < next {
                after(o, record_from(d, cmds, per_pass, next, next_pass))
            } else {
                Err(RecordError::UnterminatedPass)
            },
        }
    }
}

proof fn lemma_after_after<S>(a: Seq<NativeCommand>, b: Seq<NativeCommand>, r: Result<(S, Seq<NativeCommand>), RecordError>)
    ensures
        after(a, after(b, r)) == after(a + b, r),
{
    if let Ok((s, o)) = r {
        assert(a + (b + o) =~= (a + b) + o);
    }
}

impl CommandBufferInner {
    fn record_top_level_command(
        &self,
        device: &mut Device,
        ops: &mut Vec<NativeCommand>,
        i: usize,
        pass: usize,
    ) -> (r: Result<(usize, usize), RecordError>)
        requires
            old(device).wf(),
            i < self.commands().len(),
        ensures
            final(device).wf(),
            match top_level_step(
                old(device).model(),
                self.commands(),
                self.state.resource_usages.per_pass@,
                i as int,
                pass as int,
            ) {
                Ok((d, o, next, next_pass)) => (r matches Ok((a, b)) && a == next && b == next_pass) && i < next <= self.commands().len() && (next_pass == pass || 0 <= next_pass
                    <= self.state.resource_usages.per_pass@.len()) && final(device).model() == d
                    && final(ops)@ == old(ops)@ + o,
                Err(e) => r == Err::<(usize, usize), RecordError>(e),
            },
    {
        let cmds = &self.state.commands;
        let per_pass = &self.state.resource_usages.per_pass;
        let n = cmds.len();
        match &cmds[i] {
            Command::CopyBufferToBuffer { .. } | Command::CopyBufferToTexture { .. }
            | Command::CopyTextureToBuffer { .. } | Command::CopyTextureToTexture { .. } => {
                record_copy(device, &cmds[i], ops);
                Ok((i + 1, pass))
            },
            Command::BeginRenderPass { .. } | Command::BeginComputePass => {
                if pass >= per_pass.len() {
                    return Err(RecordError::MissingPassUsage);
                }
                let ghost here = device.model();
                let ghost ops_here = ops@;
                per_pass[pass].transition_for_pass(device, ops);
                let ghost moved = ops@;
                let ended = if let Command::BeginRenderPass { .. } = &cmds[i] {
                    self.record_render_pass(device, ops, i)
                } else {
                    self.record_compute_pass(ops, i)
                };
                match ended {
                    Ok(end) => {
                        proof {
                            let o1 = pass_transitions(here, per_pass@[pass as int]).1;
                            let o2 = ops@.subrange(moved.len() as int, ops@.len() as int);
                            assert(ops@ =~= ops_here + (o1 + o2));
                        }
                        Ok((end + 1, pass + 1))
                    },
                    Err(e) => Err(e),
                }
            },
            _ => {
                assert(ops@ =~= old(ops)@ + Seq::<NativeCommand>::empty());
                Ok((i + 1, pass))
            },
        }
    }

    /// Turns the whole command log into native commands, appended to
    /// `ops`, moving resources to the usage each copy and each pass needs.
    pub fn record_commands(&self, device: &mut Device, ops: &mut Vec<NativeCommand>) -> (r: Result<
        (),
        RecordError,
    >)
        requires
            old(device).wf(),
        ensures
            final(device).wf(),
            match record_from(
                old(device).model(),
                self.commands(),
                self.state.resource_usages.per_pass@,
                0,
                0,
            ) {
                Ok((d, o)) => r is Ok && final(device).model() == d && final(ops)@ == old(ops)@ + o,
                Err(e) => r == Err::<(), RecordError>(e),
            },
    {
        let ghost c = self.commands();
        let ghost pp = self.state.resource_usages.per_pass@;
        let ghost total = record_from(device.model(), c, pp, 0, 0);
        let ghost done = Seq::<NativeCommand>::empty();
        let n = self.state.commands.len();
        let mut i: usize = 0;
        let mut pass: usize = 0;
        assert(after(done, total) == total) by {
            if let Ok((s, o)) = total {
                assert(done + o =~= o);
            }
        }
        while i < n
            invariant
                i <= n,
                n == c.len(),
                c == self.commands(),
                pp == self.state.resource_usages.per_pass@,
                total == record_from(old(device).model(), c, pp, 0, 0),
                device.wf(),
                ops@ == old(ops)@ + done,
                total == after(done, record_from(device.model(), c, pp, i as int, pass as int)),
            decreases n - i,
        {
            let ghost here = device.model();
            let ghost ops_here = ops@;
            match self.record_top_level_command(device, ops, i, pass) {
                Ok((next, next_pass)) => {
                    proof {
                        let o = top_level_step(here, c, pp, i as int, pass as int).unwrap().1;
                        lemma_after_after(done, o, record_from(device.model(), c, pp, next as int, next_pass as int));
                        done = done + o;
                        assert(ops@ =~= old(ops)@ + done);
                    }
                    i = next;
                    pass = next_pass;
                },
                Err(e) => {
                    return Err(e);
                },
            }
        }
        assert(after(done, Ok::<(DeviceModel, Seq<NativeCommand>), RecordError>((device.model(), Seq::empty())))
            == Ok::<(DeviceModel, Seq<NativeCommand>), RecordError>((device.model(), done))) by {
            assert(done + Seq::<NativeCommand>::empty() =~= done);
        }
        Ok(())
    }
}

} // verus!
