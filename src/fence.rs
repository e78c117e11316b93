use vstd::prelude::*;

use crate::device::{get_last_completed_serial, get_last_submitted_serial, Device};
use crate::serial::Serial;

verus! {

/// A wait primitive: signaled once the serial it captured has completed.
#[derive(Clone, Copy, Debug)]
pub struct Fence {
    pub serial: Serial,
}

/// What a waiter does next.
#[derive(Clone, Copy, Debug, PartialEq, Eq, Structural)]
pub enum WaitStep {
    /// The fence is signaled; `stalled` tells whether the waiter had to poll.
    Signaled { stalled: bool },
    /// The deadline passed before the fence was signaled.
    TimedOut,
    /// Tick the device and look again, yielding the thread first when asked.
    Poll { yield_first: bool },
}

pub open spec fn wait_decision(target: Serial, completed: Serial, stalled: bool, deadline_passed: bool) -> WaitStep {
    if target <= completed {
        WaitStep::Signaled { stalled }
    } else if deadline_passed {
        WaitStep::TimedOut
    } else {
        WaitStep::Poll { yield_first: stalled }
    }
}

/// How a wait ends when successive looks find the completed serials and
/// deadline states of `polls`: `Ok(stalled)`, `Err(())` on timeout, or
/// `None` if it has not ended yet.
pub open spec fn wait_run(target: Serial, polls: Seq<(Serial, bool)>, stalled: bool) -> Option<Result<bool, ()>>
    decreases polls.len(),
{
    if polls.len() == 0 {
        None
    } else {
        match wait_decision(target, polls[0].0, stalled, polls[0].1) {
            WaitStep::Signaled { stalled } => Some(Ok(stalled)),
            WaitStep::TimedOut => Some(Err(())),
            WaitStep::Poll { .. } => wait_run(target, polls.drop_first(), true),
        }
    }
}

impl Fence {
    /// A fence that waits for the last submission made so far.
    pub fn new(device: &Device) -> (r: Fence)
        ensures
            r.serial == device.clock.last_submitted,
    {
        Fence { serial: get_last_submitted_serial(device) }
    }

    /// Captures the last submitted serial as the one to wait for.
    pub fn reset(&mut self, device: &Device)
        ensures
            final(self).serial == device.clock.last_submitted,
    {
        self.serial = get_last_submitted_serial(device);
    }

    /// Whether the captured serial has completed; no tick is made.
    pub fn is_signaled(&self, device: &Device) -> (r: bool)
        ensures
            r == (self.serial <= device.clock.last_completed),
    {
        self.serial <= get_last_completed_serial(device)
    }

    /// One look of a wait: `stalled` tells whether an earlier look had to
    /// poll, `deadline_passed` whether the caller's timeout has elapsed.
    pub fn wait_step(&self, device: &Device, stalled: bool, deadline_passed: bool) -> (r: WaitStep)
        ensures
            r == wait_decision(self.serial, device.clock.last_completed, stalled, deadline_passed),
    {
        if self.serial <= get_last_completed_serial(device) {
            WaitStep::Signaled { stalled }
        } else if deadline_passed {
            WaitStep::TimedOut
        } else {
            WaitStep::Poll { yield_first: stalled }
        }
    }
}

/// A wait on a freshly reset fence returns "did not stall" when its serial
/// has already completed at the first look; a wait that has to poll at least
/// once returns "stalled" if it succeeds; and a look that finds the serial
/// outstanding after the deadline ends the wait with a timeout.
pub proof fn lemma_fence_wait(submitted: Serial, polls: Seq<(Serial, bool)>)
    requires
        polls.len() > 0,
    ensures
        polls[0].0 >= submitted ==> wait_run(submitted, polls, false) == Some(Ok::<bool, ()>(false)),
        polls[0].0 < submitted ==> wait_run(submitted, polls, false) != Some(Ok::<bool, ()>(false)),
        polls[0].0 < submitted && polls[0].1 ==> wait_run(submitted, polls, false) == Some(Err::<bool, ()>(())),
{
    if polls[0].0 < submitted && !polls[0].1 {
        lemma_stalled_wait_reports_stall(submitted, polls.drop_first());
    }
}

proof fn lemma_stalled_wait_reports_stall(target: Serial, polls: Seq<(Serial, bool)>)
    ensures
        wait_run(target, polls, true) != Some(Ok::<bool, ()>(false)),
    decreases polls.len(),
{
    if polls.len() > 0 {
        lemma_stalled_wait_reports_stall(target, polls.drop_first());
    }
}

} // verus!
