use vstd::prelude::*;

verus! {

/// A position in submission order.
pub type Serial = u64;

/// The last submitted and the last completed serial of a device.
pub struct SerialClock {
    pub last_submitted: Serial,
    pub last_completed: Serial,
}

/// One thing that happens to a serial clock.
pub ghost enum ClockEvent {
    /// A batch of work was submitted.
    Submit,
    /// The driver was polled and reported this serial as completed.
    Tick(Serial),
}

/// The completed serial after observing `observed`: it never moves back and
/// never passes the last submitted serial.
pub open spec fn completed_after_tick(completed: Serial, submitted: Serial, observed: Serial) -> Serial {
    let capped = if observed <= submitted {
        observed
    } else {
        submitted
    };
    if capped > completed {
        capped
    } else {
        completed
    }
}

/// The (submitted, completed) pair after one event.
pub open spec fn clock_step(c: (Serial, Serial), e: ClockEvent) -> (Serial, Serial) {
    match e {
        ClockEvent::Submit => if c.0 < u64::MAX {
            ((c.0 + 1) as u64, c.1)
        } else {
            c
        },
        ClockEvent::Tick(observed) => (c.0, completed_after_tick(c.1, c.0, observed)),
    }
}

/// The (submitted, completed) pair after a sequence of events.
pub open spec fn clock_after(c: (Serial, Serial), events: Seq<ClockEvent>) -> (Serial, Serial)
    decreases events.len(),
{
    if events.len() == 0 {
        c
    } else {
        clock_step(clock_after(c, events.drop_last()), events.last())
    }
}

impl SerialClock {
    pub open spec fn wf(&self) -> bool {
        self.last_completed <= self.last_submitted
    }

    pub open spec fn pair(&self) -> (Serial, Serial) {
        (self.last_submitted, self.last_completed)
    }

    pub fn new() -> (r: SerialClock)
        ensures
            r.wf(),
            r.last_submitted == 0,
            r.last_completed == 0,
    {
        SerialClock { last_submitted: 0, last_completed: 0 }
    }

    /// The serial that the submission being assembled will get.
    pub fn get_next_pending_serial(&self) -> (r: Serial)
        requires
            self.last_submitted < u64::MAX,
        ensures
            r == self.last_submitted + 1,
    {
        self.last_submitted + 1
    }

    pub fn get_last_submitted_serial(&self) -> (r: Serial)
        ensures
            r == self.last_submitted,
    {
        self.last_submitted
    }

    pub fn get_last_completed_serial(&self) -> (r: Serial)
        ensures
            r == self.last_completed,
    {
        self.last_completed
    }

    /// Commits one submission.
    pub fn submit(&mut self)
        requires
            old(self).wf(),
            old(self).last_submitted < u64::MAX,
        ensures
            final(self).wf(),
            final(self).pair() == clock_step(old(self).pair(), ClockEvent::Submit),
    {
        self.last_submitted = self.last_submitted + 1;
    }

    /// Takes in the serial that the driver reports as completed.
    pub fn observe_completed(&mut self, observed: Serial)
        requires
            old(self).wf(),
        ensures
            final(self).wf(),
            final(self).pair() == clock_step(old(self).pair(), ClockEvent::Tick(observed)),
    {
        let capped = if observed <= self.last_submitted {
            observed
        } else {
            self.last_submitted
        };
        if capped > self.last_completed {
            self.last_completed = capped;
        }
    }
}

/// Over any sequence of submissions and ticks, the completed serial never
/// decreases and never exceeds the submitted serial.
pub proof fn lemma_serials_monotonic(c: (Serial, Serial), events: Seq<ClockEvent>, i: int, j: int)
    requires
        c.1 <= c.0,
        0 <= i <= j <= events.len(),
    ensures
        clock_after(c, events.subrange(0, i)).1 <= clock_after(c, events.subrange(0, j)).1,
        clock_after(c, events.subrange(0, i)).0 <= clock_after(c, events.subrange(0, j)).0,
        clock_after(c, events.subrange(0, j)).1 <= clock_after(c, events.subrange(0, j)).0,
    decreases j - i,
{
    lemma_clock_wf(c, events.subrange(0, j));
    if i < j {
        let prev = events.subrange(0, j - 1);
        assert(events.subrange(0, j).drop_last() =~= prev);
        lemma_serials_monotonic(c, events, i, j - 1);
        lemma_clock_wf(c, prev);
    }
}

proof fn lemma_clock_wf(c: (Serial, Serial), events: Seq<ClockEvent>)
    requires
        c.1 <= c.0,
    ensures
        clock_after(c, events).1 <= clock_after(c, events).0,
    decreases events.len(),
{
    if events.len() > 0 {
        lemma_clock_wf(c, events.drop_last());
    }
}

} // verus!
