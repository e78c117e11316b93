use vstd::prelude::*;

use crate::serial::Serial;

verus! {

/// The entries of `entries` whose serial has completed at `completed`.
pub open spec fn due(entries: Seq<(u64, Serial)>, completed: Serial) -> Seq<(u64, Serial)>
    decreases entries.len(),
{
    if entries.len() == 0 {
        Seq::empty()
    } else {
        let rest = due(entries.drop_last(), completed);
        if entries.last().1 <= completed {
            rest.push(entries.last())
        } else {
            rest
        }
    }
}

/// The entries of `entries` whose serial has not completed at `completed`.
pub open spec fn pending(entries: Seq<(u64, Serial)>, completed: Serial) -> Seq<(u64, Serial)>
    decreases entries.len(),
{
    if entries.len() == 0 {
        Seq::empty()
    } else {
        let rest = pending(entries.drop_last(), completed);
        if entries.last().1 <= completed {
            rest
        } else {
            rest.push(entries.last())
        }
    }
}

/// Native objects whose destruction waits until the work using them is done.
pub struct FencedDeleter {
    /// (handle, serial of the last submission that may use it)
    pub entries: Vec<(u64, Serial)>,
}

impl FencedDeleter {
    pub fn new() -> (r: FencedDeleter)
        ensures
            r.entries@ == Seq::<(u64, Serial)>::empty(),
    {
        FencedDeleter { entries: Vec::new() }
    }

    /// Destroys `handle` once `serial` has completed.
    pub fn delete_when_unused(&mut self, handle: u64, serial: Serial)
        ensures
            final(self).entries@ == old(self).entries@.push((handle, serial)),
    {
        self.entries.push((handle, serial));
    }

    /// Removes and returns, in registration order, the handles whose serial
    /// is at most `completed`; the others stay.
    pub fn tick(&mut self, completed: Serial) -> (r: Vec<u64>)
        ensures
            r@ == due(old(self).entries@, completed).map_values(|e: (u64, Serial)| e.0),
            final(self).entries@ == pending(old(self).entries@, completed),
    {
        let ghost all = self.entries@;
        let mut destroyed: Vec<u64> = Vec::new();
        let mut kept: Vec<(u64, Serial)> = Vec::new();
        let mut i: usize = 0;
        while i < self.entries.len()
            invariant
                i <= all.len(),
                self.entries@ == all,
                destroyed@ == due(all.subrange(0, i as int), completed).map_values(
                    |e: (u64, Serial)| e.0,
                ),
                kept@ == pending(all.subrange(0, i as int), completed),
            decreases all.len() - i,
        {
            let e = self.entries[i];
            assert(all.subrange(0, i + 1).drop_last() =~= all.subrange(0, i as int));
            if e.1 <= completed {
                destroyed.push(e.0);
            } else {
                kept.push(e);
            }
            i += 1;
            assert(destroyed@ =~= due(all.subrange(0, i as int), completed).map_values(
                |e: (u64, Serial)| e.0,
            ));
        }
        assert(all.subrange(0, i as int) =~= all);
        self.entries = kept;
        destroyed
    }
}

/// A tick that observes `completed` destroys an entry registered with serial
/// `s` exactly when `s <= completed`; otherwise the entry stays for a later
/// tick. So no entry goes while its serial is outstanding, and each goes at
/// the first tick that observes its serial as completed.
pub proof fn lemma_deleter_tick(entries: Seq<(u64, Serial)>, completed: Serial, i: int)
    requires
        0 <= i < entries.len(),
    ensures
        entries[i].1 <= completed ==> due(entries, completed).contains(entries[i])
            && !pending(entries, completed).contains(entries[i]),
        entries[i].1 > completed ==> pending(entries, completed).contains(entries[i])
            && !due(entries, completed).contains(entries[i]),
    decreases entries.len(),
{
    lemma_split_by_serial(entries, completed);
    let d = due(entries, completed);
    let p = pending(entries, completed);
    if i == entries.len() - 1 {
        if entries[i].1 <= completed {
            assert(d.last() == entries[i]);
        } else {
            assert(p.last() == entries[i]);
        }
    } else {
        lemma_deleter_tick(entries.drop_last(), completed, i);
        let dd = due(entries.drop_last(), completed);
        let pp = pending(entries.drop_last(), completed);
        assert(entries.drop_last()[i] == entries[i]);
        if entries[i].1 <= completed {
            let k = choose|k: int| 0 <= k < dd.len() && dd[k] == entries[i];
            assert(d[k] == entries[i]);
        } else {
            let k = choose|k: int| 0 <= k < pp.len() && pp[k] == entries[i];
            assert(p[k] == entries[i]);
        }
    }
    if entries[i].1 <= completed && p.contains(entries[i]) {
        let k = choose|k: int| 0 <= k < p.len() && p[k] == entries[i];
        assert(p[k].1 > completed);
    }
    if entries[i].1 > completed && d.contains(entries[i]) {
        let k = choose|k: int| 0 <= k < d.len() && d[k] == entries[i];
        assert(d[k].1 <= completed);
    }
}

proof fn lemma_split_by_serial(entries: Seq<(u64, Serial)>, completed: Serial)
    ensures
        forall|k: int| 0 <= k < due(entries, completed).len() ==> #[trigger] due(entries, completed)[k].1 <= completed,
        forall|k: int| 0 <= k < pending(entries, completed).len() ==> #[trigger] pending(entries, completed)[k].1 > completed,
    decreases entries.len(),
{
    if entries.len() > 0 {
        let prev = entries.drop_last();
        lemma_split_by_serial(prev, completed);
        let d = due(entries, completed);
        let p = pending(entries, completed);
        assert forall|k: int| 0 <= k < d.len() implies #[trigger] d[k].1 <= completed by {
            if k < due(prev, completed).len() {
                assert(d[k] == due(prev, completed)[k]);
            }
        }
        assert forall|k: int| 0 <= k < p.len() implies #[trigger] p[k].1 > completed by {
            if k < pending(prev, completed).len() {
                assert(p[k] == pending(prev, completed)[k]);
            }
        }
    }
}


/// The entries still waiting after ticks that observe, in order, the
/// completed serials of `ticks`.
pub open spec fn pending_after_ticks(entries: Seq<(u64, Serial)>, ticks: Seq<Serial>) -> Seq<(u64, Serial)>
    decreases ticks.len(),
{
    if ticks.len() == 0 {
        entries
    } else {
        pending(pending_after_ticks(entries, ticks.drop_last()), ticks.last())
    }
}

/// An entry registered with serial `s` outlives every tick that observes a
/// completed serial below `s`, and the first tick that observes one at or
/// above `s` destroys it.
pub proof fn lemma_entry_destroyed_at_first_due_tick(
    entries: Seq<(u64, Serial)>,
    ticks: Seq<Serial>,
    e: (u64, Serial),
    completed: Serial,
)
    requires
        entries.contains(e),
        forall|k: int| 0 <= k < ticks.len() ==> ticks[k] < e.1,
    ensures
        pending_after_ticks(entries, ticks).contains(e),
        completed >= e.1 ==> due(pending_after_ticks(entries, ticks), completed).contains(e),
        completed < e.1 ==> pending(pending_after_ticks(entries, ticks), completed).contains(e),
    decreases ticks.len(),
{
    if ticks.len() > 0 {
        let prev = ticks.drop_last();
        lemma_entry_destroyed_at_first_due_tick(entries, prev, e, ticks.last());
        let before = pending_after_ticks(entries, prev);
        let i = choose|i: int| 0 <= i < before.len() && before[i] == e;
        lemma_deleter_tick(before, ticks.last(), i);
    }
    let now = pending_after_ticks(entries, ticks);
    let j = choose|j: int| 0 <= j < now.len() && now[j] == e;
    lemma_deleter_tick(now, completed, j);
}

} // verus!
