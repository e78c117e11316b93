use vstd::prelude::*;

use crate::native::{BindPoint, NativeCommand};
use crate::types::PipelineLayout;

verus! {

/// The number of bind group slots a pass tracks.
pub const MAX_BIND_GROUPS: usize = 4;

/// The handle that stands for "no descriptor set".
pub const NULL_SET: u64 = 0;

/// A pipeline layout as the tracker compares it: its handle and the handle of
/// the bind group layout in each of its slots.
pub struct LayoutInfo {
    pub handle: u64,
    pub bind_group_layouts: Vec<u64>,
}

impl LayoutInfo {
    pub open spec fn key(&self) -> (u64, Seq<u64>) {
        (self.handle, self.bind_group_layouts@)
    }

    pub fn of(layout: &PipelineLayout) -> (r: LayoutInfo)
        ensures
            r.key() == layout_key(layout),
    {
        let mut handles: Vec<u64> = Vec::new();
        let mut i: usize = 0;
        while i < layout.bind_group_layouts.len()
            invariant
                i <= layout.bind_group_layouts@.len(),
                handles@ == layout_key(layout).1.subrange(0, i as int),
            decreases layout.bind_group_layouts@.len() - i,
        {
            handles.push(layout.bind_group_layouts[i].handle);
            i += 1;
            assert(handles@ =~= layout_key(layout).1.subrange(0, i as int));
        }
        assert(handles@ =~= layout_key(layout).1);
        LayoutInfo { handle: layout.handle, bind_group_layouts: handles }
    }
}

/// A pipeline layout's handle and the handles of its bind group layouts.
pub open spec fn layout_key(layout: &PipelineLayout) -> (u64, Seq<u64>) {
    (layout.handle, layout.bind_group_layouts@.map_values(|b: crate::types::BindGroupLayout| b.handle))
}

/// What the tracker holds: the current layout and, per slot, the set, whether
/// it still has to be bound, and the command whose dynamic offsets apply.
pub ghost struct DescriptorSetModel {
    pub layout: Option<(u64, Seq<u64>)>,
    pub sets: Seq<u64>,
    pub dirty: Seq<bool>,
    pub offsets: Seq<Option<usize>>,
}

impl DescriptorSetModel {
    pub open spec fn wf(&self) -> bool {
        &&& self.sets.len() == MAX_BIND_GROUPS
        &&& self.dirty.len() == MAX_BIND_GROUPS
        &&& self.offsets.len() == MAX_BIND_GROUPS
    }
}

/// The first slot below `old.len()` at which both layouts have a bind group
/// layout and the two differ, searching from `i`.
pub open spec fn first_mismatch(old: Seq<u64>, new: Seq<u64>, i: nat) -> Option<nat>
    decreases old.len() - i,
{
    if i >= old.len() {
        None
    } else if i < new.len() && new[i as int] != old[i as int] {
        Some(i)
    } else {
        first_mismatch(old, new, i + 1)
    }
}

/// The first slot that a switch from `current` to a layout with bind group
/// layouts `new` disturbs: slot 0 when there was no layout.
pub open spec fn disturbed_slot(current: Option<(u64, Seq<u64>)>, new: Seq<u64>) -> Option<nat> {
    match current {
        None => Some(0),
        Some(c) => first_mismatch(c.1, new, 0),
    }
}

/// Whether slot `j` is cleared when the disturbed boundary is `d`.
pub open spec fn cleared(d: Option<nat>, j: int) -> bool {
    d is Some && j >= d.unwrap()
}

pub open spec fn model_after_set_bind_group(
    m: DescriptorSetModel,
    index: int,
    set: u64,
    offsets: Option<usize>,
) -> DescriptorSetModel {
    DescriptorSetModel {
        layout: m.layout,
        sets: m.sets.update(index, set),
        dirty: m.dirty.update(index, true),
        offsets: m.offsets.update(index, offsets),
    }
}

pub open spec fn model_after_layout_change(
    m: DescriptorSetModel,
    new: (u64, Seq<u64>),
) -> DescriptorSetModel {
    if m.layout is Some && m.layout.unwrap().0 == new.0 {
        m
    } else {
        let d = disturbed_slot(m.layout, new.1);
        DescriptorSetModel {
            layout: Some(new),
            sets: Seq::new(
                MAX_BIND_GROUPS as nat,
                |j: int|
                    if cleared(d, j) {
                        NULL_SET
                    } else {
                        m.sets[j]
                    },
            ),
            dirty: Seq::new(MAX_BIND_GROUPS as nat, |j: int| if cleared(d, j) { false } else { m.dirty[j] }),
            offsets: Seq::new(
                MAX_BIND_GROUPS as nat,
                |j: int|
                    if cleared(d, j) {
                        None
                    } else {
                        m.offsets[j]
                    },
            ),
        }
    }
}

/// The bind calls a flush issues for slots `0..n`: one per dirty slot that
/// holds a set.
pub open spec fn flush_calls(m: DescriptorSetModel, bind_point: BindPoint, n: nat) -> Seq<NativeCommand>
    decreases n,
{
    if n == 0 {
        Seq::empty()
    } else {
        let j = n - 1;
        flush_calls(m, bind_point, j as nat) + if m.dirty[j] && m.sets[j] != NULL_SET {
            seq![
                NativeCommand::BindDescriptorSet {
                    bind_point,
                    layout: m.layout.unwrap().0,
                    slot: j as u32,
                    set: m.sets[j],
                    offsets_from: m.offsets[j],
                },
            ]
        } else {
            Seq::empty()
        }
    }
}

pub open spec fn model_after_flush(m: DescriptorSetModel) -> DescriptorSetModel {
    if m.layout is None {
        m
    } else {
        DescriptorSetModel { dirty: Seq::new(MAX_BIND_GROUPS as nat, |j: int| false), ..m }
    }
}

/// The state of a tracker that has seen nothing yet.
pub open spec fn empty_tracker_model() -> DescriptorSetModel {
    DescriptorSetModel {
        layout: None,
        sets: seq![NULL_SET, NULL_SET, NULL_SET, NULL_SET],
        dirty: seq![false, false, false, false],
        offsets: seq![None, None, None, None],
    }
}

/// Decides, for each draw or dispatch, which bind group slots must be bound.
pub struct DescriptorSetTracker {
    pub current_layout: Option<LayoutInfo>,
    pub sets: Vec<u64>,
    pub dirty_sets: Vec<bool>,
    pub dynamic_offsets: Vec<Option<usize>>,
}

impl View for DescriptorSetTracker {
    type V = DescriptorSetModel;

    open spec fn view(&self) -> DescriptorSetModel {
        DescriptorSetModel {
            layout: match self.current_layout {
                Some(l) => Some(l.key()),
                None => None,
            },
            sets: self.sets@,
            dirty: self.dirty_sets@,
            offsets: self.dynamic_offsets@,
        }
    }
}

impl DescriptorSetTracker {
    pub fn new() -> (r: DescriptorSetTracker)
        ensures
            r@ == empty_tracker_model(),
            r@.wf(),
    {
        DescriptorSetTracker {
            current_layout: None,
            sets: vec![NULL_SET, NULL_SET, NULL_SET, NULL_SET],
            dirty_sets: vec![false, false, false, false],
            dynamic_offsets: vec![None, None, None, None],
        }
    }

    /// Stores `set` in slot `index` and marks it dirty; nothing is bound yet.
    pub fn on_set_bind_group(&mut self, index: u32, set: u64, dynamic_offsets: Option<usize>)
        requires
            old(self)@.wf(),
            index < MAX_BIND_GROUPS,
        ensures
            final(self)@ == model_after_set_bind_group(old(self)@, index as int, set, dynamic_offsets),
            final(self)@.wf(),
    {
        let i = index as usize;
        self.dirty_sets.set(i, true);
        self.sets.set(i, set);
        self.dynamic_offsets.set(i, dynamic_offsets);
    }

    /// Switches to `layout`. Slots before the first slot whose bind group
    /// layout differs keep their state; that slot and all after it are cleared.
    pub fn on_pipeline_layout_change(&mut self, layout: &PipelineLayout)
        requires
            old(self)@.wf(),
        ensures
            final(self)@ == model_after_layout_change(old(self)@, layout_key(layout)),
            final(self)@.wf(),
    {
        let ghost m = self@;
        let new_info = LayoutInfo::of(layout);
        let mut disturbed: Option<usize> = None;
        match &self.current_layout {
            Some(current) => {
                if current.handle == layout.handle {
                    return;
                }
                let old_layouts = &current.bind_group_layouts;
                let mut i: usize = 0;
                while i < old_layouts.len()
                    invariant_except_break
                        disturbed is None,
                    invariant
                        i <= old_layouts@.len(),
                        old_layouts@ == m.layout.unwrap().1,
                        new_info.bind_group_layouts@ == layout_key(layout).1,
                        first_mismatch(old_layouts@, new_info.bind_group_layouts@, 0)
                            == first_mismatch(old_layouts@, new_info.bind_group_layouts@, i as nat),
                    ensures
                        first_mismatch(old_layouts@, new_info.bind_group_layouts@, 0) == match disturbed {
                            Some(x) => Some(x as nat),
                            None => None::<nat>,
                        },
                    decreases old_layouts@.len() - i,
                {
                    if i < new_info.bind_group_layouts.len() && new_info.bind_group_layouts[i]
                        != old_layouts[i] {
                        disturbed = Some(i);
                        break;
                    }
                    i += 1;
                }
            },
            None => {
                disturbed = Some(0);
            },
        }
        let ghost d = disturbed_slot(m.layout, layout_key(layout).1);
        assert(d == match disturbed {
            Some(x) => Some(x as nat),
            None => None::<nat>,
        });
        if let Some(start) = disturbed {
            let mut j: usize = start;
            while j < MAX_BIND_GROUPS
                invariant
                    start <= j,
                    j <= MAX_BIND_GROUPS || j == start,
                    d == Some(start as nat),
                    m.wf(),
                    self.sets@.len() == MAX_BIND_GROUPS,
                    self.dirty_sets@.len() == MAX_BIND_GROUPS,
                    self.dynamic_offsets@.len() == MAX_BIND_GROUPS,
                    forall|k: int|
                        0 <= k < MAX_BIND_GROUPS ==> self.sets@[k] == (if start <= k < j {
                            NULL_SET
                        } else {
                            m.sets[k]
                        }),
                    forall|k: int|
                        0 <= k < MAX_BIND_GROUPS ==> self.dirty_sets@[k] == (if start <= k < j {
                            false
                        } else {
                            m.dirty[k]
                        }),
                    forall|k: int|
                        0 <= k < MAX_BIND_GROUPS ==> self.dynamic_offsets@[k] == (if start <= k < j {
                            None
                        } else {
                            m.offsets[k]
                        }),
                decreases MAX_BIND_GROUPS - j,
            {
                self.sets.set(j, NULL_SET);
                self.dirty_sets.set(j, false);
                self.dynamic_offsets.set(j, None);
                j += 1;
            }
        }
        self.current_layout = Some(new_info);
        let ghost want = model_after_layout_change(m, layout_key(layout));
        assert(self@.sets =~= want.sets);
        assert(self@.dirty =~= want.dirty);
        assert(self@.offsets =~= want.offsets);
    }

    /// Appends to `ops` one bind call for each dirty slot that holds a set, in
    /// slot order, and clears every dirty flag. With no layout set nothing is
    /// bound or changed, and `false` is returned.
    pub fn flush(&mut self, bind_point: BindPoint, ops: &mut Vec<NativeCommand>) -> (r: bool)
        requires
            old(self)@.wf(),
        ensures
            r == (old(self)@.layout is Some),
            final(self)@ == model_after_flush(old(self)@),
            final(ops)@ == old(ops)@ + (if r {
                flush_calls(old(self)@, bind_point, MAX_BIND_GROUPS as nat)
            } else {
                Seq::empty()
            }),
    {
        let ghost m = self@;
        let layout_handle = match &self.current_layout {
            Some(l) => l.handle,
            None => {
                assert(ops@ =~= old(ops)@ + Seq::<NativeCommand>::empty());
                return false;
            },
        };
        let mut index: usize = 0;
        while index < MAX_BIND_GROUPS
            invariant
                index <= MAX_BIND_GROUPS,
                m.wf(),
                m.layout == Some((layout_handle, m.layout.unwrap().1)),
                self.current_layout == old(self).current_layout,
                self.sets@ == m.sets,
                self.dynamic_offsets@ == m.offsets,
                self.dirty_sets@.len() == MAX_BIND_GROUPS,
                forall|k: int|
                    0 <= k < MAX_BIND_GROUPS ==> self.dirty_sets@[k] == (if k < index {
                        false
                    } else {
                        m.dirty[k]
                    }),
                ops@ == old(ops)@ + flush_calls(m, bind_point, index as nat),
            decreases MAX_BIND_GROUPS - index,
        {
            if self.dirty_sets[index] {
                self.dirty_sets.set(index, false);
                let set = self.sets[index];
                if set != NULL_SET {
                    ops.push(
                        NativeCommand::BindDescriptorSet {
                            bind_point,
                            layout: layout_handle,
                            slot: index as u32,
                            set,
                            offsets_from: self.dynamic_offsets[index],
                        },
                    );
                }
            }
            index += 1;
            assert(ops@ =~= old(ops)@ + flush_calls(m, bind_point, index as nat));
        }
        assert(self@.dirty =~= model_after_flush(m).dirty);
        true
    }
}


/// Bind sets in slots 0, 1 and 2 under layout `l1` and flush; then switch to
/// a layout `l2` with the same bind group layout in slot 0 but another in
/// slot 1. Slots 1 and 2 are cleared, slot 0 keeps its set and stays clean,
/// and the next flush issues no bind call at all (none for slot 0).
pub proof fn lemma_layout_switch_keeps_compatible_prefix(
    m: DescriptorSetModel,
    l1: (u64, Seq<u64>),
    l2: (u64, Seq<u64>),
    sets: Seq<u64>,
    offsets: Seq<Option<usize>>,
    bind_point: BindPoint,
)
    requires
        m.wf(),
        sets.len() == 3,
        offsets.len() == 3,
        l1.1.len() >= 2,
        l2.1.len() >= 2,
        l1.1[0] == l2.1[0],
        l1.1[1] != l2.1[1],
        l1.0 != l2.0,
        m.layout matches Some(c) ==> (c.0 == l1.0 ==> c == l1),
    ensures
        ({
            let under_l1 = model_after_layout_change(m, l1);
            let s0 = model_after_set_bind_group(under_l1, 0, sets[0], offsets[0]);
            let s1 = model_after_set_bind_group(s0, 1, sets[1], offsets[1]);
            let s2 = model_after_set_bind_group(s1, 2, sets[2], offsets[2]);
            let bound = model_after_flush(s2);
            let switched = model_after_layout_change(bound, l2);
            &&& switched.sets[0] == sets[0]
            &&& switched.offsets[0] == offsets[0]
            &&& !switched.dirty[0]
            &&& switched.sets[1] == NULL_SET && !switched.dirty[1] && switched.offsets[1] is None
            &&& switched.sets[2] == NULL_SET && !switched.dirty[2] && switched.offsets[2] is None
            &&& flush_calls(switched, bind_point, MAX_BIND_GROUPS as nat) == Seq::<NativeCommand>::empty()
        }),
{
    let under_l1 = model_after_layout_change(m, l1);
    let s0 = model_after_set_bind_group(under_l1, 0, sets[0], offsets[0]);
    let s1 = model_after_set_bind_group(s0, 1, sets[1], offsets[1]);
    let s2 = model_after_set_bind_group(s1, 2, sets[2], offsets[2]);
    let bound = model_after_flush(s2);
    let switched = model_after_layout_change(bound, l2);
    assert(first_mismatch(l1.1, l2.1, 0) == first_mismatch(l1.1, l2.1, 1));
    assert(first_mismatch(l1.1, l2.1, 1) == Some(1nat));
    assert(flush_calls(switched, bind_point, 0) == Seq::<NativeCommand>::empty());
    assert(flush_calls(switched, bind_point, 1) =~= Seq::<NativeCommand>::empty());
    assert(flush_calls(switched, bind_point, 2) =~= Seq::<NativeCommand>::empty());
    assert(flush_calls(switched, bind_point, 3) =~= Seq::<NativeCommand>::empty());
    assert(flush_calls(switched, bind_point, 4) =~= Seq::<NativeCommand>::empty());
}

} // verus!
