use vstd::prelude::*;

use crate::flags::{BufferUsageFlags, TextureUsageFlags, BUFFER_STORAGE, TEXTURE_STORAGE};
use crate::types::{Buffer, Texture};
use crate::usage_table::{
    keys_unique, merged, resource_pairs, table_map, usage_in, UsageTable,
};

verus! {

/// The aggregated usage of every resource of one pass, one entry per resource.
#[derive(Debug, Clone)]
pub struct PassResourceUsage {
    pub buffers: Vec<(Buffer, BufferUsageFlags)>,
    pub textures: Vec<(Texture, TextureUsageFlags)>,
}

impl PassResourceUsage {
    pub open spec fn wf(&self) -> bool {
        &&& keys_unique(resource_pairs(self.buffers@))
        &&& keys_unique(resource_pairs(self.textures@))
    }
}

/// The resource usage of one command buffer: one entry per pass, in the order
/// in which the passes begin, and the resources used outside any pass.
#[derive(Debug, Clone)]
pub struct CommandBufferResourceUsage {
    pub per_pass: Vec<PassResourceUsage>,
    pub top_level_buffers: Vec<Buffer>,
    pub top_level_textures: Vec<Texture>,
}

#[derive(Copy, Clone, Debug, PartialEq, Eq, Structural, Hash)]
pub enum PassType {
    Render,
    Compute,
}

/// Accumulates the usage of each resource while one pass is recorded.
pub struct PassResourceUsageTracker {
    pub buffer_usages: UsageTable<Buffer>,
    pub texture_usages: UsageTable<Texture>,
    /// Set when a resource was used as storage more than once in the pass.
    pub storage_used_multiple_times: bool,
}

/// Whether marking a resource that had `existing` with `usage` is a second
/// storage use.
pub open spec fn second_storage_use(existing: u32, usage: u32, storage: u32) -> bool {
    usage & storage != 0 && existing & storage != 0
}

impl PassResourceUsageTracker {
    pub open spec fn wf(&self) -> bool {
        self.buffer_usages.wf() && self.texture_usages.wf()
    }

    pub fn new() -> (r: Self)
        ensures
            r.wf(),
            r.buffer_usages.map() == Map::<u64, u32>::empty(),
            r.texture_usages.map() == Map::<u64, u32>::empty(),
            !r.storage_used_multiple_times,
    {
        PassResourceUsageTracker {
            buffer_usages: UsageTable::new(),
            texture_usages: UsageTable::new(),
            storage_used_multiple_times: false,
        }
    }

    /// Merges `usage` into what `buffer` had in this pass.
    pub fn buffer_used_as(&mut self, buffer: Buffer, usage: BufferUsageFlags)
        requires
            old(self).wf(),
        ensures
            final(self).wf(),
            final(self).buffer_usages.map() == merged(
                old(self).buffer_usages.map(),
                buffer.handle,
                usage,
            ),
            final(self).texture_usages == old(self).texture_usages,
            final(self).storage_used_multiple_times == (old(self).storage_used_multiple_times
                || second_storage_use(
                usage_in(old(self).buffer_usages.map(), buffer.handle),
                usage,
                BUFFER_STORAGE,
            )),
    {
        let existing = self.buffer_usages.merge(buffer, usage);
        if usage & BUFFER_STORAGE != 0 && existing & BUFFER_STORAGE != 0 {
            self.storage_used_multiple_times = true;
        }
    }

    /// Merges `usage` into what `texture` had in this pass.
    pub fn texture_used_as(&mut self, texture: Texture, usage: TextureUsageFlags)
        requires
            old(self).wf(),
        ensures
            final(self).wf(),
            final(self).texture_usages.map() == merged(
                old(self).texture_usages.map(),
                texture.handle,
                usage,
            ),
            final(self).buffer_usages == old(self).buffer_usages,
            final(self).storage_used_multiple_times == (old(self).storage_used_multiple_times
                || second_storage_use(
                usage_in(old(self).texture_usages.map(), texture.handle),
                usage,
                TEXTURE_STORAGE,
            )),
    {
        let existing = self.texture_usages.merge(texture, usage);
        if usage & TEXTURE_STORAGE != 0 && existing & TEXTURE_STORAGE != 0 {
            self.storage_used_multiple_times = true;
        }
    }

    /// Checks the usages of a pass. No rule is enforced yet: every pass passes.
    pub fn validate_usages(_pass_type: PassType) -> (r: Result<(), ()>)
        ensures
            r is Ok,
    {
        Ok(())
    }

    /// Moves the accumulated usages out, one entry per resource, and leaves
    /// the tracker empty.
    pub fn acquire_resource_usage(&mut self) -> (r: PassResourceUsage)
        requires
            old(self).wf(),
        ensures
            r.wf(),
            resource_pairs(r.buffers@) == old(self).buffer_usages.pairs(),
            resource_pairs(r.textures@) == old(self).texture_usages.pairs(),
            table_map(resource_pairs(r.buffers@)) == old(self).buffer_usages.map(),
            table_map(resource_pairs(r.textures@)) == old(self).texture_usages.map(),
            final(self).wf(),
            final(self).buffer_usages.map() == Map::<u64, u32>::empty(),
            final(self).texture_usages.map() == Map::<u64, u32>::empty(),
            final(self).storage_used_multiple_times == old(self).storage_used_multiple_times,
    {
        let buffers = self.buffer_usages.drain_all();
        let textures = self.texture_usages.drain_all();
        PassResourceUsage { buffers, textures }
    }
}

/// The usage map after marking, in order, each (handle, usage) of `calls`.
pub open spec fn usage_after(calls: Seq<(u64, u32)>) -> Map<u64, u32>
    decreases calls.len(),
{
    if calls.len() == 0 {
        Map::empty()
    } else {
        merged(usage_after(calls.drop_last()), calls.last().0, calls.last().1)
    }
}

/// The multiple-storage flag after marking, in order, each call of `calls`.
pub open spec fn storage_flag_after(calls: Seq<(u64, u32)>, storage: u32) -> bool
    decreases calls.len(),
{
    if calls.len() == 0 {
        false
    } else {
        let prev = calls.drop_last();
        storage_flag_after(prev, storage) || second_storage_use(
            usage_in(usage_after(prev), calls.last().0),
            calls.last().1,
            storage,
        )
    }
}

/// The bitwise OR of every usage that `calls` gives for `h`.
pub open spec fn union_of_usages(calls: Seq<(u64, u32)>, h: u64) -> u32
    decreases calls.len(),
{
    if calls.len() == 0 {
        0
    } else if calls.last().0 == h {
        union_of_usages(calls.drop_last(), h) | calls.last().1
    } else {
        union_of_usages(calls.drop_last(), h)
    }
}

/// The handles that `calls` marks.
pub open spec fn marked(calls: Seq<(u64, u32)>, h: u64) -> bool {
    exists|i: int| 0 <= i < calls.len() && calls[i].0 == h
}

proof fn lemma_usage_after(calls: Seq<(u64, u32)>, h: u64)
    ensures
        usage_after(calls).contains_key(h) <==> marked(calls, h),
        usage_in(usage_after(calls), h) == union_of_usages(calls, h),
    decreases calls.len(),
{
    if calls.len() > 0 {
        let prev = calls.drop_last();
        lemma_usage_after(prev, h);
        if marked(prev, h) {
            let i = choose|i: int| 0 <= i < prev.len() && prev[i].0 == h;
            assert(calls[i].0 == h);
        }
        if marked(calls, h) && calls.last().0 != h {
            let i = choose|i: int| 0 <= i < calls.len() && calls[i].0 == h;
            assert(prev[i].0 == h);
        }
        let u = calls.last().1;
        if calls.last().0 == h && !usage_after(prev).contains_key(h) {
            assert(0u32 | u == u) by (bit_vector);
        }
    }
}

/// Marking resources with usages and then acquiring the pass's usage gives
/// exactly one entry for each marked resource, and its bits are the bitwise
/// OR of all the usages that resource was marked with.
pub proof fn lemma_acquired_usage_is_union(calls: Seq<(u64, u32)>, acquired: Seq<(u64, u32)>)
    requires
        keys_unique(acquired),
        table_map(acquired) == usage_after(calls),
    ensures
        forall|i: int, j: int|
            0 <= i < acquired.len() && 0 <= j < acquired.len() && acquired[i].0 == acquired[j].0
                ==> i == j,
        forall|h: u64| marked(calls, h) <==> exists|i: int| 0 <= i < acquired.len() && acquired[i].0 == h,
        forall|i: int|
            0 <= i < acquired.len() ==> #[trigger] acquired[i].1 == union_of_usages(
                calls,
                acquired[i].0,
            ),
{
    assert forall|h: u64| marked(calls, h) <==> exists|i: int| 0 <= i < acquired.len() && acquired[i].0 == h by {
        lemma_usage_after(calls, h);
        crate::usage_table::lemma_table_map_domain(acquired, h);
    }
    assert forall|i: int| 0 <= i < acquired.len() implies #[trigger] acquired[i].1 == union_of_usages(
        calls,
        acquired[i].0,
    ) by {
        crate::usage_table::lemma_table_map_value(acquired, i);
        lemma_usage_after(calls, acquired[i].0);
    }
}

/// Marking one resource as storage twice in a pass sets the multiple-use
/// flag; marking it as storage once, alone or followed by a usage without
/// the storage bit, does not.
pub proof fn lemma_storage_flag(h: u64, other: u32, storage: u32)
    requires
        storage != 0,
        other & storage == 0,
    ensures
        storage_flag_after(seq![(h, storage), (h, storage)], storage),
        !storage_flag_after(seq![(h, storage)], storage),
        !storage_flag_after(seq![(h, storage), (h, other)], storage),
{
    let once = seq![(h, storage)];
    let twice = seq![(h, storage), (h, storage)];
    let mixed = seq![(h, storage), (h, other)];
    assert(once.drop_last() =~= Seq::<(u64, u32)>::empty());
    assert(twice.drop_last() =~= once);
    assert(mixed.drop_last() =~= once);
    let none = Seq::<(u64, u32)>::empty();
    assert(usage_after(none) == Map::<u64, u32>::empty());
    assert(!storage_flag_after(none, storage));
    assert(once.last() == (h, storage));
    assert(usage_in(Map::<u64, u32>::empty(), h) == 0);
    assert(usage_after(once) == merged(usage_after(none), h, storage));
    assert(usage_in(usage_after(once), h) == 0u32 | storage);
    assert(0u32 | storage == storage) by (bit_vector);
    assert(storage != 0 ==> storage & storage != 0) by (bit_vector);
    assert(0u32 & storage == 0) by (bit_vector);
}

} // verus!
