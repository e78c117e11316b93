use vstd::prelude::*;

use crate::types::{Buffer, Texture};

verus! {

/// A resource that a usage table can be keyed by: something with a handle.
pub trait Resource: Copy {
    spec fn key(&self) -> u64;

    fn handle_of(&self) -> (r: u64)
        ensures
            r == self.key(),
    ;
}

impl Resource for Buffer {
    open spec fn key(&self) -> u64 {
        self.handle
    }

    fn handle_of(&self) -> (r: u64) {
        self.handle
    }
}

impl Resource for Texture {
    open spec fn key(&self) -> u64 {
        self.handle
    }

    fn handle_of(&self) -> (r: u64) {
        self.handle
    }
}

/// The map that a list of (handle, bits) pairs stands for; a later pair wins.
pub open spec fn table_map(s: Seq<(u64, u32)>) -> Map<u64, u32>
    decreases s.len(),
{
    if s.len() == 0 {
        Map::empty()
    } else {
        table_map(s.drop_last()).insert(s.last().0, s.last().1)
    }
}

/// No handle occurs twice.
pub open spec fn keys_unique(s: Seq<(u64, u32)>) -> bool {
    forall|i: int, j: int| 0 <= i < j < s.len() ==> s[i].0 != s[j].0
}

/// The bits held for `h`; no usage when `h` is absent.
pub open spec fn usage_in(m: Map<u64, u32>, h: u64) -> u32 {
    if m.contains_key(h) {
        m[h]
    } else {
        0
    }
}

/// The map after `usage` was merged into what `h` had.
pub open spec fn merged(m: Map<u64, u32>, h: u64, usage: u32) -> Map<u64, u32> {
    m.insert(h, usage_in(m, h) | usage)
}

pub proof fn lemma_table_map_domain(s: Seq<(u64, u32)>, k: u64)
    ensures
        table_map(s).contains_key(k) <==> exists|i: int| 0 <= i < s.len() && s[i].0 == k,
    decreases s.len(),
{
    if s.len() > 0 {
        lemma_table_map_domain(s.drop_last(), k);
        if table_map(s).contains_key(k) && s.last().0 != k {
            let i = choose|i: int| 0 <= i < s.drop_last().len() && s.drop_last()[i].0 == k;
            assert(s[i].0 == k);
        }
        if exists|i: int| 0 <= i < s.len() && s[i].0 == k {
            let i = choose|i: int| 0 <= i < s.len() && s[i].0 == k;
            if i < s.len() - 1 {
                assert(s.drop_last()[i].0 == k);
            }
        }
    }
}

pub proof fn lemma_table_map_value(s: Seq<(u64, u32)>, i: int)
    requires
        keys_unique(s),
        0 <= i < s.len(),
    ensures
        table_map(s).contains_key(s[i].0),
        table_map(s)[s[i].0] == s[i].1,
    decreases s.len(),
{
    if i < s.len() - 1 {
        assert(s.drop_last()[i] == s[i]);
        lemma_table_map_value(s.drop_last(), i);
    }
}

pub proof fn lemma_table_map_update(s: Seq<(u64, u32)>, i: int, v: u32)
    requires
        keys_unique(s),
        0 <= i < s.len(),
    ensures
        keys_unique(s.update(i, (s[i].0, v))),
        table_map(s.update(i, (s[i].0, v))) == table_map(s).insert(s[i].0, v),
    decreases s.len(),
{
    let t = s.update(i, (s[i].0, v));
    if i == s.len() - 1 {
        assert(t.drop_last() == s.drop_last());
    } else {
        let d = s.drop_last();
        assert(t.drop_last() == d.update(i, (d[i].0, v)));
        lemma_table_map_update(d, i, v);
        assert(table_map(t) =~= table_map(s).insert(s[i].0, v));
    }
}

/// The (handle, bits) pairs of a list of (resource, bits) pairs.
pub open spec fn resource_pairs<R: Resource>(s: Seq<(R, u32)>) -> Seq<(u64, u32)> {
    s.map_values(|e: (R, u32)| (e.0.key(), e.1))
}

/// A list of (resource, usage bits) pairs, at most one per handle.
pub struct UsageTable<R> {
    pub entries: Vec<(R, u32)>,
}

impl<R: Resource> UsageTable<R> {
    /// The entries as (handle, bits) pairs.
    pub open spec fn pairs(&self) -> Seq<(u64, u32)> {
        resource_pairs(self.entries@)
    }

    pub open spec fn wf(&self) -> bool {
        keys_unique(self.pairs())
    }

    /// The usage held for each handle.
    pub open spec fn map(&self) -> Map<u64, u32> {
        table_map(self.pairs())
    }

    pub fn new() -> (r: Self)
        ensures
            r.wf(),
            r.entries@.len() == 0,
            r.map() == Map::<u64, u32>::empty(),
    {
        UsageTable { entries: Vec::new() }
    }

    /// The position of the entry for `h`, if there is one.
    pub fn find(&self, h: u64) -> (r: Option<usize>)
        ensures
            match r {
                Some(i) => i < self.entries@.len() && self.pairs()[i as int].0 == h,
                None => !self.map().contains_key(h),
            },
    {
        proof {
            lemma_table_map_domain(self.pairs(), h);
        }
        let mut i: usize = 0;
        while i < self.entries.len()
            invariant
                i <= self.entries@.len(),
                forall|j: int| 0 <= j < i ==> self.pairs()[j].0 != h,
            decreases self.entries@.len() - i,
        {
            if self.entries[i].0.handle_of() == h {
                return Some(i);
            }
            i += 1;
        }
        None
    }

    /// The usage held for `h`, or none.
    pub fn get(&self, h: u64) -> (r: u32)
        requires
            self.wf(),
        ensures
            r == usage_in(self.map(), h),
    {
        match self.find(h) {
            Some(i) => {
                proof {
                    lemma_table_map_value(self.pairs(), i as int);
                }
                self.entries[i].1
            },
            None => 0,
        }
    }

    /// Sets the usage of `res` to `usage`. A new resource is appended.
    pub fn set(&mut self, res: R, usage: u32)
        requires
            old(self).wf(),
        ensures
            final(self).wf(),
            final(self).map() == old(self).map().insert(res.key(), usage),
    {
        let h = res.handle_of();
        match self.find(h) {
            Some(i) => {
                proof {
                    lemma_table_map_update(self.pairs(), i as int, usage);
                }
                let r = self.entries[i].0;
                self.entries.set(i, (r, usage));
                assert(self.pairs() =~= old(self).pairs().update(i as int, (h, usage)));
            },
            None => {
                proof {
                    lemma_table_map_domain(self.pairs(), h);
                }
                self.entries.push((res, usage));
                assert(self.pairs().drop_last() =~= old(self).pairs());
                assert(forall|j: int|
                    0 <= j < old(self).pairs().len() ==> old(self).pairs()[j].0 != h);
                assert(forall|j: int| 0 <= j < old(self).pairs().len() ==> self.pairs()[j] == old(self).pairs()[j]);
            },
        }
    }

    /// Merges `usage` into what `res` had and returns what it had.
    pub fn merge(&mut self, res: R, usage: u32) -> (existing: u32)
        requires
            old(self).wf(),
        ensures
            final(self).wf(),
            existing == usage_in(old(self).map(), res.key()),
            final(self).map() == merged(old(self).map(), res.key(), usage),
    {
        let existing = self.get(res.handle_of());
        self.set(res, existing | usage);
        existing
    }

    /// Moves every entry out, in order, and leaves the table empty.
    pub fn drain_all(&mut self) -> (r: Vec<(R, u32)>)
        requires
            old(self).wf(),
        ensures
            r@ == old(self).entries@,
            final(self).wf(),
            final(self).entries@.len() == 0,
            final(self).map() == Map::<u64, u32>::empty(),
    {
        let mut out = Vec::new();
        std::mem::swap(&mut out, &mut self.entries);
        assert(self.pairs() =~= Seq::<(u64, u32)>::empty());
        out
    }
}

} // verus!
