use vstd::prelude::*;

use crate::types::{LoadOp, TextureFormat};

verus! {

/// The most color attachments a render pass has.
pub const MAX_COLOR_ATTACHMENTS: usize = 4;

/// What a render pass needs to know of one color attachment.
#[derive(Clone, Copy, Debug, PartialEq, Eq, Structural, Hash)]
pub struct ColorInfo {
    pub format: TextureFormat,
    pub load_op: LoadOp,
}

/// What a render pass needs to know of its depth-stencil attachment.
#[derive(Clone, Copy, Debug, PartialEq, Eq, Structural, Hash)]
pub struct DepthStencilInfo {
    pub format: TextureFormat,
    pub stencil_load_op: LoadOp,
    pub depth_load_op: LoadOp,
}

/// The structural description of a render pass: its color attachments in
/// order, and its depth-stencil attachment if it has one.
#[derive(Clone, Debug)]
pub struct RenderPassCacheQuery {
    pub colors: Vec<ColorInfo>,
    pub depth_stencil: Option<DepthStencilInfo>,
}

/// A render pass key as a value.
pub type RenderPassKey = (Seq<ColorInfo>, Option<DepthStencilInfo>);

impl RenderPassCacheQuery {
    pub open spec fn key(&self) -> RenderPassKey {
        (self.colors@, self.depth_stencil)
    }

    pub fn new() -> (r: RenderPassCacheQuery)
        ensures
            r.key() == (Seq::<ColorInfo>::empty(), None::<DepthStencilInfo>),
    {
        RenderPassCacheQuery { colors: Vec::new(), depth_stencil: None }
    }

    pub fn add_color(&mut self, info: ColorInfo)
        ensures
            final(self).key() == (old(self).key().0.push(info), old(self).key().1),
    {
        self.colors.push(info);
    }

    pub fn set_depth_stencil(&mut self, info: DepthStencilInfo)
        ensures
            final(self).key() == (old(self).key().0, Some(info)),
    {
        self.depth_stencil = Some(info);
    }

    /// Whether two queries describe the same render pass.
    pub fn same_as(&self, other: &RenderPassCacheQuery) -> (r: bool)
        ensures
            r == (self.key() == other.key()),
    {
        if self.colors.len() != other.colors.len() {
            return false;
        }
        let mut i: usize = 0;
        while i < self.colors.len()
            invariant
                i <= self.colors@.len(),
                self.colors@.len() == other.colors@.len(),
                forall|j: int| 0 <= j < i ==> self.colors@[j] == other.colors@[j],
            decreases self.colors@.len() - i,
        {
            if self.colors[i] != other.colors[i] {
                return false;
            }
            i += 1;
        }
        assert(self.colors@ =~= other.colors@);
        match (self.depth_stencil, other.depth_stencil) {
            (None, None) => true,
            (Some(a), Some(b)) => a == b,
            _ => false,
        }
    }
}

/// No key occurs twice.
pub open spec fn distinct_keys(keys: Seq<RenderPassKey>) -> bool {
    forall|i: int, j: int| 0 <= i < j < keys.len() ==> keys[i] != keys[j]
}

/// The render pass id under which `keys` holds `k`.
pub open spec fn cached_id(keys: Seq<RenderPassKey>, k: RenderPassKey) -> int {
    choose|i: int| 0 <= i < keys.len() && keys[i] == k
}

/// The cache's keys after a lookup of `k`, and the id the lookup returns:
/// the id `k` already has, or a new one at the end.
pub open spec fn render_pass_lookup(keys: Seq<RenderPassKey>, k: RenderPassKey) -> (
    Seq<RenderPassKey>,
    int,
) {
    if keys.contains(k) {
        (keys, cached_id(keys, k))
    } else {
        (keys.push(k), keys.len() as int)
    }
}

/// Render passes by structural key. A render pass's id is its position; the
/// cache never evicts.
pub struct RenderPassCache {
    pub queries: Vec<RenderPassCacheQuery>,
}

impl RenderPassCache {
    pub open spec fn keys(&self) -> Seq<RenderPassKey> {
        self.queries@.map_values(|q: RenderPassCacheQuery| q.key())
    }

    pub open spec fn wf(&self) -> bool {
        distinct_keys(self.keys())
    }

    pub fn new() -> (r: RenderPassCache)
        ensures
            r.wf(),
            r.keys() == Seq::<RenderPassKey>::empty(),
    {
        let r = RenderPassCache { queries: Vec::new() };
        assert(r.keys() =~= Seq::<RenderPassKey>::empty());
        r
    }

    /// The id of the render pass for `query`, and whether it was just added.
    pub fn get_render_pass(&mut self, query: RenderPassCacheQuery) -> (r: (u64, bool))
        requires
            old(self).wf(),
        ensures
            final(self).wf(),
            (final(self).keys(), r.0 as int) == render_pass_lookup(old(self).keys(), query.key()),
            r.1 == !old(self).keys().contains(query.key()),
    {
        let ghost keys = self.keys();
        let mut i: usize = 0;
        while i < self.queries.len()
            invariant
                i <= self.queries@.len(),
                keys == self.keys(),
                distinct_keys(keys),
                forall|j: int| 0 <= j < i ==> keys[j] != query.key(),
            decreases self.queries@.len() - i,
        {
            if self.queries[i].same_as(&query) {
                assert(keys[i as int] == query.key());
                assert(keys.contains(query.key()));
                assert(cached_id(keys, query.key()) == i as int);
                return (i as u64, false);
            }
            i += 1;
        }
        assert(!keys.contains(query.key()));
        let id = self.queries.len() as u64;
        self.queries.push(query);
        assert(self.keys() =~= keys.push(query.key()));
        (id, true)
    }

    /// The query that render pass `id` was made from.
    pub fn query(&self, id: u64) -> (r: Option<&RenderPassCacheQuery>)
        ensures
            match r {
                Some(q) => id < self.queries@.len() && q.key() == self.keys()[id as int],
                None => id >= self.queries@.len(),
            },
    {
        if id < self.queries.len() as u64 {
            Some(&self.queries[id as usize])
        } else {
            None
        }
    }
}

/// Two lookups return the same render pass id exactly when their keys are
/// equal: an identical key finds the cached pass, and a key that differs in
/// any load op or format gets another one.
pub proof fn lemma_same_key_same_render_pass(
    keys: Seq<RenderPassKey>,
    k1: RenderPassKey,
    k2: RenderPassKey,
)
    requires
        distinct_keys(keys),
    ensures
        ({
            let (after_first, id1) = render_pass_lookup(keys, k1);
            let (after_second, id2) = render_pass_lookup(after_first, k2);
            &&& distinct_keys(after_first)
            &&& distinct_keys(after_second)
            &&& (id1 == id2 <==> k1 == k2)
        }),
{
    let (a, id1) = render_pass_lookup(keys, k1);
    let (b, id2) = render_pass_lookup(a, k2);
    if keys.contains(k1) {
        let i = cached_id(keys, k1);
        assert(a[id1] == k1);
    } else {
        assert(a[id1] == k1);
        assert(forall|j: int| 0 <= j < keys.len() ==> a[j] == keys[j]);
    }
    if a.contains(k2) {
        assert(b[id2] == k2);
        assert(b == a);
    } else {
        assert(b[id2] == k2);
        assert(forall|j: int| 0 <= j < a.len() ==> b[j] == a[j]);
        assert(id1 < a.len());
    }
}

} // verus!
