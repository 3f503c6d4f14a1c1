//! The sky pipeline's fixed configuration and its specialized-variant
//! cache.
//!
//! The pipeline owns three fixed binding slots — the host's dynamically
//! offset per-view uniform, the per-frame sky uniform, and the static
//! star storage buffer with an enforced minimum size — and a set of
//! baked-in rendering choices.  Variants specialized per output sample
//! count and color format are cached in a plain mapping from key to
//! compiled-pipeline handle, created lazily and never evicted, at most
//! one per distinct key.  The host compiles a variant when the cache
//! reports a miss and registers the handle; this module decides hits,
//! misses and validity.
//!
//! Conventions picked once and applied to every variant: triangle-list
//! topology, counter-clockwise front face, no culling (the sky dome
//! encloses the viewer, so both winding orders can face the camera), a
//! reversed-depth greater-equal test with depth write, and opaque
//! blending.

use vstd::prelude::*;

verus! {

/// Binding slot of the host's dynamically offset per-view uniform.
pub const VIEW_UNIFORM_BINDING: u32 = 0;

/// Binding slot of the per-frame sky uniform.
pub const SKY_UNIFORM_BINDING: u32 = 1;

/// Binding slot of the static star storage buffer.
pub const STAR_BUFFER_BINDING: u32 = 2;

/// A pipeline failure: an invalid specialization key, or an attempt to
/// register a second variant for a key that already has one.
#[derive(Clone, Copy, PartialEq, Eq, Structural, Debug)]
pub enum PipelineError {
    InvalidKey,
    DuplicateVariant,
}

/// The key a pipeline variant is specialized by: the view's output
/// sample count and color-target format (as the host's format code).
#[derive(Clone, Copy, PartialEq, Eq, Structural, Debug)]
pub struct PipelineKey {
    pub sample_count: u32,
    pub format_id: u32,
}

/// A key is valid when its sample count is one of the supported
/// multisample counts.
pub open spec fn valid_key(k: PipelineKey) -> bool {
    k.sample_count == 1 || k.sample_count == 2 || k.sample_count == 4 || k.sample_count == 8
}

/// Whether some cached variant is keyed by `k`.
pub open spec fn has_variant(entries: Seq<(PipelineKey, u64)>, k: PipelineKey) -> bool {
    exists|p: int| 0 <= p < entries.len() && entries[p].0 == k
}

/// A well-formed cache: every key valid, and at most one entry per key.
pub open spec fn cache_wf(entries: Seq<(PipelineKey, u64)>) -> bool {
    &&& forall|p: int| 0 <= p < entries.len() ==> valid_key(#[trigger] entries[p].0)
    &&& forall|p: int, q: int|
        0 <= p < entries.len() && 0 <= q < entries.len() && #[trigger] entries[p].0
            == #[trigger] entries[q].0 ==> p == q
}

/// The cache of specialized pipeline variants: a plain mapping from key
/// to compiled-pipeline handle, filled lazily, never evicted.
pub struct VariantCache {
    pub entries: Vec<(PipelineKey, u64)>,
}

impl VariantCache {
    /// An empty cache.
    pub fn new() -> (r: VariantCache)
        ensures
            r.entries@.len() == 0,
            cache_wf(r.entries@),
    {
        VariantCache { entries: Vec::new() }
    }

    /// The cached handle for `key`, or `None` on a miss.
    pub fn lookup(&self, key: &PipelineKey) -> (r: Option<u64>)
        ensures
            r is Some <==> has_variant(self.entries@, *key),
            r matches Some(h) ==> exists|p: int|
                0 <= p < self.entries@.len() && self.entries@[p] == (*key, h),
    {
        let n: usize = self.entries.len();
        let mut i: usize = 0;
        while i < n
            invariant
                n == self.entries@.len(),
                i <= n,
                forall|q: int| 0 <= q < i ==> (#[trigger] self.entries@[q].0) != *key,
            decreases n - i,
        {
            let entry = self.entries[i];
            if entry.0 == *key {
                return Some(entry.1);
            }
            i = i + 1;
        }
        None
    }

    /// Resolve a specialization: an invalid key is a configuration
    /// defect and is refused outright; a valid key yields the cached
    /// handle, or a miss (`Ok(None)`), on which the host compiles the
    /// variant and registers it.
    pub fn specialize(&self, key: &PipelineKey) -> (r: Result<Option<u64>, PipelineError>)
        ensures
            !valid_key(*key) ==> r == Err::<Option<u64>, PipelineError>(PipelineError::InvalidKey),
            valid_key(*key) ==> (r matches Ok(o) && (o is Some <==> has_variant(
                self.entries@,
                *key,
            )) && (o matches Some(h) ==> exists|p: int|
                0 <= p < self.entries@.len() && self.entries@[p] == (*key, h))),
    {
        let sc: u32 = key.sample_count;
        if !(sc == 1 || sc == 2 || sc == 4 || sc == 8) {
            return Err(PipelineError::InvalidKey);
        }
        Ok(self.lookup(key))
    }

    /// Register the compiled handle for a key the cache missed.  Every
    /// existing entry is kept — the cache never evicts — and a key that
    /// is invalid, or already has its variant, is refused unchanged.
    pub fn register(&mut self, key: PipelineKey, handle: u64) -> (r: Result<(), PipelineError>)
        ensures
            !valid_key(key) ==> (r == Err::<(), PipelineError>(PipelineError::InvalidKey) && *final (
            self) == *old(self)),
            valid_key(key) && has_variant(old(self).entries@, key) ==> (r == Err::<(
            ), PipelineError>(PipelineError::DuplicateVariant) && *final (self) == *old(self)),
            valid_key(key) && !has_variant(old(self).entries@, key) ==> (r == Ok::<(
            ), PipelineError>(()) && final (self).entries@ == old(self).entries@.push(
                (key, handle),
            )),
            cache_wf(old(self).entries@) ==> cache_wf(final (self).entries@),
    {
        let sc: u32 = key.sample_count;
        if !(sc == 1 || sc == 2 || sc == 4 || sc == 8) {
            return Err(PipelineError::InvalidKey);
        }
        if self.lookup(&key).is_some() {
            return Err(PipelineError::DuplicateVariant);
        }
        self.entries.push((key, handle));
        Ok(())
    }

    /// The number of cached variants.
    pub fn len(&self) -> (r: usize)
        ensures
            r == self.entries@.len(),
    {
        self.entries.len()
    }
}

/// A well-formed cache holds at most one variant per distinct key: two
/// entries under the same key are the same entry.
pub proof fn lemma_at_most_one_variant_per_key(entries: Seq<(PipelineKey, u64)>, p: int, q: int)
    requires
        cache_wf(entries),
        0 <= p < entries.len(),
        0 <= q < entries.len(),
        entries[p].0 == entries[q].0,
    ensures
        p == q,
{
}

/// The bind-group layout of the sky pipeline: which slot each of the
/// three bindings occupies, and the enforced minimum byte size of the
/// star buffer.
#[derive(Clone, Copy, PartialEq, Eq, Structural, Debug)]
pub struct BindGroupLayoutSpec {
    /// Slot of the host's per-view uniform.
    pub view_binding: u32,
    /// The per-view uniform is bound with a dynamic offset.
    pub view_has_dynamic_offset: bool,
    /// Slot of the per-frame sky uniform.
    pub sky_binding: u32,
    /// Slot of the read-only star storage buffer.
    pub star_binding: u32,
    /// Minimum size of the star buffer: the catalog's byte length, so a
    /// mismatched shader fails at layout creation instead of reading
    /// out of bounds.
    pub star_min_size_bytes: u64,
}

/// The fixed bind-group layout for a catalog of `n_stars` records.
pub fn bind_group_layout(n_stars: u64) -> (r: BindGroupLayoutSpec)
    requires
        n_stars <= u64::MAX / 16,
    ensures
        r == (BindGroupLayoutSpec {
            view_binding: VIEW_UNIFORM_BINDING,
            view_has_dynamic_offset: true,
            sky_binding: SKY_UNIFORM_BINDING,
            star_binding: STAR_BUFFER_BINDING,
            star_min_size_bytes: (16 * n_stars) as u64,
        }),
{
    BindGroupLayoutSpec {
        view_binding: VIEW_UNIFORM_BINDING,
        view_has_dynamic_offset: true,
        sky_binding: SKY_UNIFORM_BINDING,
        star_binding: STAR_BUFFER_BINDING,
        star_min_size_bytes: 16 * n_stars,
    }
}

/// Primitive topology of the sky draw.
#[derive(Clone, Copy, PartialEq, Eq, Structural, Debug)]
pub enum Topology {
    TriangleList,
    TriangleStrip,
}

/// Which winding order is the front face.
#[derive(Clone, Copy, PartialEq, Eq, Structural, Debug)]
pub enum FrontFace {
    CounterClockwise,
    Clockwise,
}

/// Face culling policy.
#[derive(Clone, Copy, PartialEq, Eq, Structural, Debug)]
pub enum CullMode {
    Disabled,
    Front,
    Back,
}

/// Depth comparison of the sky draw against the depth buffer.
#[derive(Clone, Copy, PartialEq, Eq, Structural, Debug)]
pub enum DepthCompare {
    GreaterEqual,
    LessEqual,
    Always,
}

/// Blending of the stars over the cleared background.
#[derive(Clone, Copy, PartialEq, Eq, Structural, Debug)]
pub enum BlendMode {
    Opaque,
    AlphaBlend,
}

/// The rendering choices baked into every specialized variant.
#[derive(Clone, Copy, PartialEq, Eq, Structural, Debug)]
pub struct PipelineSettings {
    pub topology: Topology,
    pub front_face: FrontFace,
    pub cull: CullMode,
    pub depth_compare: DepthCompare,
    pub depth_write: bool,
    pub blend: BlendMode,
}

/// The one fixed choice of rendering settings, shared by every variant:
/// triangle list, counter-clockwise front face, no culling, a
/// reversed-depth greater-equal test with depth write, opaque blending.
pub fn fixed_pipeline_settings() -> (r: PipelineSettings)
    ensures
        r == (PipelineSettings {
            topology: Topology::TriangleList,
            front_face: FrontFace::CounterClockwise,
            cull: CullMode::Disabled,
            depth_compare: DepthCompare::GreaterEqual,
            depth_write: true,
            blend: BlendMode::Opaque,
        }),
{
    PipelineSettings {
        topology: Topology::TriangleList,
        front_face: FrontFace::CounterClockwise,
        cull: CullMode::Disabled,
        depth_compare: DepthCompare::GreaterEqual,
        depth_write: true,
        blend: BlendMode::Opaque,
    }
}

} // verus!
