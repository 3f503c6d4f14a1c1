//! The per-frame draw planner.
//!
//! For every active view the pass resolves the pipeline variant for the
//! view's sample count and format, checks that the view's uniform and
//! the frame's sky uniform are bound, and plans at most one draw: the
//! whole catalog in a single call of six vertices per star (each star is
//! a camera-facing quad built procedurally in the vertex stage), sorted
//! by a distance sentinel that keeps the sky behind all ordinary
//! geometry.  A view whose bindings are not populated this frame is
//! skipped silently — absence is a normal transient condition during
//! startup — and never draws.

use vstd::prelude::*;
use crate::pipeline::{has_variant, PipelineKey, VariantCache};

verus! {

/// The draw-distance sort key of the sky: the farthest representable
/// distance, so the sky sorts behind everything else in the phase.
pub const DRAW_DISTANCE_SENTINEL: u64 = u64::MAX;

/// One view's output configuration: sample count and color format.
#[derive(Clone, Copy, PartialEq, Eq, Structural, Debug)]
pub struct ViewTarget {
    pub sample_count: u32,
    pub format_id: u32,
}

/// Which of the two required GPU bindings a view has populated this
/// frame.
#[derive(Clone, Copy, PartialEq, Eq, Structural, Debug)]
pub struct ViewBindings {
    /// The host's per-view uniform is bound.
    pub has_view_uniform: bool,
    /// This frame's sky uniform is bound.
    pub has_sky_uniform: bool,
}

/// One planned draw: the pipeline variant to bind, the vertex count of
/// the single call covering the whole catalog, and its sort key.
#[derive(Clone, Copy, PartialEq, Eq, Structural, Debug)]
pub struct DrawCommand {
    /// Handle of the pipeline variant for the view's key.
    pub pipeline: u64,
    /// Six procedurally generated vertices per star.
    pub vertex_count: u64,
    /// Distance sort key; always the far sentinel.
    pub distance_sort_key: u64,
}

/// What a correctly planned draw for one view looks like: a draw is
/// planned exactly when both bindings are populated and the variant for
/// the view's key is cached, and then it is the one full-catalog draw
/// behind everything, with that variant's handle.
pub open spec fn planned_draw_ok(
    entries: Seq<(PipelineKey, u64)>,
    view: ViewTarget,
    bindings: ViewBindings,
    n_stars: u64,
    o: Option<DrawCommand>,
) -> bool {
    let key = PipelineKey { sample_count: view.sample_count, format_id: view.format_id };
    &&& (o is Some <==> bindings.has_view_uniform && bindings.has_sky_uniform && has_variant(
        entries,
        key,
    ))
    &&& (o matches Some(cmd) ==> cmd.vertex_count == 6 * n_stars && cmd.distance_sort_key
        == DRAW_DISTANCE_SENTINEL && (exists|p: int|
        0 <= p < entries.len() && entries[p] == (key, cmd.pipeline)))
}

/// Plan the sky draw for one view, or skip it.  A view missing its view
/// uniform or the frame's sky uniform, or whose pipeline variant is not
/// yet cached, draws nothing this frame; otherwise exactly one draw of
/// `6 * n_stars` vertices is planned, sorted behind all other geometry.
pub fn plan_view_draw(
    cache: &VariantCache,
    view: &ViewTarget,
    bindings: &ViewBindings,
    n_stars: u64,
) -> (r: Option<DrawCommand>)
    requires
        n_stars <= u64::MAX / 6,
    ensures
        planned_draw_ok(cache.entries@, *view, *bindings, n_stars, r),
{
    if !bindings.has_view_uniform || !bindings.has_sky_uniform {
        return None;
    }
    let key = PipelineKey { sample_count: view.sample_count, format_id: view.format_id };
    match cache.lookup(&key) {
        Some(handle) => Some(
            DrawCommand {
                pipeline: handle,
                vertex_count: 6 * n_stars,
                distance_sort_key: DRAW_DISTANCE_SENTINEL,
            },
        ),
        None => None,
    }
}

/// Plan a whole frame: one decision per active view, in view order.
/// Each view gets at most one draw, and a view lacking its bindings or
/// its variant contributes none — never an error.
pub fn plan_frame(
    cache: &VariantCache,
    views: &Vec<(ViewTarget, ViewBindings)>,
    n_stars: u64,
) -> (r: Vec<Option<DrawCommand>>)
    requires
        n_stars <= u64::MAX / 6,
    ensures
        r@.len() == views@.len(),
        forall|i: int|
            0 <= i < views@.len() ==> planned_draw_ok(
                cache.entries@,
                views@[i].0,
                views@[i].1,
                n_stars,
                #[trigger] r@[i],
            ),
{
    let n: usize = views.len();
    let mut plans: Vec<Option<DrawCommand>> = Vec::new();
    let mut i: usize = 0;
    while i < n
        invariant
            n == views@.len(),
            n_stars <= u64::MAX / 6,
            i <= n,
            plans@.len() == i,
            forall|k: int|
                0 <= k < i ==> planned_draw_ok(
                    cache.entries@,
                    views@[k].0,
                    views@[k].1,
                    n_stars,
                    #[trigger] plans@[k],
                ),
        decreases n - i,
    {
        let view_entry = views[i];
        let plan = plan_view_draw(cache, &view_entry.0, &view_entry.1, n_stars);
        plans.push(plan);
        i = i + 1;
    }
    plans
}

} // verus!
