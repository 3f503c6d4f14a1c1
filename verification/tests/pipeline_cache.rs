use starfield::pipeline::{
    bind_group_layout, fixed_pipeline_settings, BlendMode, CullMode, DepthCompare, FrontFace,
    PipelineError, PipelineKey, Topology, VariantCache, SKY_UNIFORM_BINDING, STAR_BUFFER_BINDING,
    VIEW_UNIFORM_BINDING,
};

#[test]
fn fixed_settings_are_the_documented_choice() {
    let s = fixed_pipeline_settings();
    assert_eq!(s.topology, Topology::TriangleList);
    assert_eq!(s.front_face, FrontFace::CounterClockwise);
    assert_eq!(s.cull, CullMode::Disabled);
    assert_eq!(s.depth_compare, DepthCompare::GreaterEqual);
    assert!(s.depth_write);
    assert_eq!(s.blend, BlendMode::Opaque);
}

#[test]
fn layout_uses_fixed_slots_and_catalog_size() {
    let layout = bind_group_layout(9_096);
    assert_eq!(layout.view_binding, VIEW_UNIFORM_BINDING);
    assert_eq!(layout.view_binding, 0);
    assert!(layout.view_has_dynamic_offset);
    assert_eq!(layout.sky_binding, SKY_UNIFORM_BINDING);
    assert_eq!(layout.sky_binding, 1);
    assert_eq!(layout.star_binding, STAR_BUFFER_BINDING);
    assert_eq!(layout.star_binding, 2);
    assert_eq!(layout.star_min_size_bytes, 145_536);
}

#[test]
fn invalid_sample_count_is_refused() {
    let cache = VariantCache::new();
    let bad = PipelineKey { sample_count: 3, format_id: 0 };
    assert_eq!(cache.specialize(&bad), Err(PipelineError::InvalidKey));
    let mut cache = cache;
    assert_eq!(cache.register(bad, 1), Err(PipelineError::InvalidKey));
    assert_eq!(cache.len(), 0);
}

#[test]
fn miss_then_register_then_hit() {
    let mut cache = VariantCache::new();
    let key = PipelineKey { sample_count: 4, format_id: 7 };
    assert_eq!(cache.specialize(&key), Ok(None));
    assert_eq!(cache.register(key, 42), Ok(()));
    assert_eq!(cache.specialize(&key), Ok(Some(42)));
    assert_eq!(cache.lookup(&key), Some(42));
}

#[test]
fn one_variant_per_key() {
    let mut cache = VariantCache::new();
    let key = PipelineKey { sample_count: 1, format_id: 3 };
    assert_eq!(cache.register(key, 10), Ok(()));
    assert_eq!(cache.register(key, 11), Err(PipelineError::DuplicateVariant));
    // The first handle stays.
    assert_eq!(cache.lookup(&key), Some(10));
    assert_eq!(cache.len(), 1);
}

#[test]
fn the_cache_never_evicts() {
    let mut cache = VariantCache::new();
    let a = PipelineKey { sample_count: 1, format_id: 0 };
    let b = PipelineKey { sample_count: 8, format_id: 0 };
    let c = PipelineKey { sample_count: 4, format_id: 5 };
    cache.register(a, 1).unwrap();
    cache.register(b, 2).unwrap();
    cache.register(c, 3).unwrap();
    assert_eq!(cache.lookup(&a), Some(1));
    assert_eq!(cache.lookup(&b), Some(2));
    assert_eq!(cache.lookup(&c), Some(3));
    assert_eq!(cache.len(), 3);
}
