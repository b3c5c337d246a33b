use arara::extract::ImageHandle;
use arara::stage::{AppExit, CoreStage, RenderStage, StartupStage};
use arara::phase::Phase;
use arara::pipeline::{missing_keys, PipelineKey, PipelineStatus, RenderPipelineCache};
use arara::texture::{TextureBuffer, TextureError};

fn key(textured: bool, phase: Phase) -> PipelineKey {
    PipelineKey { vertex_shader: 7, fragment_shader: 8, textured, phase }
}

#[test]
fn texture_slot_stable_within_frame() {
    let mut tb = TextureBuffer::new(5);
    let first = tb.slot_for_texture(ImageHandle(42)).unwrap();
    let second = tb.slot_for_texture(ImageHandle(42)).unwrap();
    assert_eq!(first, second);
    assert_ne!(first, 0, "slot 0 is reserved for the placeholder texture");
    assert_eq!(first, 1);
    assert_eq!(tb.len(), 1);
}

#[test]
fn texture_slots_count_up_from_one() {
    let mut tb = TextureBuffer::new(5);
    assert_eq!(tb.slot_for_texture(ImageHandle(10)).unwrap(), 1);
    assert_eq!(tb.slot_for_texture(ImageHandle(11)).unwrap(), 2);
    assert_eq!(tb.slot_for_texture(ImageHandle(12)).unwrap(), 3);
    assert_eq!(tb.slot_for_texture(ImageHandle(10)).unwrap(), 1);
    assert_eq!(tb.get_position(Some(ImageHandle(11))), 2);
    assert_eq!(tb.get_position(None), 0);
    assert_eq!(tb.get_position(Some(ImageHandle(99))), 0);
}

#[test]
fn texture_slot_exhaustion_is_reported() {
    let mut tb = TextureBuffer::new(1);
    assert_eq!(tb.slot_for_texture(ImageHandle(1)).unwrap(), 1);
    assert_eq!(tb.slot_for_texture(ImageHandle(2)), Err(TextureError::SlotsFull));
    // The failed request leaves the table unchanged; the assigned slot
    // is still served.
    assert_eq!(tb.slot_for_texture(ImageHandle(1)).unwrap(), 1);
    assert_eq!(tb.len(), 1);
}

#[test]
fn texture_table_rebuilds_per_frame() {
    let mut tb = TextureBuffer::new(5);
    assert_eq!(tb.slot_for_texture(ImageHandle(10)).unwrap(), 1);
    assert_eq!(tb.slot_for_texture(ImageHandle(11)).unwrap(), 2);
    tb.clear();
    assert_eq!(tb.len(), 0);
    assert_eq!(tb.slot_for_texture(ImageHandle(11)).unwrap(), 1);
}

#[test]
fn pipeline_compiled_at_most_once() {
    let mut cache = RenderPipelineCache::new();
    let k = key(false, Phase::Opaque);
    let mut compiles = 0usize;
    for _frame in 0..4 {
        // One frame requests the same key three times.
        let requested = vec![k, k, k];
        let to_compile = missing_keys(&cache, &requested);
        for miss in to_compile.iter() {
            compiles += 1;
            cache.install(*miss, PipelineStatus::Ready(1));
        }
    }
    assert_eq!(compiles, 1);
    assert_eq!(cache.compile_count(), 1);
    assert_eq!(cache.lookup(k), Some(PipelineStatus::Ready(1)));
}

#[test]
fn pipeline_failure_is_cached() {
    let mut cache = RenderPipelineCache::new();
    let k = key(true, Phase::Transparent);
    assert!(cache.needs_compile(k));
    cache.install(k, PipelineStatus::Failed);
    assert!(!cache.needs_compile(k));
    assert_eq!(cache.lookup(k), Some(PipelineStatus::Failed));
    // A failed key is never listed for recompilation.
    let to_compile = missing_keys(&cache, &vec![k]);
    assert!(to_compile.is_empty());
}

#[test]
fn missing_keys_lists_each_key_once() {
    let mut cache = RenderPipelineCache::new();
    let a = key(false, Phase::Opaque);
    let b = key(true, Phase::Transparent);
    cache.install(a, PipelineStatus::Ready(3));
    let to_compile = missing_keys(&cache, &vec![a, b, b, a, b]);
    assert_eq!(to_compile.len(), 1);
    assert_eq!(to_compile[0], b);
}

#[test]
fn stage_labels_are_distinct() {
    assert_ne!(CoreStage::PreUpdate, CoreStage::Update);
    assert_ne!(StartupStage::PreStartup, StartupStage::PostStartup);
    assert_eq!(RenderStage::Draw, RenderStage::Draw);
    let exit = AppExit;
    assert_eq!(format!("{:?}", exit), "AppExit");
}
