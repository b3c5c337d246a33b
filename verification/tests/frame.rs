use arara::asset::{DefaultShader, Mesh, MeshStore, MeshVertex};
use arara::batch::{prepare_phase, CorePipelineBatch, PrepareErrorKind};
use arara::color::{ClearColor, Color, COLOR_ONE};
use arara::draw::{main_pass, BPLight, DrawCommand, DrawSimpleMesh, ExtractedView, FrameSubmission};
use arara::extract::{
    extract_entities, ExtractedCorePipelineEntity, ImageHandle, MeshHandle, SimpleMeshBundle,
    Visibility,
};
use arara::math::{distance_sq, normal_matrix, transform_normal, transform_point, Mat4Fp, Vec3Fp, Vec4Fp};
use arara::phase::{classify, Phase, RenderPhaseItem};
use arara::pipeline::{PipelineKey, PipelineStatus, RenderPipelineCache};
use arara::texture::TextureBuffer;

fn fp(x: f32) -> i64 {
    (x * 65536.0) as i64
}

fn alpha_fp(x: f32) -> u32 {
    (x * 65536.0) as u32
}

fn rgba(r: f32, g: f32, b: f32, a: f32) -> Color {
    Color::checked_rgba(alpha_fp(r), alpha_fp(g), alpha_fp(b), alpha_fp(a)).unwrap()
}

fn translate(x: f32, y: f32, z: f32) -> Mat4Fp {
    let mut m = Mat4Fp::identity();
    m.c3 = Vec4Fp { x: fp(x), y: fp(y), z: fp(z), w: fp(1.0) };
    m
}

fn scale(x: f32, y: f32, z: f32) -> Mat4Fp {
    let mut m = Mat4Fp::identity();
    m.c0.x = fp(x);
    m.c1.y = fp(y);
    m.c2.z = fp(z);
    m
}

fn vertex_at(x: f32, y: f32, z: f32) -> MeshVertex {
    MeshVertex {
        position: Vec3Fp { x: fp(x), y: fp(y), z: fp(z) },
        normal: Vec3Fp { x: 0, y: fp(1.0), z: 0 },
        tex_u: 0,
        tex_v: 0,
    }
}

/// A mesh with `n` vertices along the x axis and a fan-ish index list.
fn mesh_with(n: usize) -> Mesh {
    let mut vertices = Vec::new();
    for i in 0..n {
        vertices.push(vertex_at(i as f32, 0.0, 0.0));
    }
    let mut indices = Vec::new();
    for i in 0..n.saturating_sub(2) {
        indices.push(0u32);
        indices.push(i as u32 + 1);
        indices.push(i as u32 + 2);
    }
    Mesh { vertices, indices }
}

fn shader() -> DefaultShader {
    DefaultShader { vertex_shader: 7, fragment_shader: 8 }
}

fn key_for(textured: bool, phase: Phase) -> PipelineKey {
    PipelineKey { vertex_shader: 7, fragment_shader: 8, textured, phase }
}

fn entity(
    mesh: u64,
    image: Option<u64>,
    transform: Mat4Fp,
    color: Color,
) -> ExtractedCorePipelineEntity {
    ExtractedCorePipelineEntity {
        mesh: MeshHandle(mesh),
        image: image.map(ImageHandle),
        transform,
        color,
    }
}

fn batch_content_equal(a: &[CorePipelineBatch], b: &[CorePipelineBatch]) -> bool {
    a.len() == b.len()
        && a.iter().zip(b.iter()).all(|(x, y)| {
            x.key == y.key && x.pipeline == y.pipeline && x.vertices == y.vertices
                && x.indices == y.indices
        })
}

#[test]
fn extraction_excludes_invisible_entities() {
    let visible = SimpleMeshBundle {
        mesh: MeshHandle(1),
        transform: translate(1.0, 0.0, 0.0),
        color: rgba(1.0, 0.0, 0.0, 1.0),
        image: None,
        visibility: Visibility { active: true },
    };
    let hidden = SimpleMeshBundle { visibility: Visibility { active: false }, ..visible };
    let other = SimpleMeshBundle { mesh: MeshHandle(2), ..visible };
    let scene = vec![visible, hidden, other];
    let snapshot = extract_entities(&scene);
    assert_eq!(snapshot.len(), 2);
    assert_eq!(snapshot[0].mesh, MeshHandle(1));
    assert_eq!(snapshot[1].mesh, MeshHandle(2));
}

#[test]
fn classification_alpha_boundary() {
    let cam = Vec3Fp { x: 0, y: 0, z: 0 };
    let exactly_one = entity(1, None, translate(0.0, 0.0, 1.0), rgba(1.0, 1.0, 1.0, 1.0));
    let nearly_one = entity(2, None, translate(0.0, 0.0, 2.0), rgba(1.0, 1.0, 1.0, 0.999999));
    assert_eq!(exactly_one.color.alpha, COLOR_ONE);
    assert!(nearly_one.color.alpha < COLOR_ONE);
    let extracted = vec![exactly_one, nearly_one];
    let (opaque, transparent) = classify(&extracted, cam);
    assert_eq!(opaque.phase, Phase::Opaque);
    assert_eq!(transparent.phase, Phase::Transparent);
    assert_eq!(opaque.items.len(), 1);
    assert_eq!(opaque.items[0].entity_index, 0);
    assert_eq!(transparent.items.len(), 1);
    assert_eq!(transparent.items[0].entity_index, 1);
}

#[test]
fn transparent_sorted_back_to_front() {
    let cam = Vec3Fp { x: 0, y: 0, z: 0 };
    let a = entity(1, None, translate(0.0, 0.0, 1.0), rgba(1.0, 1.0, 1.0, 0.5));
    let b = entity(1, None, translate(0.0, 0.0, 5.0), rgba(1.0, 1.0, 1.0, 0.5));
    let c = entity(1, None, translate(0.0, 0.0, 3.0), rgba(1.0, 1.0, 1.0, 0.5));
    let extracted = vec![a, b, c];
    let (_, transparent) = classify(&extracted, cam);
    let order: Vec<usize> = transparent.items.iter().map(|it| it.entity_index).collect();
    assert_eq!(order, vec![1, 2, 0], "depths 1, 5, 3 must draw as 5, 3, 1");
    assert!(transparent.items[0].distance_sq >= transparent.items[1].distance_sq);
    assert!(transparent.items[1].distance_sq >= transparent.items[2].distance_sq);
}

#[test]
fn distance_is_squared_camera_distance() {
    let cam = Vec3Fp { x: 0, y: 0, z: 0 };
    let p = Vec3Fp { x: 0, y: 0, z: fp(5.0) };
    let d = distance_sq(p, cam);
    assert_eq!(d, (5 * 65536u64) * (5 * 65536u64));
}

#[test]
fn point_transform_exact() {
    let m = {
        let mut m = scale(2.0, 2.0, 2.0);
        m.c3 = Vec4Fp { x: fp(1.0), y: 0, z: 0, w: fp(1.0) };
        m
    };
    let p = transform_point(&m, Vec3Fp { x: fp(1.5), y: 0, z: 0 });
    assert_eq!(p.x, fp(4.0), "2 * 1.5 + 1 = 4");
    assert_eq!(p.y, 0);
    assert_eq!(p.z, 0);
}

#[test]
fn normal_transform_handles_non_uniform_scale() {
    // Under a non-uniform scale the normal must follow the
    // inverse-transpose direction, not the plain transform.
    let m = scale(2.0, 1.0, 1.0);
    let n = normal_matrix(&m);
    let nx = transform_normal(&n, Vec3Fp { x: fp(1.0), y: 0, z: 0 });
    let ny = transform_normal(&n, Vec3Fp { x: 0, y: fp(1.0), z: 0 });
    // The cofactor matrix of diag(2, 1, 1) is diag(1, 2, 2): twice the
    // inverse-transpose diag(0.5, 1, 1), same directions.
    assert_eq!((nx.x, nx.y, nx.z), (fp(1.0), 0, 0));
    assert_eq!((ny.x, ny.y, ny.z), (0, fp(2.0), 0));
}

#[test]
fn normal_transform_keeps_orientation_under_mirror() {
    let m = scale(-1.0, 1.0, 1.0);
    let n = normal_matrix(&m);
    let nx = transform_normal(&n, Vec3Fp { x: fp(1.0), y: 0, z: 0 });
    // inverse-transpose of diag(-1, 1, 1) is diag(-1, 1, 1) itself.
    assert_eq!((nx.x, nx.y, nx.z), (fp(-1.0), 0, 0));
}

#[test]
fn index_buffer_offsetting() {
    // Two meshes with 4 and 6 vertices batched together: the second
    // mesh's indices are offset by +4.
    let mut meshes = MeshStore::new();
    meshes.add(MeshHandle(1), mesh_with(4));
    meshes.add(MeshHandle(2), mesh_with(6));
    let mut cache = RenderPipelineCache::new();
    cache.install(key_for(false, Phase::Opaque), PipelineStatus::Ready(1));
    let color = rgba(1.0, 1.0, 1.0, 1.0);
    let extracted = vec![
        entity(1, None, Mat4Fp::identity(), color),
        entity(2, None, Mat4Fp::identity(), color),
    ];
    let items = vec![
        RenderPhaseItem { entity_index: 0, distance_sq: 0 },
        RenderPhaseItem { entity_index: 1, distance_sq: 0 },
    ];
    let mut textures = TextureBuffer::new(5);
    let (batches, errors) = prepare_phase(
        Phase::Opaque,
        &items,
        &extracted,
        &meshes,
        &shader(),
        &cache,
        &mut textures,
    );
    assert!(errors.is_empty());
    assert_eq!(batches.len(), 1, "same pipeline key merges into one batch");
    let batch = &batches[0];
    assert_eq!(batch.vertices.len(), 10);
    let m1 = mesh_with(4);
    let m2 = mesh_with(6);
    assert_eq!(batch.indices.len(), m1.indices.len() + m2.indices.len());
    for (j, ix) in m1.indices.iter().enumerate() {
        assert_eq!(batch.indices[j], *ix);
    }
    for (j, ix) in m2.indices.iter().enumerate() {
        assert_eq!(batch.indices[m1.indices.len() + j], *ix + 4);
    }
}

#[test]
fn batching_is_idempotent() {
    let mut meshes = MeshStore::new();
    meshes.add(MeshHandle(1), mesh_with(4));
    meshes.add(MeshHandle(2), mesh_with(6));
    let mut cache = RenderPipelineCache::new();
    cache.install(key_for(false, Phase::Opaque), PipelineStatus::Ready(1));
    cache.install(key_for(true, Phase::Opaque), PipelineStatus::Ready(2));
    let extracted = vec![
        entity(1, None, translate(1.0, 2.0, 3.0), rgba(0.5, 0.25, 0.125, 1.0)),
        entity(2, Some(77), scale(2.0, 1.0, 3.0), rgba(1.0, 1.0, 1.0, 1.0)),
    ];
    let items = vec![
        RenderPhaseItem { entity_index: 0, distance_sq: 0 },
        RenderPhaseItem { entity_index: 1, distance_sq: 0 },
    ];
    let mut t1 = TextureBuffer::new(5);
    let (b1, e1) = prepare_phase(
        Phase::Opaque, &items, &extracted, &meshes, &shader(), &cache, &mut t1,
    );
    let mut t2 = TextureBuffer::new(5);
    let (b2, e2) = prepare_phase(
        Phase::Opaque, &items, &extracted, &meshes, &shader(), &cache, &mut t2,
    );
    assert!(batch_content_equal(&b1, &b2));
    assert_eq!(e1.len(), e2.len());
}

#[test]
fn missing_mesh_is_skipped_without_error() {
    let meshes = MeshStore::new();
    let mut cache = RenderPipelineCache::new();
    cache.install(key_for(false, Phase::Opaque), PipelineStatus::Ready(1));
    let extracted = vec![entity(9, None, Mat4Fp::identity(), rgba(1.0, 1.0, 1.0, 1.0))];
    let items = vec![RenderPhaseItem { entity_index: 0, distance_sq: 0 }];
    let mut textures = TextureBuffer::new(5);
    let (batches, errors) = prepare_phase(
        Phase::Opaque,
        &items,
        &extracted,
        &meshes,
        &shader(),
        &cache,
        &mut textures,
    );
    assert!(batches.is_empty(), "a not-ready mesh emits zero buffers");
    assert!(errors.is_empty(), "a not-ready mesh is not an error");
}

#[test]
fn texture_exhaustion_skips_only_that_item() {
    let mut meshes = MeshStore::new();
    meshes.add(MeshHandle(1), mesh_with(3));
    let mut cache = RenderPipelineCache::new();
    cache.install(key_for(true, Phase::Opaque), PipelineStatus::Ready(1));
    cache.install(key_for(false, Phase::Opaque), PipelineStatus::Ready(2));
    let extracted = vec![
        entity(1, Some(10), Mat4Fp::identity(), rgba(1.0, 1.0, 1.0, 1.0)),
        entity(1, Some(11), Mat4Fp::identity(), rgba(1.0, 1.0, 1.0, 1.0)),
        entity(1, None, Mat4Fp::identity(), rgba(1.0, 1.0, 1.0, 1.0)),
    ];
    let items = vec![
        RenderPhaseItem { entity_index: 0, distance_sq: 0 },
        RenderPhaseItem { entity_index: 1, distance_sq: 0 },
        RenderPhaseItem { entity_index: 2, distance_sq: 0 },
    ];
    let mut textures = TextureBuffer::new(1);
    let (batches, errors) = prepare_phase(
        Phase::Opaque,
        &items,
        &extracted,
        &meshes,
        &shader(),
        &cache,
        &mut textures,
    );
    assert_eq!(errors.len(), 1);
    assert_eq!(errors[0].entity_index, 1);
    assert_eq!(errors[0].kind, PrepareErrorKind::TextureSlotsFull);
    // The first textured item and the untextured item still drew.
    let total_vertices: usize = batches.iter().map(|b| b.vertices.len()).sum();
    assert_eq!(total_vertices, 6);
}

#[test]
fn unresolved_pipeline_drops_item_silently() {
    let mut meshes = MeshStore::new();
    meshes.add(MeshHandle(1), mesh_with(3));
    let cache = RenderPipelineCache::new();
    let extracted = vec![entity(1, None, Mat4Fp::identity(), rgba(1.0, 1.0, 1.0, 1.0))];
    let items = vec![RenderPhaseItem { entity_index: 0, distance_sq: 0 }];
    let mut textures = TextureBuffer::new(5);
    let (batches, errors) = prepare_phase(
        Phase::Opaque,
        &items,
        &extracted,
        &meshes,
        &shader(),
        &cache,
        &mut textures,
    );
    assert!(batches.is_empty());
    assert!(errors.is_empty());
}

fn two_entity_frame(view: ExtractedView) -> FrameSubmission {
    let mut meshes = MeshStore::new();
    meshes.add(MeshHandle(1), mesh_with(4));
    meshes.add(MeshHandle(2), mesh_with(6));
    let mut cache = RenderPipelineCache::new();
    cache.install(key_for(false, Phase::Opaque), PipelineStatus::Ready(1));
    cache.install(key_for(true, Phase::Transparent), PipelineStatus::Ready(2));
    let scene = vec![
        SimpleMeshBundle {
            mesh: MeshHandle(1),
            transform: translate(0.0, 0.0, 2.0),
            color: rgba(1.0, 0.0, 0.0, 1.0),
            image: None,
            visibility: Visibility { active: true },
        },
        SimpleMeshBundle {
            mesh: MeshHandle(2),
            transform: translate(0.0, 0.0, 5.0),
            color: rgba(0.0, 0.0, 1.0, 0.5),
            image: Some(ImageHandle(7)),
            visibility: Visibility { active: true },
        },
    ];
    let extracted = extract_entities(&scene);
    let (opaques, transparents) = classify(&extracted, view.position);
    let mut textures = TextureBuffer::new(5);
    main_pass(
        &ClearColor::default(),
        &BPLight::default(),
        &view,
        &shader(),
        &meshes,
        &cache,
        &mut textures,
        &extracted,
        &opaques,
        &transparents,
    )
}

#[test]
fn end_to_end_one_opaque_one_transparent() {
    let view = ExtractedView {
        pv_matrix: Mat4Fp::identity(),
        position: Vec3Fp { x: 0, y: 0, z: 0 },
    };
    let fs = two_entity_frame(view);
    assert!(fs.errors.is_empty());
    assert_eq!(fs.opaque_batches.len(), 1);
    assert_eq!(fs.transparent_batches.len(), 1);
    assert!(!fs.opaque_batches[0].key.textured);
    assert!(fs.transparent_batches[0].key.textured);
    assert_eq!(fs.opaque_batches[0].pipeline, 1);
    assert_eq!(fs.transparent_batches[0].pipeline, 2);
    // The untextured entity samples the placeholder slot 0; the textured
    // one got slot 1.
    assert!(fs.opaque_batches[0].vertices.iter().all(|v| v.tex_index == 0));
    assert!(fs.transparent_batches[0].vertices.iter().all(|v| v.tex_index == 1));
    // Two passes: depth write on then off, blending off then on.
    assert_eq!(fs.commands.len(), 4);
    assert!(matches!(fs.commands[0], DrawCommand::Clear { .. }));
    match fs.commands[1] {
        DrawCommand::Draw { phase, batch_index, parameters } => {
            assert_eq!(phase, Phase::Opaque);
            assert_eq!(batch_index, 0);
            assert!(parameters.depth_test_if_less);
            assert!(parameters.depth_write);
            assert!(parameters.cull_clockwise_backfaces);
            assert!(!parameters.alpha_blend);
        },
        _ => panic!("second command must draw the opaque batch"),
    }
    match fs.commands[2] {
        DrawCommand::Draw { phase, batch_index, parameters } => {
            assert_eq!(phase, Phase::Transparent);
            assert_eq!(batch_index, 0);
            assert!(parameters.depth_test_if_less);
            assert!(!parameters.depth_write);
            assert!(parameters.cull_clockwise_backfaces);
            assert!(parameters.alpha_blend);
        },
        _ => panic!("third command must draw the transparent batch"),
    }
    assert!(matches!(fs.commands[3], DrawCommand::Finish));
}

#[test]
fn resize_rebuilds_uniforms_without_touching_batches() {
    let view1 = ExtractedView {
        pv_matrix: Mat4Fp::identity(),
        position: Vec3Fp { x: 0, y: 0, z: 0 },
    };
    let fs1 = two_entity_frame(view1);
    // The viewport is resized: the next frame sees another projection.
    let view2 = ExtractedView { pv_matrix: scale(0.5, 1.0, 1.0), position: view1.position };
    let fs2 = two_entity_frame(view2);
    assert_ne!(fs1.uniforms.pv_matrix, fs2.uniforms.pv_matrix);
    assert_eq!(fs1.uniforms.pv_matrix, view1.pv_matrix);
    assert_eq!(fs2.uniforms.pv_matrix, view2.pv_matrix);
    // The earlier frame's batches are untouched and the new frame's
    // batches are identical in content: uniforms do not feed batching.
    assert!(batch_content_equal(&fs1.opaque_batches, &fs2.opaque_batches));
    assert!(batch_content_equal(&fs1.transparent_batches, &fs2.transparent_batches));
}

#[test]
fn draw_skips_batch_with_missing_pipeline() {
    let cache = RenderPipelineCache::new();
    let batch = CorePipelineBatch {
        key: key_for(false, Phase::Opaque),
        pipeline: 1,
        vertices: Vec::new(),
        indices: Vec::new(),
    };
    let d = DrawSimpleMesh::new();
    assert!(d.draw(&cache, Phase::Opaque, &batch, 0).is_none());
    let mut cache = RenderPipelineCache::new();
    cache.install(key_for(false, Phase::Opaque), PipelineStatus::Ready(4));
    match d.draw(&cache, Phase::Opaque, &batch, 0) {
        Some(DrawCommand::Draw { phase, batch_index, parameters }) => {
            assert_eq!(phase, Phase::Opaque);
            assert_eq!(batch_index, 0);
            assert!(parameters.depth_write);
        },
        _ => panic!("a cached pipeline must yield a draw command"),
    }
}

#[test]
fn mesh_well_formedness_is_checked() {
    let good = mesh_with(4);
    assert!(good.is_well_formed());
    let bad_index = Mesh { vertices: good.vertices.clone(), indices: vec![0, 1, 9] };
    assert!(!bad_index.is_well_formed());
    let far = Mesh {
        vertices: vec![MeshVertex {
            position: Vec3Fp { x: i64::MAX, y: 0, z: 0 },
            normal: Vec3Fp { x: 0, y: fp(1.0), z: 0 },
            tex_u: 0,
            tex_v: 0,
        }],
        indices: vec![],
    };
    assert!(!far.is_well_formed());
}

#[test]
fn color_channels_are_validated() {
    assert!(Color::checked_rgba(0, 0, 0, COLOR_ONE).is_some());
    assert!(Color::checked_rgba(COLOR_ONE + 1, 0, 0, 0).is_none());
    let c = rgba(0.25, 0.5, 0.75, 1.0);
    assert_eq!(c.r(), 16384);
    assert_eq!(c.g(), 32768);
    assert_eq!(c.b(), 49152);
    assert_eq!(c.a(), COLOR_ONE);
    assert!(c.is_opaque());
}

#[test]
fn key_changes_split_batches_preserving_queue_order() {
    // Transparent items alternate textured / untextured, so consecutive
    // runs split into separate batches and the back-to-front order is
    // kept across batch boundaries.
    let mut meshes = MeshStore::new();
    meshes.add(MeshHandle(1), mesh_with(3));
    let mut cache = RenderPipelineCache::new();
    cache.install(key_for(false, Phase::Transparent), PipelineStatus::Ready(1));
    cache.install(key_for(true, Phase::Transparent), PipelineStatus::Ready(2));
    let far = entity(1, None, translate(0.0, 0.0, 9.0), rgba(1.0, 1.0, 1.0, 0.5));
    let mid = entity(1, Some(7), translate(0.0, 0.0, 6.0), rgba(1.0, 1.0, 1.0, 0.5));
    let near = entity(1, None, translate(0.0, 0.0, 3.0), rgba(1.0, 1.0, 1.0, 0.5));
    let extracted = vec![near, far, mid];
    let (_, transparents) = classify(&extracted, Vec3Fp { x: 0, y: 0, z: 0 });
    let order: Vec<usize> = transparents.items.iter().map(|it| it.entity_index).collect();
    assert_eq!(order, vec![1, 2, 0]);
    let mut textures = TextureBuffer::new(5);
    let (batches, errors) = prepare_phase(
        Phase::Transparent,
        &transparents.items,
        &extracted,
        &meshes,
        &shader(),
        &cache,
        &mut textures,
    );
    assert!(errors.is_empty());
    assert_eq!(batches.len(), 3, "each key change starts a new batch");
    assert!(!batches[0].key.textured);
    assert!(batches[1].key.textured);
    assert!(!batches[2].key.textured);
    // Colors aside, the batches' tex indices show which item went where.
    assert!(batches[0].vertices.iter().all(|v| v.tex_index == 0));
    assert!(batches[1].vertices.iter().all(|v| v.tex_index == 1));
    assert!(batches[2].vertices.iter().all(|v| v.tex_index == 0));
}
