//! Batching: turning a phase queue into GPU-ready batches.
//!
//! Items are walked in queue order; consecutive items sharing a pipeline
//! key are merged into one batch, so the queue's order (back-to-front for
//! the transparent phase) is preserved across batch boundaries. For each
//! item, every mesh vertex is transformed into world space, normals by
//! the normal matrix, and the mesh's indices are appended offset by the
//! running vertex count, so all meshes of a batch share one buffer pair.
//! The item's texture resolves to its array slot (slot 0 when untextured).
//!
//! Items are dropped without error when their pipeline key has no
//! compiled pipeline or their mesh is not loaded ("not ready this frame",
//! retried next frame); a full texture table or an index count beyond the
//! `u32` index space is a reported error that skips only that item.

use vstd::prelude::*;
use crate::asset::{mesh_lookup_spec, mesh_wf, DefaultShader, Mesh, MeshStore, MeshVertex};
use crate::color::Color;
use crate::extract::{extracted_wf, ExtractedCorePipelineEntity, ImageHandle};
use crate::math::{
    normal_matrix, normal_matrix_spec, transform_normal, transform_normal_spec, transform_point,
    transform_point_spec, Mat4Fp, Vec3Fp,
};
use crate::phase::{Phase, RenderPhaseItem};
use crate::pipeline::{lookup_spec, PipelineKey, PipelineStatus, RenderPipelineCache};
use crate::texture::{slot_result_spec, table_after_spec, TextureBuffer};

verus! {

/// One vertex of a batch buffer, in world space, carrying its color and
/// texture-array slot.
#[derive(Clone, Copy, Debug, PartialEq, Eq, Structural)]
pub struct Vertex {
    pub position: Vec3Fp,
    pub normal: Vec3Fp,
    pub color: Color,
    pub tex_u: i64,
    pub tex_v: i64,
    pub tex_index: u32,
}

/// A single drawable unit: the items of one pipeline key merged into one
/// vertex/index buffer pair. Built fresh each frame, consumed by the
/// draw pass the same frame.
pub struct CorePipelineBatch {
    pub key: PipelineKey,
    /// Handle of the compiled pipeline the batch draws with.
    pub pipeline: u32,
    pub vertices: Vec<Vertex>,
    pub indices: Vec<u32>,
}

/// The mathematical content of a batch.
#[verifier::ext_equal]
pub struct BatchModel {
    pub key: PipelineKey,
    pub pipeline: u32,
    pub vertices: Seq<Vertex>,
    pub indices: Seq<u32>,
}

impl View for CorePipelineBatch {
    type V = BatchModel;

    open spec fn view(&self) -> BatchModel {
        BatchModel {
            key: self.key,
            pipeline: self.pipeline,
            vertices: self.vertices@,
            indices: self.indices@,
        }
    }
}

/// The models of a sequence of batches.
pub open spec fn batches_view(bs: Seq<CorePipelineBatch>) -> Seq<BatchModel> {
    Seq::new(bs.len(), |i: int| bs[i]@)
}

/// Why an item was skipped with a report rather than silently.
#[derive(Clone, Copy, Debug, PartialEq, Eq, Structural)]
pub enum PrepareErrorKind {
    /// The fixed-capacity texture table has no free slot: resource
    /// exhaustion, distinct from "not ready".
    TextureSlotsFull,
    /// Appending the mesh would push the batch past the `u32` index
    /// space.
    IndexRangeExceeded,
}

/// A reported per-item batching failure; sibling items are unaffected.
#[derive(Clone, Copy, Debug, PartialEq, Eq, Structural)]
pub struct PrepareError {
    pub entity_index: usize,
    pub kind: PrepareErrorKind,
}

/// The pipeline key an item draws with: the default shader pair, whether
/// the material samples a texture, and the phase's fixed-function state.
pub open spec fn pipeline_key_spec(
    e: ExtractedCorePipelineEntity,
    phase: Phase,
    ds: DefaultShader,
) -> PipelineKey {
    PipelineKey {
        vertex_shader: ds.vertex_shader,
        fragment_shader: ds.fragment_shader,
        textured: e.image is Some,
        phase,
    }
}

/// Derives an item's pipeline key; exact with respect to
/// `pipeline_key_spec`.
pub fn pipeline_key_for(
    e: &ExtractedCorePipelineEntity,
    phase: Phase,
    ds: &DefaultShader,
) -> (k: PipelineKey)
    ensures
        k == pipeline_key_spec(*e, phase, *ds),
{
    PipelineKey {
        vertex_shader: ds.vertex_shader,
        fragment_shader: ds.fragment_shader,
        textured: e.image.is_some(),
        phase,
    }
}

/// The batch vertex a mesh vertex becomes under an item's transform,
/// color and texture slot.
pub open spec fn batch_vertex_spec(
    v: MeshVertex,
    m: Mat4Fp,
    color: Color,
    slot: u32,
) -> Vertex {
    Vertex {
        position: transform_point_spec(m, v.position),
        normal: transform_normal_spec(normal_matrix_spec(m), v.normal),
        color,
        tex_u: v.tex_u,
        tex_v: v.tex_v,
        tex_index: slot,
    }
}

/// A whole mesh's vertices, transformed for one item.
pub open spec fn mesh_vertices_spec(
    vs: Seq<MeshVertex>,
    m: Mat4Fp,
    color: Color,
    slot: u32,
) -> Seq<Vertex> {
    Seq::new(vs.len(), |i: int| batch_vertex_spec(vs[i], m, color, slot))
}

/// A mesh's indices, offset by the vertices already in the batch.
pub open spec fn offset_indices_spec(ix: Seq<u32>, off: int) -> Seq<u32> {
    Seq::new(ix.len(), |i: int| (ix[i] + off) as u32)
}

/// Appends a mesh's transformed vertices to a batch buffer.
#[verifier::loop_isolation(false)]
fn append_mesh_vertices(
    out: &mut Vec<Vertex>,
    mesh: &Mesh,
    transform: &Mat4Fp,
    color: Color,
    slot: u32,
)
    requires
        mesh_wf(*mesh),
        crate::math::mat4_bounded(*transform),
    ensures
        final(out)@ == old(out)@ + mesh_vertices_spec(mesh.vertices@, *transform, color, slot),
{
    let nmat = normal_matrix(transform);
    let n = mesh.vertices.len();
    for i in 0..n
        invariant
            out@ == old(out)@ + mesh_vertices_spec(
                mesh.vertices@.take(i as int),
                *transform,
                color,
                slot,
            ),
    {
        let v = mesh.vertices[i];
        assert(mesh_vertex_ok(*mesh, i as int)) by {
            assert(crate::asset::mesh_vertex_wf(mesh.vertices@[i as int]));
        }
        let p = transform_point(transform, v.position);
        let nn = transform_normal(&nmat, v.normal);
        out.push(Vertex {
            position: p,
            normal: nn,
            color,
            tex_u: v.tex_u,
            tex_v: v.tex_v,
            tex_index: slot,
        });
        proof {
            assert(out@ =~= old(out)@ + mesh_vertices_spec(
                mesh.vertices@.take(i + 1),
                *transform,
                color,
                slot,
            ));
        }
    }
    proof {
        assert(mesh.vertices@.take(n as int) =~= mesh.vertices@);
    }
}

/// The vertex at an index of a well-formed mesh is well-formed.
spec fn mesh_vertex_ok(mesh: Mesh, i: int) -> bool {
    0 <= i < mesh.vertices@.len() ==> crate::asset::mesh_vertex_wf(mesh.vertices@[i])
}

/// Appends a mesh's indices to a batch buffer, offset by the vertex
/// count already there.
#[verifier::loop_isolation(false)]
fn append_mesh_indices(out: &mut Vec<u32>, mesh: &Mesh, offset: u32)
    requires
        mesh_wf(*mesh),
        offset + mesh.vertices@.len() <= 0x1_0000_0000,
    ensures
        final(out)@ == old(out)@ + offset_indices_spec(mesh.indices@, offset as int),
{
    let n = mesh.indices.len();
    for i in 0..n
        invariant
            out@ == old(out)@ + offset_indices_spec(mesh.indices@.take(i as int), offset as int),
    {
        let ix = mesh.indices[i];
        assert(ix < mesh.vertices@.len());
        out.push(ix + offset);
        proof {
            assert(out@ =~= old(out)@ + offset_indices_spec(
                mesh.indices@.take(i + 1),
                offset as int,
            ));
        }
    }
    proof {
        assert(mesh.indices@.take(n as int) =~= mesh.indices@);
    }
}

/// The texture slot an item uses: the placeholder slot 0 when it has no
/// texture, else its table assignment.
pub open spec fn slot_for_item_spec(table: Seq<u64>, cap: int, image: Option<ImageHandle>) -> Option<
    int,
> {
    match image {
        None => Some(0int),
        Some(h) => slot_result_spec(table, cap, h.0),
    }
}

/// The table after an item's slot request.
pub open spec fn table_for_item_spec(table: Seq<u64>, cap: int, image: Option<ImageHandle>) -> Seq<
    u64,
> {
    match image {
        None => table,
        Some(h) => table_after_spec(table, cap, h.0),
    }
}

/// A fresh batch holding one item's mesh.
pub open spec fn new_batch_spec(
    key: PipelineKey,
    pipeline: u32,
    mesh: Mesh,
    e: ExtractedCorePipelineEntity,
    slot: u32,
) -> BatchModel {
    BatchModel {
        key,
        pipeline,
        vertices: mesh_vertices_spec(mesh.vertices@, e.transform, e.color, slot),
        indices: offset_indices_spec(mesh.indices@, 0),
    }
}

/// A batch extended by one more item's mesh: vertices are appended, and
/// the mesh's indices are appended offset by the batch's previous vertex
/// count.
pub open spec fn append_to_batch_spec(
    b: BatchModel,
    mesh: Mesh,
    e: ExtractedCorePipelineEntity,
    slot: u32,
) -> BatchModel {
    BatchModel {
        key: b.key,
        pipeline: b.pipeline,
        vertices: b.vertices + mesh_vertices_spec(mesh.vertices@, e.transform, e.color, slot),
        indices: b.indices + offset_indices_spec(mesh.indices@, b.vertices.len() as int),
    }
}

/// The batching state after some prefix of the phase queue: finished
/// batches, the still-open batch, the reported errors, and the texture
/// table.
#[verifier::ext_equal]
pub struct PrepState {
    pub done: Seq<BatchModel>,
    pub open_batch: Option<BatchModel>,
    pub errors: Seq<PrepareError>,
    pub table: Seq<u64>,
}

/// The batches a state yields once the queue is exhausted.
pub open spec fn close_spec(st: PrepState) -> Seq<BatchModel> {
    match st.open_batch {
        Some(b) => st.done.push(b),
        None => st.done,
    }
}

/// How one queue item advances the batching state.
pub open spec fn prep_step(
    st: PrepState,
    it: RenderPhaseItem,
    s: Seq<ExtractedCorePipelineEntity>,
    meshes: MeshStore,
    ds: DefaultShader,
    cache: RenderPipelineCache,
    phase: Phase,
    cap: int,
) -> PrepState {
    let e = s[it.entity_index as int];
    let key = pipeline_key_spec(e, phase, ds);
    match lookup_spec(cache.entries_view(), key) {
        Some(PipelineStatus::Ready(pid)) => match mesh_lookup_spec(meshes.entries_view(), e.mesh.0) {
            Some(mesh) => {
                let same = st.open_batch is Some && st.open_batch->Some_0.key == key;
                let base = if same {
                    st.open_batch->Some_0.vertices.len() as int
                } else {
                    0int
                };
                if base + mesh.vertices@.len() > 0xFFFF_FFFF {
                    PrepState {
                        done: st.done,
                        open_batch: st.open_batch,
                        errors: st.errors.push(
                            PrepareError {
                                entity_index: it.entity_index,
                                kind: PrepareErrorKind::IndexRangeExceeded,
                            },
                        ),
                        table: st.table,
                    }
                } else {
                    match slot_for_item_spec(st.table, cap, e.image) {
                        None => PrepState {
                            done: st.done,
                            open_batch: st.open_batch,
                            errors: st.errors.push(
                                PrepareError {
                                    entity_index: it.entity_index,
                                    kind: PrepareErrorKind::TextureSlotsFull,
                                },
                            ),
                            table: st.table,
                        },
                        Some(slot) => {
                            let t1 = table_for_item_spec(st.table, cap, e.image);
                            if same {
                                PrepState {
                                    done: st.done,
                                    open_batch: Some(
                                        append_to_batch_spec(
                                            st.open_batch->Some_0,
                                            mesh,
                                            e,
                                            slot as u32,
                                        ),
                                    ),
                                    errors: st.errors,
                                    table: t1,
                                }
                            } else {
                                PrepState {
                                    done: close_spec(st),
                                    open_batch: Some(
                                        new_batch_spec(key, pid, mesh, e, slot as u32),
                                    ),
                                    errors: st.errors,
                                    table: t1,
                                }
                            }
                        },
                    }
                }
            },
            None => st,
        },
        _ => st,
    }
}

/// The batching state after the first `n` items of the queue.
pub open spec fn prep_prefix(
    items: Seq<RenderPhaseItem>,
    s: Seq<ExtractedCorePipelineEntity>,
    meshes: MeshStore,
    ds: DefaultShader,
    cache: RenderPipelineCache,
    phase: Phase,
    cap: int,
    table0: Seq<u64>,
    n: int,
) -> PrepState
    decreases n,
{
    if n <= 0 {
        PrepState {
            done: Seq::empty(),
            open_batch: None,
            errors: Seq::empty(),
            table: table0,
        }
    } else {
        prep_step(
            prep_prefix(items, s, meshes, ds, cache, phase, cap, table0, n - 1),
            items[n - 1],
            s,
            meshes,
            ds,
            cache,
            phase,
            cap,
        )
    }
}

/// Builds the batches of one phase queue.
///
/// The result is exactly what `prep_prefix` folds the queue to: one batch
/// per run of consecutive items sharing a pipeline key, each item's mesh
/// transformed and indexed after the batch's earlier meshes, not-ready
/// items dropped silently, and one reported error per item that hit
/// texture-slot exhaustion or the index-space limit. Sibling items and
/// batches are never affected by a dropped or failed item.
#[verifier::loop_isolation(false)]
pub fn prepare_phase(
    phase: Phase,
    items: &Vec<RenderPhaseItem>,
    extracted: &Vec<ExtractedCorePipelineEntity>,
    meshes: &MeshStore,
    default_shader: &DefaultShader,
    cache: &RenderPipelineCache,
    textures: &mut TextureBuffer,
) -> (r: (Vec<CorePipelineBatch>, Vec<PrepareError>))
    requires
        forall|i: int|
            0 <= i < items@.len() ==> (#[trigger] items@[i]).entity_index < extracted@.len(),
        forall|i: int| 0 <= i < extracted@.len() ==> extracted_wf(#[trigger] extracted@[i]),
        meshes.wf(),
        old(textures).wf(),
    ensures
        final(textures).wf(),
        final(textures).cap() == old(textures).cap(),
        ({
            let st = prep_prefix(
                items@,
                extracted@,
                *meshes,
                *default_shader,
                *cache,
                phase,
                old(textures).cap(),
                old(textures).table(),
                items@.len() as int,
            );
            &&& batches_view(r.0@) == close_spec(st)
            &&& r.1@ == st.errors
            &&& final(textures).table() == st.table
        }),
{
    let mut batches: Vec<CorePipelineBatch> = Vec::new();
    let mut errors: Vec<PrepareError> = Vec::new();
    let mut open = false;
    let mut cur_key = PipelineKey {
        vertex_shader: default_shader.vertex_shader,
        fragment_shader: default_shader.fragment_shader,
        textured: false,
        phase,
    };
    let mut cur_pipeline: u32 = 0;
    let mut cur_vertices: Vec<Vertex> = Vec::new();
    let mut cur_indices: Vec<u32> = Vec::new();
    let n = items.len();
    for i in 0..n
        invariant
            textures.wf(),
            textures.cap() == old(textures).cap(),
            ({
                let st = prep_prefix(
                    items@,
                    extracted@,
                    *meshes,
                    *default_shader,
                    *cache,
                    phase,
                    old(textures).cap(),
                    old(textures).table(),
                    i as int,
                );
                &&& batches_view(batches@) == st.done
                &&& errors@ == st.errors
                &&& textures.table() == st.table
                &&& (open <==> st.open_batch is Some)
                &&& (open ==> st.open_batch == Some(
                    BatchModel {
                        key: cur_key,
                        pipeline: cur_pipeline,
                        vertices: cur_vertices@,
                        indices: cur_indices@,
                    },
                ))
                &&& (open ==> cur_vertices@.len() <= 0xFFFF_FFFF)
            }),
    {
        let ghost st_pre = prep_prefix(
            items@,
            extracted@,
            *meshes,
            *default_shader,
            *cache,
            phase,
            old(textures).cap(),
            old(textures).table(),
            i as int,
        );
        let ghost st_post = prep_prefix(
            items@,
            extracted@,
            *meshes,
            *default_shader,
            *cache,
            phase,
            old(textures).cap(),
            old(textures).table(),
            i + 1,
        );
        proof {
            assert(st_post == prep_step(
                st_pre,
                items@[i as int],
                extracted@,
                *meshes,
                *default_shader,
                *cache,
                phase,
                old(textures).cap(),
            ));
        }
        let it = items[i];
        let e = extracted[it.entity_index];
        let key = pipeline_key_for(&e, phase, default_shader);
        match cache.lookup(key) {
            Some(PipelineStatus::Ready(pid)) => {
                match meshes.get(e.mesh) {
                    Some(mesh) => {
                        proof {
                            crate::asset::lemma_mesh_lookup_some(meshes.entries_view(), e.mesh.0);
                            assert(mesh_wf(*mesh));
                            assert(extracted_wf(extracted@[it.entity_index as int]));
                        }
                        let same = open && cur_key == key;
                        let base: u64 = if same {
                            cur_vertices.len() as u64
                        } else {
                            0
                        };
                        if base + mesh.vertices.len() as u64 > 0xFFFF_FFFF {
                            errors.push(
                                PrepareError {
                                    entity_index: it.entity_index,
                                    kind: PrepareErrorKind::IndexRangeExceeded,
                                },
                            );
                            proof {
                                assert(errors@ =~= st_post.errors);
                            }
                        } else {
                            let slot_found: bool;
                            let mut slot: u32 = 0;
                            match e.image {
                                None => {
                                    slot_found = true;
                                },
                                Some(h) => {
                                    match textures.slot_for_texture(h) {
                                        Ok(s) => {
                                            slot_found = true;
                                            slot = s;
                                        },
                                        Err(_full) => {
                                            slot_found = false;
                                        },
                                    }
                                },
                            }
                            if !slot_found {
                                errors.push(
                                    PrepareError {
                                        entity_index: it.entity_index,
                                        kind: PrepareErrorKind::TextureSlotsFull,
                                    },
                                );
                                proof {
                                    assert(errors@ =~= st_post.errors);
                                }
                            } else {
                                proof {
                                    assert(slot_for_item_spec(
                                        st_pre.table,
                                        old(textures).cap(),
                                        e.image,
                                    ) == Some(slot as int));
                                    assert(textures.table() == table_for_item_spec(
                                        st_pre.table,
                                        old(textures).cap(),
                                        e.image,
                                    ));
                                }
                                if same {
                                    let off = cur_vertices.len() as u32;
                                    append_mesh_indices(&mut cur_indices, mesh, off);
                                    append_mesh_vertices(
                                        &mut cur_vertices,
                                        mesh,
                                        &e.transform,
                                        e.color,
                                        slot,
                                    );
                                    proof {
                                        assert(st_post.open_batch == Some(
                                            BatchModel {
                                                key: cur_key,
                                                pipeline: cur_pipeline,
                                                vertices: cur_vertices@,
                                                indices: cur_indices@,
                                            },
                                        ));
                                    }
                                } else {
                                    if open {
                                        let finished = CorePipelineBatch {
                                            key: cur_key,
                                            pipeline: cur_pipeline,
                                            vertices: cur_vertices,
                                            indices: cur_indices,
                                        };
                                        proof {
                                            assert(batches_view(batches@.push(finished))
                                                =~= batches_view(batches@).push(finished@));
                                        }
                                        batches.push(finished);
                                        cur_vertices = Vec::new();
                                        cur_indices = Vec::new();
                                    } else {
                                        cur_vertices = Vec::new();
                                        cur_indices = Vec::new();
                                    }
                                    proof {
                                        assert(batches_view(batches@) == close_spec(st_pre));
                                    }
                                    cur_key = key;
                                    cur_pipeline = pid;
                                    append_mesh_indices(&mut cur_indices, mesh, 0);
                                    append_mesh_vertices(
                                        &mut cur_vertices,
                                        mesh,
                                        &e.transform,
                                        e.color,
                                        slot,
                                    );
                                    open = true;
                                    proof {
                                        assert(cur_vertices@ =~= mesh_vertices_spec(
                                            mesh.vertices@,
                                            e.transform,
                                            e.color,
                                            slot,
                                        ));
                                        assert(cur_indices@ =~= offset_indices_spec(
                                            mesh.indices@,
                                            0,
                                        ));
                                        assert(st_post.open_batch == Some(
                                            BatchModel {
                                                key: cur_key,
                                                pipeline: cur_pipeline,
                                                vertices: cur_vertices@,
                                                indices: cur_indices@,
                                            },
                                        ));
                                    }
                                }
                            }
                        }
                    },
                    None => {
                        proof {
                            assert(st_post == st_pre);
                        }
                    },
                }
            },
            _ => {
                proof {
                    assert(st_post == st_pre);
                }
            },
        }
    }
    if open {
        let finished = CorePipelineBatch {
            key: cur_key,
            pipeline: cur_pipeline,
            vertices: cur_vertices,
            indices: cur_indices,
        };
        proof {
            assert(batches_view(batches@.push(finished)) =~= batches_view(batches@).push(
                finished@,
            ));
        }
        batches.push(finished);
    }
    (batches, errors)
}

/// A batch is resolved: its key is this phase's key under the frame's
/// shader pair, and the cache holds exactly the compiled pipeline the
/// batch draws with.
pub open spec fn batch_resolved(
    b: BatchModel,
    cache: RenderPipelineCache,
    ds: DefaultShader,
    phase: Phase,
) -> bool {
    &&& b.key.phase == phase
    &&& b.key.vertex_shader == ds.vertex_shader
    &&& b.key.fragment_shader == ds.fragment_shader
    &&& lookup_spec(cache.entries_view(), b.key) == Some(PipelineStatus::Ready(b.pipeline))
}

/// Every batch of a batching state, finished or open, is resolved.
pub open spec fn state_resolved(
    st: PrepState,
    cache: RenderPipelineCache,
    ds: DefaultShader,
    phase: Phase,
) -> bool {
    &&& forall|i: int|
        0 <= i < st.done.len() ==> batch_resolved(#[trigger] st.done[i], cache, ds, phase)
    &&& st.open_batch is Some ==> batch_resolved(st.open_batch->Some_0, cache, ds, phase)
}

/// One batching step keeps every batch resolved: a batch is only ever
/// opened for a key the cache maps to a ready pipeline, and appending
/// never changes a batch's key or pipeline.
proof fn lemma_step_resolved(
    st: PrepState,
    it: RenderPhaseItem,
    s: Seq<ExtractedCorePipelineEntity>,
    meshes: MeshStore,
    ds: DefaultShader,
    cache: RenderPipelineCache,
    phase: Phase,
    cap: int,
)
    requires
        state_resolved(st, cache, ds, phase),
    ensures
        state_resolved(prep_step(st, it, s, meshes, ds, cache, phase, cap), cache, ds, phase),
{
    let post = prep_step(st, it, s, meshes, ds, cache, phase, cap);
    if post.done != st.done {
        assert forall|i: int| 0 <= i < post.done.len() implies batch_resolved(
            #[trigger] post.done[i],
            cache,
            ds,
            phase,
        ) by {
            if i < st.done.len() {
                assert(post.done[i] == st.done[i]);
            } else {
                assert(post.done[i] == st.open_batch->Some_0);
            }
        }
    }
}

/// After any queue prefix, every batch the batching state holds is
/// resolved against the cache it was built from: the draw pass never
/// meets a batch whose pipeline is missing.
pub proof fn lemma_prepared_batches_resolved(
    items: Seq<RenderPhaseItem>,
    s: Seq<ExtractedCorePipelineEntity>,
    meshes: MeshStore,
    ds: DefaultShader,
    cache: RenderPipelineCache,
    phase: Phase,
    cap: int,
    table0: Seq<u64>,
    n: int,
)
    ensures
        ({
            let out = close_spec(prep_prefix(items, s, meshes, ds, cache, phase, cap, table0, n));
            forall|i: int|
                0 <= i < out.len() ==> batch_resolved(#[trigger] out[i], cache, ds, phase)
        }),
{
    lemma_prefix_resolved(items, s, meshes, ds, cache, phase, cap, table0, n);
    let st = prep_prefix(items, s, meshes, ds, cache, phase, cap, table0, n);
    let out = close_spec(st);
    assert forall|i: int| 0 <= i < out.len() implies batch_resolved(
        #[trigger] out[i],
        cache,
        ds,
        phase,
    ) by {
        if i < st.done.len() {
            assert(out[i] == st.done[i]);
        } else {
            assert(out[i] == st.open_batch->Some_0);
        }
    }
}

/// The batching state after any queue prefix is resolved.
proof fn lemma_prefix_resolved(
    items: Seq<RenderPhaseItem>,
    s: Seq<ExtractedCorePipelineEntity>,
    meshes: MeshStore,
    ds: DefaultShader,
    cache: RenderPipelineCache,
    phase: Phase,
    cap: int,
    table0: Seq<u64>,
    n: int,
)
    ensures
        state_resolved(
            prep_prefix(items, s, meshes, ds, cache, phase, cap, table0, n),
            cache,
            ds,
            phase,
        ),
    decreases n,
{
    if n > 0 {
        lemma_prefix_resolved(items, s, meshes, ds, cache, phase, cap, table0, n - 1);
        lemma_step_resolved(
            prep_prefix(items, s, meshes, ds, cache, phase, cap, table0, n - 1),
            items[n - 1],
            s,
            meshes,
            ds,
            cache,
            phase,
            cap,
        );
    }
}

/// Batching is deterministic, hence idempotent per fixed input: a phase
/// queue, snapshot, mesh store, shader pair, pipeline cache and texture
/// capacity determine the batches, buffers and errors outright, each
/// frame starting from the fresh (empty) per-frame texture table.
/// `prepare_phase` ensures its results equal this function of its
/// inputs, so batching the same snapshot twice builds identical
/// vertex and index buffers.
pub proof fn lemma_batching_idempotent(
    items: Seq<RenderPhaseItem>,
    s: Seq<ExtractedCorePipelineEntity>,
    meshes: MeshStore,
    ds: DefaultShader,
    cache: RenderPipelineCache,
    phase: Phase,
    cap: int,
    n: int,
)
    ensures
        close_spec(prep_prefix(items, s, meshes, ds, cache, phase, cap, Seq::empty(), n))
            == close_spec(prep_prefix(items, s, meshes, ds, cache, phase, cap, Seq::empty(), n)),
{
}

/// Index buffer offsetting: when a second mesh joins a batch, its
/// indices are appended offset by exactly the batch's previous vertex
/// count, after the first mesh's unshifted indices. For two meshes
/// batched together, the second mesh's indices are all shifted by the
/// first mesh's vertex count.
pub proof fn lemma_index_buffer_offsetting(
    key: PipelineKey,
    pipeline: u32,
    m1: Mesh,
    m2: Mesh,
    e1: ExtractedCorePipelineEntity,
    e2: ExtractedCorePipelineEntity,
    s1: u32,
    s2: u32,
)
    ensures
        ({
            let b = append_to_batch_spec(new_batch_spec(key, pipeline, m1, e1, s1), m2, e2, s2);
            &&& b.vertices.len() == m1.vertices@.len() + m2.vertices@.len()
            &&& b.indices.len() == m1.indices@.len() + m2.indices@.len()
            &&& forall|j: int|
                0 <= j < m1.indices@.len() ==> b.indices[j] == (m1.indices@[j] + 0) as u32
            &&& forall|j: int|
                0 <= j < m2.indices@.len() ==> b.indices[m1.indices@.len() + j] == (m2.indices@[j]
                    + m1.vertices@.len()) as u32
        }),
{
    let b1 = new_batch_spec(key, pipeline, m1, e1, s1);
    let b = append_to_batch_spec(b1, m2, e2, s2);
    assert forall|j: int| 0 <= j < m2.indices@.len() implies b.indices[m1.indices@.len() + j]
        == (m2.indices@[j] + m1.vertices@.len()) as u32 by {
        assert(b.indices[b1.indices.len() + j] == offset_indices_spec(
            m2.indices@,
            b1.vertices.len() as int,
        )[j]);
    }
}

/// A queue item whose mesh asset is not loaded is dropped whole: the
/// batching state is untouched, so it emits no buffers and raises no
/// error, and sibling items are unaffected.
pub proof fn lemma_missing_mesh_drops_item(
    st: PrepState,
    it: RenderPhaseItem,
    s: Seq<ExtractedCorePipelineEntity>,
    meshes: MeshStore,
    ds: DefaultShader,
    cache: RenderPipelineCache,
    phase: Phase,
    cap: int,
)
    requires
        mesh_lookup_spec(meshes.entries_view(), s[it.entity_index as int].mesh.0) is None,
    ensures
        prep_step(st, it, s, meshes, ds, cache, phase, cap) == st,
{
}

} // verus!
