//! Mesh assets and their store.
//!
//! Meshes arrive already decoded: a vertex list and a triangle-list index
//! buffer. The store owns the data; entities refer to it by handle, and
//! absence of a handle is not an error but "not loaded yet" — the
//! batching stage skips such items and retries next frame, because
//! extraction re-reads the live scene.

use vstd::prelude::*;
use crate::extract::MeshHandle;
use crate::fp::{fp_within, FP_COORD_LIMIT};
use crate::math::{vec3_within, Vec3Fp};

verus! {

/// One mesh vertex in model space; texture coordinates are fixed-point
/// like everything else.
#[derive(Clone, Copy, Debug, PartialEq, Eq, Structural)]
pub struct MeshVertex {
    pub position: Vec3Fp,
    pub normal: Vec3Fp,
    pub tex_u: i64,
    pub tex_v: i64,
}

/// Decoded mesh data: vertices and a triangle-list index buffer.
#[derive(Clone, Debug)]
pub struct Mesh {
    pub vertices: Vec<MeshVertex>,
    pub indices: Vec<u32>,
}

/// All vertex scalars lie within the coordinate bound.
pub open spec fn mesh_vertex_wf(v: MeshVertex) -> bool {
    &&& vec3_within(v.position, FP_COORD_LIMIT as int)
    &&& vec3_within(v.normal, FP_COORD_LIMIT as int)
    &&& fp_within(v.tex_u as int, FP_COORD_LIMIT as int)
    &&& fp_within(v.tex_v as int, FP_COORD_LIMIT as int)
}

/// Every index points at a vertex, the vertex count fits the `u32` index
/// space, and every vertex is coordinate-bounded.
pub open spec fn mesh_wf(m: Mesh) -> bool {
    &&& m.vertices@.len() <= 0xFFFF_FFFF
    &&& forall|i: int|
        0 <= i < m.indices@.len() ==> (#[trigger] m.indices@[i]) < m.vertices@.len()
    &&& forall|i: int| 0 <= i < m.vertices@.len() ==> mesh_vertex_wf(#[trigger] m.vertices@[i])
}

impl Mesh {
    /// Checks well-formedness at the boundary, before the mesh enters
    /// the store.
    #[verifier::loop_isolation(false)]
    pub fn is_well_formed(&self) -> (r: bool)
        ensures
            r == mesh_wf(*self),
    {
        let vn = self.vertices.len();
        if vn > 0xFFFF_FFFF {
            return false;
        }
        let n = self.indices.len();
        for i in 0..n
            invariant
                forall|j: int| 0 <= j < i ==> (#[trigger] self.indices@[j]) < vn,
        {
            if self.indices[i] as usize >= vn {
                return false;
            }
        }
        for i in 0..vn
            invariant
                forall|j: int| 0 <= j < i ==> mesh_vertex_wf(#[trigger] self.vertices@[j]),
        {
            let v = self.vertices[i];
            if !(-FP_COORD_LIMIT <= v.position.x && v.position.x <= FP_COORD_LIMIT
                && -FP_COORD_LIMIT <= v.position.y && v.position.y <= FP_COORD_LIMIT
                && -FP_COORD_LIMIT <= v.position.z && v.position.z <= FP_COORD_LIMIT
                && -FP_COORD_LIMIT <= v.normal.x && v.normal.x <= FP_COORD_LIMIT
                && -FP_COORD_LIMIT <= v.normal.y && v.normal.y <= FP_COORD_LIMIT
                && -FP_COORD_LIMIT <= v.normal.z && v.normal.z <= FP_COORD_LIMIT
                && -FP_COORD_LIMIT <= v.tex_u && v.tex_u <= FP_COORD_LIMIT
                && -FP_COORD_LIMIT <= v.tex_v && v.tex_v <= FP_COORD_LIMIT) {
                return false;
            }
        }
        true
    }
}

/// One stored asset.
pub struct MeshStoreEntry {
    pub handle: u64,
    pub mesh: Mesh,
}

/// The mesh data `handle` resolves to: the first entry holding it, or
/// `None` while the asset is not loaded.
pub open spec fn mesh_lookup_spec(entries: Seq<MeshStoreEntry>, handle: u64) -> Option<Mesh>
    decreases entries.len(),
{
    if entries.len() == 0 {
        None
    } else if entries[0].handle == handle {
        Some(entries[0].mesh)
    } else {
        mesh_lookup_spec(entries.subrange(1, entries.len() as int), handle)
    }
}

/// Lookup at a witness index: when the first `i` entries miss and entry
/// `i` holds the handle, the resolved mesh is entry `i`'s.
proof fn lemma_mesh_lookup_found(entries: Seq<MeshStoreEntry>, handle: u64, i: int)
    requires
        0 <= i < entries.len(),
        entries[i].handle == handle,
        forall|j: int| 0 <= j < i ==> (#[trigger] entries[j]).handle != handle,
    ensures
        mesh_lookup_spec(entries, handle) == Some(entries[i].mesh),
    decreases i,
{
    if i > 0 {
        let sub = entries.subrange(1, entries.len() as int);
        assert(sub[i - 1] == entries[i]);
        assert forall|j: int| 0 <= j < i - 1 implies (#[trigger] sub[j]).handle != handle by {
            assert(sub[j] == entries[j + 1]);
        }
        lemma_mesh_lookup_found(sub, handle, i - 1);
    }
}

/// A miss everywhere means the lookup misses.
proof fn lemma_mesh_lookup_missing(entries: Seq<MeshStoreEntry>, handle: u64)
    requires
        forall|j: int| 0 <= j < entries.len() ==> (#[trigger] entries[j]).handle != handle,
    ensures
        mesh_lookup_spec(entries, handle) is None,
    decreases entries.len(),
{
    if entries.len() > 0 {
        let sub = entries.subrange(1, entries.len() as int);
        assert forall|j: int| 0 <= j < sub.len() implies (#[trigger] sub[j]).handle != handle by {
            assert(sub[j] == entries[j + 1]);
        }
        lemma_mesh_lookup_missing(sub, handle);
    }
}

/// The asset store for meshes.
pub struct MeshStore {
    entries: Vec<MeshStoreEntry>,
}

impl MeshStore {
    /// The stored assets, in load order.
    pub closed spec fn entries_view(&self) -> Seq<MeshStoreEntry> {
        self.entries@
    }

    /// Handles are unique and every stored mesh is well-formed.
    pub open spec fn wf(&self) -> bool {
        &&& forall|i: int, j: int|
            0 <= i < j < self.entries_view().len() ==> (#[trigger] self.entries_view()[i]).handle
                != (#[trigger] self.entries_view()[j]).handle
        &&& forall|i: int|
            0 <= i < self.entries_view().len() ==> mesh_wf(
                (#[trigger] self.entries_view()[i]).mesh,
            )
    }

    /// An empty store.
    pub fn new() -> (store: MeshStore)
        ensures
            store.entries_view() == Seq::<MeshStoreEntry>::empty(),
            store.wf(),
    {
        let entries: Vec<MeshStoreEntry> = Vec::new();
        proof {
            assert(entries@ =~= Seq::<MeshStoreEntry>::empty());
        }
        MeshStore { entries }
    }

    /// Loads a mesh under a fresh handle.
    pub fn add(&mut self, handle: MeshHandle, mesh: Mesh)
        requires
            old(self).wf(),
            mesh_wf(mesh),
            mesh_lookup_spec(old(self).entries_view(), handle.0) is None,
        ensures
            final(self).wf(),
            final(self).entries_view() == old(self).entries_view().push(
                MeshStoreEntry { handle: handle.0, mesh },
            ),
            mesh_lookup_spec(final(self).entries_view(), handle.0) == Some(mesh),
    {
        proof {
            lemma_mesh_lookup_not_contained(old(self).entries_view(), handle.0);
        }
        self.entries.push(MeshStoreEntry { handle: handle.0, mesh });
        proof {
            let v = self.entries_view();
            let o = old(self).entries_view();
            assert forall|i: int, j: int|
                0 <= i < j < v.len() implies (#[trigger] v[i]).handle
                != (#[trigger] v[j]).handle by {
                if j == v.len() - 1 {
                    assert(v[i] == o[i]);
                }
            }
            assert forall|i: int| 0 <= i < v.len() implies mesh_wf((#[trigger] v[i]).mesh) by {
                if i < v.len() - 1 {
                    assert(v[i] == o[i]);
                }
            }
            let i = v.len() - 1;
            assert(v[i].handle == handle.0);
            assert forall|j: int| 0 <= j < i implies (#[trigger] v[j]).handle != handle.0 by {
                assert(v[j] == o[j]);
            }
            lemma_mesh_lookup_found(v, handle.0, i);
        }
    }

    /// Resolves a handle: the mesh data, or `None` while not loaded.
    #[verifier::loop_isolation(false)]
    pub fn get(&self, handle: MeshHandle) -> (r: Option<&Mesh>)
        ensures
            match r {
                Some(m) => mesh_lookup_spec(self.entries_view(), handle.0) == Some(*m),
                None => mesh_lookup_spec(self.entries_view(), handle.0) is None,
            },
    {
        let n = self.entries.len();
        for i in 0..n
            invariant
                forall|j: int| 0 <= j < i ==> (#[trigger] self.entries@[j]).handle != handle.0,
        {
            if self.entries[i].handle == handle.0 {
                proof {
                    lemma_mesh_lookup_found(self.entries_view(), handle.0, i as int);
                }
                return Some(&self.entries[i].mesh);
            }
        }
        proof {
            lemma_mesh_lookup_missing(self.entries_view(), handle.0);
        }
        None
    }
}

/// A successful lookup returns a stored entry's mesh.
pub proof fn lemma_mesh_lookup_some(entries: Seq<MeshStoreEntry>, handle: u64)
    ensures
        mesh_lookup_spec(entries, handle) is Some ==> exists|j: int|
            0 <= j < entries.len() && (#[trigger] entries[j]).handle == handle && entries[j].mesh
                == mesh_lookup_spec(entries, handle)->Some_0,
    decreases entries.len(),
{
    if entries.len() > 0 && entries[0].handle != handle {
        let sub = entries.subrange(1, entries.len() as int);
        lemma_mesh_lookup_some(sub, handle);
        if mesh_lookup_spec(entries, handle) is Some {
            let j = choose|j: int|
                0 <= j < sub.len() && (#[trigger] sub[j]).handle == handle && sub[j].mesh
                    == mesh_lookup_spec(sub, handle)->Some_0;
            assert(entries[j + 1] == sub[j]);
        }
    }
}

/// An absent handle occurs in no entry.
proof fn lemma_mesh_lookup_not_contained(entries: Seq<MeshStoreEntry>, handle: u64)
    requires
        mesh_lookup_spec(entries, handle) is None,
    ensures
        forall|j: int| 0 <= j < entries.len() ==> (#[trigger] entries[j]).handle != handle,
    decreases entries.len(),
{
    if entries.len() > 0 {
        let sub = entries.subrange(1, entries.len() as int);
        lemma_mesh_lookup_not_contained(sub, handle);
        assert forall|j: int| 0 <= j < entries.len() implies (#[trigger] entries[j]).handle
            != handle by {
            if j > 0 {
                assert(entries[j] == sub[j - 1]);
            }
        }
    }
}

/// The shader pair every core-pipeline material uses; the ids feed the
/// pipeline key.
#[derive(Clone, Copy, Debug, PartialEq, Eq, Structural)]
pub struct DefaultShader {
    pub vertex_shader: u64,
    pub fragment_shader: u64,
}

} // verus!
