//! Extraction: the read-only copy of live scene state into an immutable
//! per-frame snapshot.
//!
//! The scene hands over one `SimpleMeshBundle` per drawable entity.
//! Extraction keeps every visible entity, in scene order, as an
//! `ExtractedCorePipelineEntity`; invisible entities are excluded here,
//! while entities whose mesh is not loaded yet are kept and skipped later,
//! at the batching stage, so extraction does not depend on asset load
//! order. Downstream stages read only the snapshot, never the live scene.

use vstd::prelude::*;
use crate::color::{color_wf, Color};
use crate::math::{mat4_bounded, mat4_identity, Mat4Fp};

verus! {

/// A handle to mesh data owned by an asset store.
#[derive(Clone, Copy, Debug, PartialEq, Eq, Structural)]
pub struct MeshHandle(pub u64);

/// A handle to image data owned by an asset store.
#[derive(Clone, Copy, Debug, PartialEq, Eq, Structural)]
pub struct ImageHandle(pub u64);

/// Whether an entity takes part in rendering this frame.
#[derive(Clone, Copy, Debug, PartialEq, Eq, Structural)]
pub struct Visibility {
    pub active: bool,
}

impl Default for Visibility {
    /// Entities are visible unless hidden explicitly.
    fn default() -> (v: Visibility)
        ensures
            v == (Visibility { active: true }),
    {
        Visibility { active: true }
    }
}

/// Everything the scene stores about one drawable entity.
#[derive(Clone, Copy, Debug, PartialEq, Eq, Structural)]
pub struct SimpleMeshBundle {
    pub mesh: MeshHandle,
    pub transform: Mat4Fp,
    pub color: Color,
    pub image: Option<ImageHandle>,
    pub visibility: Visibility,
}

impl Default for SimpleMeshBundle {
    /// An untextured, untransformed, opaque-white, visible entity.
    fn default() -> (b: SimpleMeshBundle)
        ensures
            b == (SimpleMeshBundle {
                mesh: MeshHandle(0),
                transform: mat4_identity(),
                color: Color {
                    red: crate::color::COLOR_ONE,
                    green: crate::color::COLOR_ONE,
                    blue: crate::color::COLOR_ONE,
                    alpha: crate::color::COLOR_ONE,
                },
                image: None::<ImageHandle>,
                visibility: Visibility { active: true },
            }),
    {
        SimpleMeshBundle {
            mesh: MeshHandle(0),
            transform: Mat4Fp::identity(),
            color: Color::white(),
            image: None,
            visibility: Visibility { active: true },
        }
    }
}

/// The bounds every scene value must satisfy before entering the pipeline.
pub open spec fn bundle_wf(b: SimpleMeshBundle) -> bool {
    mat4_bounded(b.transform) && color_wf(b.color)
}

/// One snapshot entry: the render-relevant state of a visible entity,
/// immutable for the rest of the frame.
#[derive(Clone, Copy, Debug, PartialEq, Eq, Structural)]
pub struct ExtractedCorePipelineEntity {
    pub mesh: MeshHandle,
    pub image: Option<ImageHandle>,
    pub transform: Mat4Fp,
    pub color: Color,
}

/// The bounds carried over from a well-formed scene entity.
pub open spec fn extracted_wf(e: ExtractedCorePipelineEntity) -> bool {
    mat4_bounded(e.transform) && color_wf(e.color)
}

/// The snapshot entry a scene entity extracts to.
pub open spec fn extract_one_spec(b: SimpleMeshBundle) -> ExtractedCorePipelineEntity {
    ExtractedCorePipelineEntity {
        mesh: b.mesh,
        image: b.image,
        transform: b.transform,
        color: b.color,
    }
}

/// The whole snapshot: the visible entities, in scene order.
pub open spec fn extract_spec(s: Seq<SimpleMeshBundle>) -> Seq<ExtractedCorePipelineEntity>
    decreases s.len(),
{
    if s.len() == 0 {
        Seq::empty()
    } else if s.last().visibility.active {
        extract_spec(s.drop_last()).push(extract_one_spec(s.last()))
    } else {
        extract_spec(s.drop_last())
    }
}

/// Every snapshot entry of a well-formed scene is well-formed.
pub proof fn lemma_extract_spec_wf(s: Seq<SimpleMeshBundle>)
    requires
        forall|i: int| 0 <= i < s.len() ==> bundle_wf(#[trigger] s[i]),
    ensures
        forall|j: int| 0 <= j < extract_spec(s).len() ==> extracted_wf(#[trigger] extract_spec(s)[j]),
    decreases s.len(),
{
    if s.len() > 0 {
        let rest = s.drop_last();
        assert forall|i: int| 0 <= i < rest.len() implies bundle_wf(#[trigger] rest[i]) by {
            assert(rest[i] == s[i]);
        }
        lemma_extract_spec_wf(rest);
        assert(bundle_wf(s[s.len() - 1]));
        let e = extract_spec(s);
        assert forall|j: int| 0 <= j < e.len() implies extracted_wf(#[trigger] e[j]) by {
            if j < extract_spec(rest).len() {
                assert(e[j] == extract_spec(rest)[j]);
            } else {
                assert(e[j] == extract_one_spec(s.last()));
            }
        }
    }
}

/// Produces the frame snapshot: one entry per visible scene entity, in
/// scene order. Reads the scene, writes nothing back.
#[verifier::loop_isolation(false)]
pub fn extract_entities(scene: &Vec<SimpleMeshBundle>) -> (out: Vec<ExtractedCorePipelineEntity>)
    ensures
        out@ == extract_spec(scene@),
{
    let mut out: Vec<ExtractedCorePipelineEntity> = Vec::new();
    let n = scene.len();
    for i in 0..n
        invariant
            n == scene.len(),
            out@ == extract_spec(scene@.take(i as int)),
    {
        let b = scene[i];
        proof {
            assert(scene@.take(i + 1).drop_last() =~= scene@.take(i as int));
            assert(scene@.take(i + 1).last() == b);
        }
        if b.visibility.active {
            out.push(ExtractedCorePipelineEntity {
                mesh: b.mesh,
                image: b.image,
                transform: b.transform,
                color: b.color,
            });
        }
    }
    proof {
        assert(scene@.take(n as int) =~= scene@);
    }
    out
}

} // verus!
