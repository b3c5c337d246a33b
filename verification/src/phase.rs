//! Phase classification and the per-frame phase queues.
//!
//! Every snapshot item lands in exactly one phase: Transparent when its
//! alpha channel is strictly below 1.0, Opaque when it is exactly 1.0.
//! Opaque items keep snapshot order (depth testing makes their order
//! irrelevant); Transparent items are sorted back-to-front by squared
//! camera distance, measured from the transform's translation, because
//! alpha blending is only correct when farther geometry is drawn first.
//! Both queues are rebuilt from scratch every frame.

use vstd::prelude::*;
use vstd::seq_lib::lemma_multiset_commutative;
use crate::color::is_opaque_spec;
use crate::extract::{extracted_wf, ExtractedCorePipelineEntity};
use crate::fp::FP_COORD_LIMIT;
use crate::math::{distance_sq, distance_sq_spec, vec3_within, Vec3Fp};

verus! {

/// The ordered buckets of draw items sharing blending/depth semantics.
#[derive(Clone, Copy, Debug, PartialEq, Eq, Structural)]
pub enum Phase {
    Opaque,
    Transparent,
}

/// One queued draw item: which snapshot entry it is, and its sort key.
#[derive(Clone, Copy, Debug, PartialEq, Eq, Structural)]
pub struct RenderPhaseItem {
    /// Index into the frame's extracted snapshot.
    pub entity_index: usize,
    /// Squared camera distance in raw fixed-point units, the sort key.
    pub distance_sq: u64,
}

/// A phase queue for one frame.
pub struct RenderPhase {
    pub phase: Phase,
    pub items: Vec<RenderPhaseItem>,
}

/// The world position classification measures distance to: the
/// translation column of the item's transform.
pub open spec fn entity_position_spec(e: ExtractedCorePipelineEntity) -> Vec3Fp {
    Vec3Fp { x: e.transform.c3.x, y: e.transform.c3.y, z: e.transform.c3.z }
}

/// The queue entry for snapshot index `i` holding entity `e`.
pub open spec fn item_for_spec(e: ExtractedCorePipelineEntity, i: int, cam: Vec3Fp) -> RenderPhaseItem {
    RenderPhaseItem {
        entity_index: i as usize,
        distance_sq: distance_sq_spec(entity_position_spec(e), cam) as u64,
    }
}

/// The items of one phase, in snapshot order: every snapshot index whose
/// opacity matches `want_opaque`.
pub open spec fn phase_items_spec(
    s: Seq<ExtractedCorePipelineEntity>,
    cam: Vec3Fp,
    want_opaque: bool,
) -> Seq<RenderPhaseItem>
    decreases s.len(),
{
    if s.len() == 0 {
        Seq::empty()
    } else if is_opaque_spec(s.last().color) == want_opaque {
        phase_items_spec(s.drop_last(), cam, want_opaque).push(
            item_for_spec(s.last(), s.len() - 1, cam),
        )
    } else {
        phase_items_spec(s.drop_last(), cam, want_opaque)
    }
}

/// Back-to-front order: sort keys never increase along the queue.
pub open spec fn sorted_back_to_front(items: Seq<RenderPhaseItem>) -> bool {
    forall|i: int, j: int|
        0 <= i <= j < items.len() ==> items[i].distance_sq >= items[j].distance_sq
}

/// Inserting into a sequence inserts into its multiset.
proof fn lemma_to_multiset_insert(s: Seq<RenderPhaseItem>, i: int, a: RenderPhaseItem)
    requires
        0 <= i <= s.len(),
    ensures
        s.insert(i, a).to_multiset() =~= s.to_multiset().insert(a),
{
    let left = s.subrange(0, i);
    let right = s.subrange(i, s.len() as int);
    assert(s =~= left + right);
    lemma_multiset_commutative(left, right);
    lemma_multiset_commutative(left.push(a), right);
    left.to_multiset_ensures();
}

/// Inserts an item into a back-to-front queue, keeping it sorted; the
/// queue gains exactly that item.
#[verifier::loop_isolation(false)]
fn insert_by_depth(queue: &mut Vec<RenderPhaseItem>, item: RenderPhaseItem)
    requires
        sorted_back_to_front(old(queue)@),
    ensures
        sorted_back_to_front(final(queue)@),
        final(queue)@.to_multiset() == old(queue)@.to_multiset().insert(item),
        final(queue)@.len() == old(queue)@.len() + 1,
{
    let n = queue.len();
    let mut pos: usize = 0;
    while pos < n && queue[pos].distance_sq >= item.distance_sq
        invariant
            pos <= n,
            forall|j: int| 0 <= j < pos ==> queue@[j].distance_sq >= item.distance_sq,
        decreases n - pos,
    {
        pos = pos + 1;
    }
    proof {
        old(queue)@.insert_ensures(pos as int, item);
        lemma_to_multiset_insert(old(queue)@, pos as int, item);
    }
    queue.insert(pos, item);
    proof {
        let q = queue@;
        let o = old(queue)@;
        assert forall|i: int, j: int|
            0 <= i <= j < q.len() implies q[i].distance_sq >= q[j].distance_sq by {
            if i < pos && j < pos {
                assert(q[i] == o[i] && q[j] == o[j]);
            } else if i < pos && j == pos {
                assert(q[i] == o[i]);
            } else if i < pos && j > pos {
                assert(q[i] == o[i] && q[j] == o[j - 1]);
                if pos < o.len() {
                    assert(o[pos as int].distance_sq < item.distance_sq);
                }
            } else if i == pos && j > pos {
                assert(q[j] == o[j - 1]);
                if pos < o.len() {
                    assert(o[pos as int].distance_sq < item.distance_sq);
                    assert(o[pos as int].distance_sq >= o[j - 1].distance_sq);
                }
            } else if i > pos && j > pos {
                assert(q[i] == o[i - 1] && q[j] == o[j - 1]);
            } else if i == pos && j == pos {
            }
        }
    }
}

/// Splits the snapshot into the two phase queues.
///
/// The opaque queue lists, in snapshot order, exactly the items whose
/// alpha is exactly 1.0; the transparent queue holds exactly the others,
/// sorted back-to-front by camera distance.
#[verifier::loop_isolation(false)]
pub fn classify(
    extracted: &Vec<ExtractedCorePipelineEntity>,
    camera_position: Vec3Fp,
) -> (queues: (RenderPhase, RenderPhase))
    requires
        forall|i: int| 0 <= i < extracted@.len() ==> extracted_wf(#[trigger] extracted@[i]),
        vec3_within(camera_position, FP_COORD_LIMIT as int),
    ensures
        queues.0.phase == Phase::Opaque,
        queues.1.phase == Phase::Transparent,
        queues.0.items@ == phase_items_spec(extracted@, camera_position, true),
        queues.1.items@.to_multiset() == phase_items_spec(
            extracted@,
            camera_position,
            false,
        ).to_multiset(),
        queues.1.items@.len() == phase_items_spec(extracted@, camera_position, false).len(),
        forall|x: RenderPhaseItem|
            queues.1.items@.contains(x) <==> phase_items_spec(
                extracted@,
                camera_position,
                false,
            ).contains(x),
        sorted_back_to_front(queues.1.items@),
{
    let mut opaque_items: Vec<RenderPhaseItem> = Vec::new();
    let mut transparent_items: Vec<RenderPhaseItem> = Vec::new();
    let n = extracted.len();
    for i in 0..n
        invariant
            opaque_items@ == phase_items_spec(extracted@.take(i as int), camera_position, true),
            transparent_items@.to_multiset() == phase_items_spec(
                extracted@.take(i as int),
                camera_position,
                false,
            ).to_multiset(),
            transparent_items@.len() == phase_items_spec(
                extracted@.take(i as int),
                camera_position,
                false,
            ).len(),
            sorted_back_to_front(transparent_items@),
    {
        let e = extracted[i];
        let position = e.transform.translation();
        let d = distance_sq(position, camera_position);
        let item = RenderPhaseItem { entity_index: i, distance_sq: d };
        proof {
            assert(extracted@.take(i + 1).drop_last() =~= extracted@.take(i as int));
            assert(extracted@.take(i + 1).last() == e);
            assert(item == item_for_spec(e, i as int, camera_position));
            phase_items_spec(
                extracted@.take(i as int),
                camera_position,
                false,
            ).to_multiset_ensures();
        }
        if e.color.is_opaque() {
            opaque_items.push(item);
        } else {
            insert_by_depth(&mut transparent_items, item);
        }
    }
    proof {
        assert(extracted@.take(n as int) =~= extracted@);
        transparent_items@.to_multiset_ensures();
        phase_items_spec(extracted@, camera_position, false).to_multiset_ensures();
        assert forall|x: RenderPhaseItem|
            transparent_items@.contains(x) <==> phase_items_spec(
                extracted@,
                camera_position,
                false,
            ).contains(x) by {
            assert(transparent_items@.to_multiset().count(x) == phase_items_spec(
                extracted@,
                camera_position,
                false,
            ).to_multiset().count(x));
        }
    }
    (
        RenderPhase { phase: Phase::Opaque, items: opaque_items },
        RenderPhase { phase: Phase::Transparent, items: transparent_items },
    )
}

/// Classification partitions the snapshot: every item with alpha exactly
/// 1.0 is listed in the opaque phase, every item with alpha below 1.0 in
/// the transparent phase, and each phase lists only, and exactly once,
/// the matching snapshot indices with their camera-distance sort keys.
pub proof fn lemma_classification_partitions(
    s: Seq<ExtractedCorePipelineEntity>,
    cam: Vec3Fp,
    want_opaque: bool,
)
    requires
        s.len() <= usize::MAX,
    ensures
        forall|j: int|
            0 <= j < phase_items_spec(s, cam, want_opaque).len() ==> {
                let it = #[trigger] phase_items_spec(s, cam, want_opaque)[j];
                &&& it.entity_index < s.len()
                &&& is_opaque_spec(s[it.entity_index as int].color) == want_opaque
                &&& it == item_for_spec(s[it.entity_index as int], it.entity_index as int, cam)
            },
        forall|i: int|
            0 <= i < s.len() && is_opaque_spec(s[i].color) == want_opaque ==> phase_items_spec(
                s,
                cam,
                want_opaque,
            ).contains(item_for_spec(s[i], i, cam)),
        forall|j1: int, j2: int|
            0 <= j1 < j2 < phase_items_spec(s, cam, want_opaque).len()
                ==> #[trigger] phase_items_spec(s, cam, want_opaque)[j1].entity_index
                != #[trigger] phase_items_spec(s, cam, want_opaque)[j2].entity_index,
    decreases s.len(),
{
    if s.len() > 0 {
        let rest = s.drop_last();
        lemma_classification_partitions(rest, cam, want_opaque);
        let q = phase_items_spec(s, cam, want_opaque);
        let qr = phase_items_spec(rest, cam, want_opaque);
        assert forall|j: int| 0 <= j < qr.len() implies qr[j].entity_index < rest.len() by {}
        assert forall|i: int|
            0 <= i < s.len() && is_opaque_spec(s[i].color) == want_opaque implies q.contains(
            item_for_spec(s[i], i, cam),
        ) by {
            if i < s.len() - 1 {
                assert(rest[i] == s[i]);
                assert(qr.contains(item_for_spec(rest[i], i, cam)));
                let k = choose|k: int| 0 <= k < qr.len() && qr[k] == item_for_spec(rest[i], i, cam);
                assert(q[k] == item_for_spec(s[i], i, cam));
            } else {
                assert(is_opaque_spec(s.last().color) == want_opaque);
                assert(q.last() == item_for_spec(s[i], i, cam));
            }
        }
        assert forall|j: int| 0 <= j < q.len() implies {
            let it = #[trigger] q[j];
            &&& it.entity_index < s.len()
            &&& is_opaque_spec(s[it.entity_index as int].color) == want_opaque
            &&& it == item_for_spec(s[it.entity_index as int], it.entity_index as int, cam)
        } by {
            if j < qr.len() {
                assert(q[j] == qr[j]);
                assert(rest[qr[j].entity_index as int] == s[qr[j].entity_index as int]);
            } else {
                assert(q[j] == item_for_spec(s.last(), s.len() - 1, cam));
            }
        }
        assert forall|j1: int, j2: int|
            0 <= j1 < j2 < q.len() implies #[trigger] q[j1].entity_index
            != #[trigger] q[j2].entity_index by {
            if j2 < qr.len() {
                assert(q[j1] == qr[j1] && q[j2] == qr[j2]);
            } else {
                assert(q[j1] == qr[j1]);
                assert(qr[j1].entity_index < rest.len());
                assert(q[j2] == item_for_spec(s.last(), s.len() - 1, cam));
            }
        }
    }
}

} // verus!
