//! The per-frame texture slot table.
//!
//! One draw call samples several source images through a texture array;
//! the table maps each image handle used this frame to a slot in that
//! array. Slot 0 is reserved for the placeholder texture used by items
//! with no texture, so real assignments count up from 1. The table is
//! rebuilt every frame; exceeding its capacity is a reportable
//! resource-exhaustion error, distinct from "asset not ready".

use vstd::prelude::*;
use crate::extract::ImageHandle;

verus! {

/// Failure of a texture slot request.
#[derive(Clone, Copy, Debug, PartialEq, Eq, Structural)]
pub enum TextureError {
    /// Every slot of the fixed-capacity texture array is taken.
    SlotsFull,
}

/// The first position of `h` in the table, or `-1` when absent.
pub open spec fn slot_index_spec(tb: Seq<u64>, h: u64) -> int
    decreases tb.len(),
{
    if tb.len() == 0 {
        -1
    } else if tb[0] == h {
        0
    } else {
        let r = slot_index_spec(tb.subrange(1, tb.len() as int), h);
        if r == -1 {
            -1
        } else {
            r + 1
        }
    }
}

/// The table after a slot request for `h`: unchanged on a hit or when
/// full, extended by `h` otherwise.
pub open spec fn table_after_spec(tb: Seq<u64>, cap: int, h: u64) -> Seq<u64> {
    if slot_index_spec(tb, h) >= 0 {
        tb
    } else if tb.len() < cap {
        tb.push(h)
    } else {
        tb
    }
}

/// The slot a request for `h` yields: the existing slot on a hit, the
/// next free slot on a miss, `None` when the table is full.
pub open spec fn slot_result_spec(tb: Seq<u64>, cap: int, h: u64) -> Option<int> {
    if slot_index_spec(tb, h) >= 0 {
        Some(slot_index_spec(tb, h) + 1)
    } else if tb.len() < cap {
        Some(tb.len() as int + 1)
    } else {
        None
    }
}

/// What `slot_index_spec` finds: the least matching index.
pub proof fn lemma_slot_index_spec(tb: Seq<u64>, h: u64)
    ensures
        slot_index_spec(tb, h) >= -1,
        slot_index_spec(tb, h) == -1 ==> forall|j: int| 0 <= j < tb.len() ==> tb[j] != h,
        slot_index_spec(tb, h) >= 0 ==> {
            &&& slot_index_spec(tb, h) < tb.len()
            &&& tb[slot_index_spec(tb, h)] == h
            &&& forall|j: int| 0 <= j < slot_index_spec(tb, h) ==> tb[j] != h
        },
    decreases tb.len(),
{
    if tb.len() > 0 && tb[0] != h {
        let sub = tb.subrange(1, tb.len() as int);
        lemma_slot_index_spec(sub, h);
        if slot_index_spec(sub, h) == -1 {
            assert forall|j: int| 0 <= j < tb.len() implies tb[j] != h by {
                if j > 0 {
                    assert(sub[j - 1] != h);
                }
            }
        } else {
            let r = slot_index_spec(sub, h);
            assert(tb[r + 1] == sub[r]);
            assert forall|j: int| 0 <= j < r + 1 implies tb[j] != h by {
                if j > 0 {
                    assert(sub[j - 1] != h);
                }
            }
        }
    }
}

/// The slot table: `handles[i]` occupies slot `i + 1`.
pub struct TextureBuffer {
    handles: Vec<u64>,
    capacity: usize,
}

impl TextureBuffer {
    /// The assigned handles, in slot order starting at slot 1.
    pub closed spec fn table(&self) -> Seq<u64> {
        self.handles@
    }

    /// The number of real texture slots (slot 0 not counted).
    pub closed spec fn cap(&self) -> int {
        self.capacity as int
    }

    /// No handle occupies two slots, the table fits its capacity, and
    /// every slot number fits in a `u32`.
    pub open spec fn wf(&self) -> bool {
        &&& forall|i: int, j: int|
            0 <= i < j < self.table().len() ==> self.table()[i] != self.table()[j]
        &&& self.table().len() <= self.cap()
        &&& self.cap() <= 0xFFFF_FFFE
    }

    /// An empty table for a new frame.
    pub fn new(capacity: usize) -> (tb: TextureBuffer)
        requires
            capacity <= 0xFFFF_FFFE,
        ensures
            tb.table() == Seq::<u64>::empty(),
            tb.cap() == capacity,
            tb.wf(),
    {
        let handles: Vec<u64> = Vec::new();
        proof {
            assert(handles@ =~= Seq::<u64>::empty());
        }
        TextureBuffer { handles, capacity }
    }

    /// Drops every assignment, keeping the capacity: the start-of-frame
    /// rebuild.
    pub fn clear(&mut self)
        ensures
            final(self).table() == Seq::<u64>::empty(),
            final(self).cap() == old(self).cap(),
            old(self).wf() ==> final(self).wf(),
    {
        self.handles.clear();
    }

    /// How many slots are taken.
    pub fn len(&self) -> (n: usize)
        ensures
            n == self.table().len(),
    {
        self.handles.len()
    }

    /// The slot an image is bound to this frame: its assigned slot, or
    /// the placeholder slot 0 for no image or an unassigned image.
    #[verifier::loop_isolation(false)]
    pub fn get_position(&self, image: Option<ImageHandle>) -> (slot: u32)
        requires
            self.wf(),
        ensures
            match image {
                None => slot == 0,
                Some(h) => {
                    if slot_index_spec(self.table(), h.0) >= 0 {
                        slot == slot_index_spec(self.table(), h.0) + 1
                    } else {
                        slot == 0
                    }
                },
            },
    {
        let h = match image {
            None => {
                return 0;
            },
            Some(h) => h.0,
        };
        let n = self.handles.len();
        for i in 0..n
            invariant
                n == self.table().len(),
                self.wf(),
                forall|j: int| 0 <= j < i ==> self.table()[j] != h,
        {
            if self.handles[i] == h {
                proof {
                    lemma_slot_index_spec(self.table(), h);
                }
                return i as u32 + 1;
            }
        }
        proof {
            lemma_slot_index_spec(self.table(), h);
        }
        0
    }

    /// Returns the slot for `image`, assigning the next free slot on
    /// first use this frame; fails only when the table is full, leaving
    /// it unchanged. Never returns slot 0 for a real texture.
    #[verifier::loop_isolation(false)]
    pub fn slot_for_texture(&mut self, image: ImageHandle) -> (r: Result<u32, TextureError>)
        requires
            old(self).wf(),
        ensures
            final(self).wf(),
            final(self).cap() == old(self).cap(),
            final(self).table() == table_after_spec(old(self).table(), old(self).cap(), image.0),
            match r {
                Ok(slot) => {
                    &&& slot_result_spec(old(self).table(), old(self).cap(), image.0)
                        == Some(slot as int)
                    &&& 1 <= slot <= final(self).table().len()
                },
                Err(e) => {
                    &&& slot_result_spec(old(self).table(), old(self).cap(), image.0)
                        == None::<int>
                    &&& e == TextureError::SlotsFull
                },
            },
    {
        let h = image.0;
        let n = self.handles.len();
        for i in 0..n
            invariant
                n == self.table().len(),
                self.wf(),
                *self == *old(self),
                forall|j: int| 0 <= j < i ==> self.table()[j] != h,
        {
            if self.handles[i] == h {
                proof {
                    lemma_slot_index_spec(self.table(), h);
                }
                return Ok(i as u32 + 1);
            }
        }
        proof {
            lemma_slot_index_spec(self.table(), h);
        }
        if self.handles.len() < self.capacity {
            self.handles.push(h);
            proof {
                lemma_slot_index_spec(old(self).table(), h);
                assert forall|i: int, j: int|
                    0 <= i < j < self.table().len() implies self.table()[i] != self.table()[j] by {
                    if j < self.table().len() - 1 {
                        assert(self.table()[i] == old(self).table()[i]);
                        assert(self.table()[j] == old(self).table()[j]);
                    } else {
                        assert(self.table()[j] == h);
                        assert(self.table()[i] == old(self).table()[i]);
                    }
                }
            }
            Ok(self.handles.len() as u32)
        } else {
            Err(TextureError::SlotsFull)
        }
    }
}

/// Requesting the slot for the same image twice in one frame returns the
/// same slot both times and leaves the table as it was: slot assignment
/// is stable within a frame.
pub proof fn lemma_slot_assignment_stable(tb: Seq<u64>, cap: int, h: u64)
    requires
        tb.len() <= cap,
    ensures
        slot_result_spec(tb, cap, h) is Some ==> {
            let tb1 = table_after_spec(tb, cap, h);
            &&& slot_result_spec(tb1, cap, h) == slot_result_spec(tb, cap, h)
            &&& table_after_spec(tb1, cap, h) == tb1
        },
        slot_result_spec(tb, cap, h) is Some ==> slot_result_spec(tb, cap, h)->Some_0 >= 1,
{
    lemma_slot_index_spec(tb, h);
    if slot_index_spec(tb, h) == -1 && tb.len() < cap {
        let tb1 = tb.push(h);
        lemma_slot_index_push_absent(tb, h);
    }
}

/// Pushing an absent handle places it at the end, and lookup finds it
/// there.
proof fn lemma_slot_index_push_absent(tb: Seq<u64>, h: u64)
    requires
        slot_index_spec(tb, h) == -1,
    ensures
        slot_index_spec(tb.push(h), h) == tb.len(),
    decreases tb.len(),
{
    let p = tb.push(h);
    if tb.len() == 0 {
        assert(p[0] == h);
    } else {
        assert(p[0] == tb[0]);
        let sub = tb.subrange(1, tb.len() as int);
        lemma_slot_index_spec(sub, h);
        assert(p.subrange(1, p.len() as int) =~= sub.push(h));
        lemma_slot_index_push_absent(sub, h);
    }
}

} // verus!
