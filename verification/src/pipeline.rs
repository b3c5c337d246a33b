//! The process-wide pipeline cache.
//!
//! A pipeline key names a compiled shader + fixed-function state
//! combination. The cache maps each key to the handle of its compiled
//! GPU pipeline, or to a recorded permanent failure, so a key is
//! compiled at most once for the life of the process. The GPU backend
//! performs the actual compilation; the frame driver asks the cache
//! which keys are missing (`missing_keys`), compiles exactly those, and
//! records each outcome (`install`), success or failure alike, before
//! batching resolves items against the cache.

use vstd::prelude::*;
use crate::phase::Phase;

verus! {

/// The identity of a compiled shader + fixed-function state combination.
#[derive(Clone, Copy, Debug, PartialEq, Eq, Structural)]
pub struct PipelineKey {
    /// Shader id of the vertex stage.
    pub vertex_shader: u64,
    /// Shader id of the fragment stage.
    pub fragment_shader: u64,
    /// Whether the material samples a texture.
    pub textured: bool,
    /// The phase whose fixed-function state the pipeline bakes in.
    pub phase: Phase,
}

/// The recorded outcome of compiling one pipeline key.
#[derive(Clone, Copy, Debug, PartialEq, Eq, Structural)]
pub enum PipelineStatus {
    /// Compilation succeeded; the handle names the GPU pipeline object.
    Ready(u32),
    /// Compilation failed permanently for this key; recorded so the key
    /// is never compiled again, and its batches are skipped.
    Failed,
}

/// One cache entry.
#[derive(Clone, Copy, Debug, PartialEq, Eq, Structural)]
pub struct PipelineCacheEntry {
    pub key: PipelineKey,
    pub status: PipelineStatus,
}

/// The recorded status of `key`: the status of its first entry, or
/// `None` when no entry holds it.
pub open spec fn lookup_spec(entries: Seq<PipelineCacheEntry>, key: PipelineKey) -> Option<
    PipelineStatus,
>
    decreases entries.len(),
{
    if entries.len() == 0 {
        None
    } else if entries[0].key == key {
        Some(entries[0].status)
    } else {
        lookup_spec(entries.subrange(1, entries.len() as int), key)
    }
}

/// What `lookup_spec` finds: the first entry holding the key.
pub proof fn lemma_lookup_spec(entries: Seq<PipelineCacheEntry>, key: PipelineKey)
    ensures
        lookup_spec(entries, key) is None ==> forall|j: int|
            0 <= j < entries.len() ==> (#[trigger] entries[j]).key != key,
        lookup_spec(entries, key) is Some ==> exists|j: int|
            0 <= j < entries.len() && (#[trigger] entries[j]).key == key && entries[j].status
                == lookup_spec(entries, key)->Some_0,
    decreases entries.len(),
{
    if entries.len() > 0 && entries[0].key != key {
        let sub = entries.subrange(1, entries.len() as int);
        lemma_lookup_spec(sub, key);
        if lookup_spec(entries, key) is None {
            assert forall|j: int| 0 <= j < entries.len() implies (#[trigger] entries[j]).key
                != key by {
                if j > 0 {
                    assert(entries[j] == sub[j - 1]);
                }
            }
        } else {
            let j = choose|j: int|
                0 <= j < sub.len() && (#[trigger] sub[j]).key == key && sub[j].status
                    == lookup_spec(sub, key)->Some_0;
            assert(entries[j + 1] == sub[j]);
        }
    }
}

/// Appending an entry for an absent key leaves every other key's record
/// untouched and records exactly that entry for the key: once a key is
/// cached, no later install can change or duplicate its record.
pub proof fn lemma_install_permanent(
    entries: Seq<PipelineCacheEntry>,
    key: PipelineKey,
    status: PipelineStatus,
    other: PipelineKey,
)
    requires
        lookup_spec(entries, key) is None,
    ensures
        lookup_spec(entries.push(PipelineCacheEntry { key, status }), key) == Some(status),
        other != key ==> lookup_spec(entries.push(PipelineCacheEntry { key, status }), other)
            == lookup_spec(entries, other),
    decreases entries.len(),
{
    let p = entries.push(PipelineCacheEntry { key, status });
    if entries.len() == 0 {
        assert(p[0] == (PipelineCacheEntry { key, status }));
        assert(p.subrange(1, p.len() as int) =~= Seq::<PipelineCacheEntry>::empty());
        assert(lookup_spec(entries, other) is None);
        if other != key {
            assert(p[0].key != other);
            assert(lookup_spec(p, other) == lookup_spec(
                p.subrange(1, p.len() as int),
                other,
            ));
            assert(lookup_spec(p, other) is None);
        }
    } else {
        let sub = entries.subrange(1, entries.len() as int);
        assert(p[0] == entries[0]);
        assert(entries[0].key != key);
        assert(lookup_spec(sub, key) is None);
        assert(p.subrange(1, p.len() as int) =~= sub.push(PipelineCacheEntry { key, status }));
        lemma_install_permanent(sub, key, status, other);
        if other != key && entries[0].key != other {
            assert(lookup_spec(p, other) == lookup_spec(
                sub.push(PipelineCacheEntry { key, status }),
                other,
            ));
            assert(lookup_spec(entries, other) == lookup_spec(sub, other));
        } else if other != key {
            assert(lookup_spec(p, other) == Some(p[0].status));
            assert(lookup_spec(entries, other) == Some(entries[0].status));
        }
    }
}

/// A pipeline key is compiled at most once: once it has a recorded
/// outcome it is never missing again — `missing_keys` never lists it, so
/// no frame compiles it — and recording another key's compile leaves its
/// record exactly as it was.
pub proof fn lemma_compile_at_most_once(
    entries: Seq<PipelineCacheEntry>,
    key: PipelineKey,
    other: PipelineKey,
    status: PipelineStatus,
)
    requires
        lookup_spec(entries, key) is Some,
        lookup_spec(entries, other) is None,
    ensures
        lookup_spec(entries.push(PipelineCacheEntry { key: other, status }), key) == lookup_spec(
            entries,
            key,
        ),
{
    assert(other != key);
    lemma_install_permanent(entries, other, status, key);
}

/// The pipeline cache. Entries are only ever appended, one per compile
/// invocation, so the entry count is the number of compiles ever made.
pub struct RenderPipelineCache {
    entries: Vec<PipelineCacheEntry>,
}

impl RenderPipelineCache {
    /// The recorded entries, in install order.
    pub closed spec fn entries_view(&self) -> Seq<PipelineCacheEntry> {
        self.entries@
    }

    /// No key has two entries.
    pub open spec fn wf(&self) -> bool {
        forall|i: int, j: int|
            0 <= i < j < self.entries_view().len() ==> (#[trigger] self.entries_view()[i]).key
                != (#[trigger] self.entries_view()[j]).key
    }

    /// An empty cache: nothing compiled yet.
    pub fn new() -> (cache: RenderPipelineCache)
        ensures
            cache.entries_view() == Seq::<PipelineCacheEntry>::empty(),
            cache.wf(),
    {
        let entries: Vec<PipelineCacheEntry> = Vec::new();
        proof {
            assert(entries@ =~= Seq::<PipelineCacheEntry>::empty());
        }
        RenderPipelineCache { entries }
    }

    /// How many compile invocations the cache has ever recorded.
    pub fn compile_count(&self) -> (n: usize)
        ensures
            n == self.entries_view().len(),
    {
        self.entries.len()
    }

    /// The recorded status of `key`, if any.
    #[verifier::loop_isolation(false)]
    pub fn lookup(&self, key: PipelineKey) -> (r: Option<PipelineStatus>)
        ensures
            r == lookup_spec(self.entries_view(), key),
    {
        let n = self.entries.len();
        for i in 0..n
            invariant
                forall|j: int| 0 <= j < i ==> (#[trigger] self.entries@[j]).key != key,
        {
            if self.entries[i].key == key {
                proof {
                    lemma_lookup_found(self.entries_view(), key, i as int);
                }
                return Some(self.entries[i].status);
            }
        }
        proof {
            lemma_lookup_spec(self.entries_view(), key);
            if lookup_spec(self.entries_view(), key) is Some {
                let j = choose|j: int|
                    0 <= j < self.entries_view().len() && (#[trigger] self.entries_view()[j]).key
                        == key && self.entries_view()[j].status == lookup_spec(
                        self.entries_view(),
                        key,
                    )->Some_0;
            }
        }
        None
    }

    /// True when `key` has no recorded outcome yet, i.e. it must be
    /// compiled before its batches can draw.
    pub fn needs_compile(&self, key: PipelineKey) -> (r: bool)
        ensures
            r == (lookup_spec(self.entries_view(), key) is None),
    {
        self.lookup(key).is_none()
    }

    /// Records the outcome of compiling `key`. A key is only ever
    /// installed while it has no recorded outcome, so each key is
    /// compiled at most once; the record, success or failure, is
    /// permanent.
    pub fn install(&mut self, key: PipelineKey, status: PipelineStatus)
        requires
            old(self).wf(),
            lookup_spec(old(self).entries_view(), key) is None,
        ensures
            final(self).wf(),
            final(self).entries_view() == old(self).entries_view().push(
                PipelineCacheEntry { key, status },
            ),
            lookup_spec(final(self).entries_view(), key) == Some(status),
            forall|other: PipelineKey|
                other != key ==> lookup_spec(final(self).entries_view(), other) == lookup_spec(
                    old(self).entries_view(),
                    other,
                ),
    {
        proof {
            lemma_lookup_spec(old(self).entries_view(), key);
            assert forall|other: PipelineKey| other != key implies lookup_spec(
                old(self).entries_view().push(PipelineCacheEntry { key, status }),
                other,
            ) == lookup_spec(old(self).entries_view(), other) by {
                lemma_install_permanent(old(self).entries_view(), key, status, other);
            }
            lemma_install_permanent(old(self).entries_view(), key, status, key);
        }
        self.entries.push(PipelineCacheEntry { key, status });
        proof {
            let v = self.entries_view();
            assert forall|i: int, j: int|
                0 <= i < j < v.len() implies (#[trigger] v[i]).key != (#[trigger] v[j]).key by {
                if j == v.len() - 1 {
                    assert(v[i] == old(self).entries_view()[i]);
                }
            }
        }
    }
}

/// Lookup at a witness index: when the first `i` entries miss and entry
/// `i` holds the key, the recorded status is entry `i`'s.
proof fn lemma_lookup_found(entries: Seq<PipelineCacheEntry>, key: PipelineKey, i: int)
    requires
        0 <= i < entries.len(),
        entries[i].key == key,
        forall|j: int| 0 <= j < i ==> (#[trigger] entries[j]).key != key,
    ensures
        lookup_spec(entries, key) == Some(entries[i].status),
    decreases i,
{
    if i > 0 {
        let sub = entries.subrange(1, entries.len() as int);
        assert(sub[i - 1] == entries[i]);
        assert forall|j: int| 0 <= j < i - 1 implies (#[trigger] sub[j]).key != key by {
            assert(sub[j] == entries[j + 1]);
        }
        lemma_lookup_found(sub, key, i - 1);
    }
}

/// The pipeline keys of this frame that still need a compile: every
/// requested key without a recorded outcome, each listed exactly once.
/// A frame driver compiles exactly this list, so a key already cached
/// is never recompiled, and a key requested many times in one frame is
/// compiled once.
#[verifier::loop_isolation(false)]
pub fn missing_keys(cache: &RenderPipelineCache, requested: &Vec<PipelineKey>) -> (out: Vec<
    PipelineKey,
>)
    ensures
        forall|j: int|
            0 <= j < out@.len() ==> lookup_spec(cache.entries_view(), #[trigger] out@[j]) is None,
        forall|j1: int, j2: int| 0 <= j1 < j2 < out@.len() ==> out@[j1] != out@[j2],
        forall|i: int|
            0 <= i < requested@.len() && lookup_spec(
                cache.entries_view(),
                #[trigger] requested@[i],
            ) is None ==> out@.contains(requested@[i]),
{
    let mut out: Vec<PipelineKey> = Vec::new();
    let n = requested.len();
    for i in 0..n
        invariant
            forall|j: int|
                0 <= j < out@.len() ==> lookup_spec(
                    cache.entries_view(),
                    #[trigger] out@[j],
                ) is None,
            forall|j1: int, j2: int| 0 <= j1 < j2 < out@.len() ==> out@[j1] != out@[j2],
            forall|k: int|
                0 <= k < i && lookup_spec(
                    cache.entries_view(),
                    #[trigger] requested@[k],
                ) is None ==> out@.contains(requested@[k]),
    {
        let key = requested[i];
        if cache.needs_compile(key) && !key_listed(&out, key) {
            proof {
                let newv = out@.push(key);
                assert forall|k: int|
                    0 <= k < i + 1 && lookup_spec(
                        cache.entries_view(),
                        #[trigger] requested@[k],
                    ) is None implies newv.contains(requested@[k]) by {
                    if k < i {
                        let w = choose|w: int| 0 <= w < out@.len() && out@[w] == requested@[k];
                        assert(newv[w] == requested@[k]);
                    } else {
                        assert(newv[newv.len() - 1] == requested@[k]);
                    }
                }
            }
            out.push(key);
        } else {
            proof {
                if lookup_spec(cache.entries_view(), requested@[i as int]) is None {
                    assert(out@.contains(requested@[i as int]));
                }
            }
        }
    }
    out
}

/// Whether `key` already stands in `keys`.
#[verifier::loop_isolation(false)]
fn key_listed(keys: &Vec<PipelineKey>, key: PipelineKey) -> (r: bool)
    ensures
        r == keys@.contains(key),
{
    let n = keys.len();
    for i in 0..n
        invariant
            forall|j: int| 0 <= j < i ==> keys@[j] != key,
    {
        if keys[i] == key {
            return true;
        }
    }
    proof {
        if keys@.contains(key) {
            let j = choose|j: int| 0 <= j < keys@.len() && keys@[j] == key;
        }
    }
    false
}

} // verus!
