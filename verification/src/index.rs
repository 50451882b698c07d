//! The index-acquisition protocol and the track-selection rule.
//!
//! Acquiring a persistent seek index alternates decode-engine work (probing,
//! reading, validating, building and writing the sidecar cache) with
//! decisions. The decisions live here as a step function from state and
//! engine answer to next state; the caller performs, for each state, the one
//! engine operation that state names, and feeds the answer back. The proof
//! functions below state the lifecycle guarantees: a fresh build persists
//! its result, a valid cache is reused without re-indexing, and a cache that
//! fails ownership validation is discarded and rebuilt, never served.

use vstd::prelude::*;

verus! {

/// The failure taxonomy. Every failure is terminal for the call that raised
/// it; nothing is retried internally.
#[derive(Clone, Copy, Debug, PartialEq, Eq, Structural)]
pub enum VidError {
    /// The path cannot be represented to the decode engine.
    PathInvalid,
    /// The engine cannot build an index from the source.
    IndexingFailed,
    /// The engine cannot open a decode context for the chosen track.
    SourceOpenFailed,
    /// No track of the requested media type exists in the index.
    NoSuchTrack,
}

/// The acquisition states. Each non-terminal state names the one engine
/// operation the caller must perform next.
#[derive(Clone, Copy, Debug, PartialEq, Eq, Structural)]
pub enum AcquireState {
    /// Check that the source path is representable to the engine.
    CheckPath,
    /// Check whether the sidecar cache file exists.
    ProbeCache,
    /// Load the index from the sidecar cache file.
    ReadCache,
    /// Ask the engine whether the loaded index belongs to the source file.
    ValidateCache,
    /// Create an indexer for the source, restricted to the requested media
    /// type.
    CreateIndexer,
    /// Run the full indexing pass, synchronously, to completion.
    RunIndexing,
    /// Persist the freshly built index to the sidecar cache location.
    PersistCache,
    /// Pick the first indexed track of the requested media type.
    SelectTrack,
    /// A usable, validated or freshly built index with a selected track.
    Done,
    /// Acquisition failed.
    Failed(VidError),
}

/// The engine's answer to the operation a state named.
#[derive(Clone, Copy, Debug, PartialEq, Eq, Structural)]
pub enum AcquireEvent {
    /// Whether the path is representable.
    PathChecked(bool),
    /// Whether the sidecar cache file exists.
    CacheProbed(bool),
    /// Whether the cache file loaded as an index.
    CacheRead(bool),
    /// Whether the loaded index belongs to the source file.
    OwnershipChecked(bool),
    /// Whether the indexer was created.
    IndexerCreated(bool),
    /// Whether the indexing pass succeeded.
    IndexingRun(bool),
    /// Whether the cache write succeeded (failure is non-fatal).
    CacheWritten(bool),
    /// Whether a track of the requested media type exists.
    TrackSelected(bool),
}

/// One transition: the next state, and whether the caller must destroy the
/// cached index it loaded (true exactly when ownership validation failed).
/// An answer that does not belong to the current state changes nothing.
pub open spec fn spec_step(s: AcquireState, e: AcquireEvent) -> (AcquireState, bool) {
    match (s, e) {
        (AcquireState::CheckPath, AcquireEvent::PathChecked(ok)) => (
            if ok {
                AcquireState::ProbeCache
            } else {
                AcquireState::Failed(VidError::PathInvalid)
            },
            false,
        ),
        (AcquireState::ProbeCache, AcquireEvent::CacheProbed(exists)) => (
            if exists {
                AcquireState::ReadCache
            } else {
                AcquireState::CreateIndexer
            },
            false,
        ),
        (AcquireState::ReadCache, AcquireEvent::CacheRead(ok)) => (
            if ok {
                AcquireState::ValidateCache
            } else {
                AcquireState::CreateIndexer
            },
            false,
        ),
        (AcquireState::ValidateCache, AcquireEvent::OwnershipChecked(belongs)) => if belongs {
            (AcquireState::SelectTrack, false)
        } else {
            (AcquireState::CreateIndexer, true)
        },
        (AcquireState::CreateIndexer, AcquireEvent::IndexerCreated(ok)) => (
            if ok {
                AcquireState::RunIndexing
            } else {
                AcquireState::Failed(VidError::IndexingFailed)
            },
            false,
        ),
        (AcquireState::RunIndexing, AcquireEvent::IndexingRun(ok)) => (
            if ok {
                AcquireState::PersistCache
            } else {
                AcquireState::Failed(VidError::IndexingFailed)
            },
            false,
        ),
        (AcquireState::PersistCache, AcquireEvent::CacheWritten(_)) => (
            AcquireState::SelectTrack,
            false,
        ),
        (AcquireState::SelectTrack, AcquireEvent::TrackSelected(found)) => (
            if found {
                AcquireState::Done
            } else {
                AcquireState::Failed(VidError::NoSuchTrack)
            },
            false,
        ),
        _ => (s, false),
    }
}

/// The executable transition, the single decision point the caller drives.
pub fn acquire_step(s: AcquireState, e: AcquireEvent) -> (r: (AcquireState, bool))
    ensures
        r == spec_step(s, e),
{
    match (s, e) {
        (AcquireState::CheckPath, AcquireEvent::PathChecked(ok)) => (
            if ok {
                AcquireState::ProbeCache
            } else {
                AcquireState::Failed(VidError::PathInvalid)
            },
            false,
        ),
        (AcquireState::ProbeCache, AcquireEvent::CacheProbed(exists)) => (
            if exists {
                AcquireState::ReadCache
            } else {
                AcquireState::CreateIndexer
            },
            false,
        ),
        (AcquireState::ReadCache, AcquireEvent::CacheRead(ok)) => (
            if ok {
                AcquireState::ValidateCache
            } else {
                AcquireState::CreateIndexer
            },
            false,
        ),
        (AcquireState::ValidateCache, AcquireEvent::OwnershipChecked(belongs)) => if belongs {
            (AcquireState::SelectTrack, false)
        } else {
            (AcquireState::CreateIndexer, true)
        },
        (AcquireState::CreateIndexer, AcquireEvent::IndexerCreated(ok)) => (
            if ok {
                AcquireState::RunIndexing
            } else {
                AcquireState::Failed(VidError::IndexingFailed)
            },
            false,
        ),
        (AcquireState::RunIndexing, AcquireEvent::IndexingRun(ok)) => (
            if ok {
                AcquireState::PersistCache
            } else {
                AcquireState::Failed(VidError::IndexingFailed)
            },
            false,
        ),
        (AcquireState::PersistCache, AcquireEvent::CacheWritten(_)) => (
            AcquireState::SelectTrack,
            false,
        ),
        (AcquireState::SelectTrack, AcquireEvent::TrackSelected(found)) => (
            if found {
                AcquireState::Done
            } else {
                AcquireState::Failed(VidError::NoSuchTrack)
            },
            false,
        ),
        _ => (s, false),
    }
}

/// The state after consuming `evs` from `s`.
pub open spec fn spec_run(s: AcquireState, evs: Seq<AcquireEvent>) -> AcquireState
    decreases evs.len(),
{
    if evs.len() == 0 {
        s
    } else {
        spec_run(spec_step(s, evs[0]).0, evs.drop_first())
    }
}

/// Whether a run from `s` through `evs` passes through state `t`, `s`
/// itself included.
pub open spec fn visits(s: AcquireState, evs: Seq<AcquireEvent>, t: AcquireState) -> bool
    decreases evs.len(),
{
    s == t || (evs.len() > 0 && visits(spec_step(s, evs[0]).0, evs.drop_first(), t))
}

/// A failed acquisition stays failed: no later engine answer revives it or
/// reaches any other state.
pub proof fn lemma_failed_is_terminal(err: VidError, evs: Seq<AcquireEvent>, t: AcquireState)
    requires
        t != AcquireState::Failed(err),
    ensures
        spec_run(AcquireState::Failed(err), evs) == AcquireState::Failed(err),
        !visits(AcquireState::Failed(err), evs, t),
    decreases evs.len(),
{
    if evs.len() > 0 {
        lemma_failed_is_terminal(err, evs.drop_first(), t);
    }
}

/// Persisting the cache cannot fail the acquisition: whatever the write
/// reports, the machine proceeds to track selection with the freshly built
/// index.
pub proof fn lemma_cache_write_nonfatal(ok: bool)
    ensures
        spec_step(AcquireState::PersistCache, AcquireEvent::CacheWritten(ok)) == (
            AcquireState::SelectTrack,
            false,
        ),
{
}

/// From `RunIndexing`, a handle is delivered only through the persist step.
proof fn lemma_indexing_done_via_persist(evs: Seq<AcquireEvent>)
    ensures
        visits(AcquireState::RunIndexing, evs, AcquireState::Done) ==> visits(
            AcquireState::RunIndexing,
            evs,
            AcquireState::PersistCache,
        ),
    decreases evs.len(),
{
    if evs.len() > 0 {
        let evs1 = evs.drop_first();
        let next = spec_step(AcquireState::RunIndexing, evs[0]).0;
        assert(visits(AcquireState::RunIndexing, evs, AcquireState::Done) == visits(
            next,
            evs1,
            AcquireState::Done,
        ));
        if next == AcquireState::PersistCache {
            assert(visits(next, evs1, AcquireState::PersistCache));
            assert(visits(AcquireState::RunIndexing, evs, AcquireState::PersistCache));
        } else if next == AcquireState::RunIndexing {
            lemma_indexing_done_via_persist(evs1);
            assert(visits(AcquireState::RunIndexing, evs, AcquireState::PersistCache) == visits(
                next,
                evs1,
                AcquireState::PersistCache,
            ));
        } else {
            lemma_failed_is_terminal(VidError::IndexingFailed, evs1, AcquireState::Done);
        }
    }
}

/// A rebuild delivers a handle only after a successful indexing pass and its
/// persist step: from `CreateIndexer`, every run that reaches `Done` passes
/// through `RunIndexing` and `PersistCache`. A fresh build therefore always
/// persists its index before the handle is handed out.
pub proof fn lemma_build_persists_before_done(evs: Seq<AcquireEvent>)
    ensures
        visits(AcquireState::CreateIndexer, evs, AcquireState::Done) ==> visits(
            AcquireState::CreateIndexer,
            evs,
            AcquireState::RunIndexing,
        ),
        visits(AcquireState::CreateIndexer, evs, AcquireState::Done) ==> visits(
            AcquireState::CreateIndexer,
            evs,
            AcquireState::PersistCache,
        ),
    decreases evs.len(),
{
    if evs.len() > 0 {
        let evs1 = evs.drop_first();
        let next = spec_step(AcquireState::CreateIndexer, evs[0]).0;
        assert(visits(AcquireState::CreateIndexer, evs, AcquireState::Done) == visits(
            next,
            evs1,
            AcquireState::Done,
        ));
        if next == AcquireState::CreateIndexer {
            lemma_build_persists_before_done(evs1);
            assert(visits(AcquireState::CreateIndexer, evs, AcquireState::RunIndexing) == visits(
                next,
                evs1,
                AcquireState::RunIndexing,
            ));
            assert(visits(AcquireState::CreateIndexer, evs, AcquireState::PersistCache) == visits(
                next,
                evs1,
                AcquireState::PersistCache,
            ));
        } else if next == AcquireState::RunIndexing {
            lemma_indexing_done_via_persist(evs1);
            assert(visits(next, evs1, AcquireState::RunIndexing));
            assert(visits(AcquireState::CreateIndexer, evs, AcquireState::RunIndexing));
            assert(visits(AcquireState::CreateIndexer, evs, AcquireState::PersistCache) == visits(
                next,
                evs1,
                AcquireState::PersistCache,
            ));
        } else {
            lemma_failed_is_terminal(VidError::IndexingFailed, evs1, AcquireState::Done);
        }
    }
}

/// Once past track selection, the machine never builds again: from
/// `SelectTrack`, `Done`, or any failure, no run reaches `CreateIndexer` or
/// `RunIndexing`.
proof fn lemma_after_select_never_indexes(s: AcquireState, evs: Seq<AcquireEvent>)
    requires
        s == AcquireState::SelectTrack || s == AcquireState::Done || s matches AcquireState::Failed(
            _,
        ),
    ensures
        !visits(s, evs, AcquireState::CreateIndexer),
        !visits(s, evs, AcquireState::RunIndexing),
    decreases evs.len(),
{
    if evs.len() > 0 {
        lemma_after_select_never_indexes(spec_step(s, evs[0]).0, evs.drop_first());
    }
}

/// Caching idempotence: an acquisition that finds a cache which loads and
/// passes ownership validation is served from the cache; whatever happens
/// afterwards, the run never creates an indexer and never runs an indexing
/// pass.
pub proof fn lemma_cache_hit_never_reindexes(evs: Seq<AcquireEvent>)
    requires
        evs.len() >= 3,
        evs[0] == AcquireEvent::CacheProbed(true),
        evs[1] == AcquireEvent::CacheRead(true),
        evs[2] == AcquireEvent::OwnershipChecked(true),
    ensures
        !visits(AcquireState::ProbeCache, evs, AcquireState::CreateIndexer),
        !visits(AcquireState::ProbeCache, evs, AcquireState::RunIndexing),
{
    let ci = AcquireState::CreateIndexer;
    let ri = AcquireState::RunIndexing;
    let evs1 = evs.drop_first();
    let evs2 = evs1.drop_first();
    let evs3 = evs2.drop_first();
    assert(evs1.len() == evs.len() - 1);
    assert(evs2.len() == evs.len() - 2);
    assert(evs1[0] == evs[1]);
    assert(evs2[0] == evs[2]);
    assert(spec_step(AcquireState::ProbeCache, evs[0]).0 == AcquireState::ReadCache);
    assert(spec_step(AcquireState::ReadCache, evs1[0]).0 == AcquireState::ValidateCache);
    assert(spec_step(AcquireState::ValidateCache, evs2[0]).0 == AcquireState::SelectTrack);
    lemma_after_select_never_indexes(AcquireState::SelectTrack, evs3);
    assert(visits(AcquireState::ValidateCache, evs2, ci) == visits(
        AcquireState::SelectTrack,
        evs3,
        ci,
    ));
    assert(visits(AcquireState::ReadCache, evs1, ci) == visits(
        AcquireState::ValidateCache,
        evs2,
        ci,
    ));
    assert(visits(AcquireState::ProbeCache, evs, ci) == visits(AcquireState::ReadCache, evs1, ci));
    assert(visits(AcquireState::ValidateCache, evs2, ri) == visits(
        AcquireState::SelectTrack,
        evs3,
        ri,
    ));
    assert(visits(AcquireState::ReadCache, evs1, ri) == visits(
        AcquireState::ValidateCache,
        evs2,
        ri,
    ));
    assert(visits(AcquireState::ProbeCache, evs, ri) == visits(AcquireState::ReadCache, evs1, ri));
}

/// Ownership validation: a cache that does not belong to the requested
/// source is discarded (the step orders the cached handle destroyed) and the
/// index is rebuilt; a handle can then be delivered only after a successful
/// indexing pass, never from the mismatched cache.
pub proof fn lemma_ownership_failure_discards_and_rebuilds(evs: Seq<AcquireEvent>)
    ensures
        spec_step(AcquireState::ValidateCache, AcquireEvent::OwnershipChecked(false)) == (
            AcquireState::CreateIndexer,
            true,
        ),
        visits(AcquireState::CreateIndexer, evs, AcquireState::Done) ==> visits(
            AcquireState::CreateIndexer,
            evs,
            AcquireState::RunIndexing,
        ),
{
    lemma_build_persists_before_done(evs);
}

/// Picks the first track, in the index's declared order, whose type equals
/// `media_type`; absent when no track matches. No cross-type fallback.
pub fn select_track(track_types: &Vec<i32>, media_type: i32) -> (r: Option<usize>)
    ensures
        (r matches Some(i) ==> i < track_types@.len() && track_types@[i as int] == media_type && (
        forall|j: int| 0 <= j < i ==> track_types@[j] != media_type)),
        r is None ==> (forall|j: int|
            0 <= j < track_types@.len() ==> track_types@[j] != media_type),
{
    let mut k: usize = 0;
    while k < track_types.len()
        invariant
            k <= track_types@.len(),
            forall|j: int| 0 <= j < k ==> track_types@[j] != media_type,
        decreases track_types@.len() - k,
    {
        if track_types[k] == media_type {
            return Some(k);
        }
        k += 1;
    }
    None
}

} // verus!
