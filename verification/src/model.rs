use vstd::prelude::*;
use crate::errors::ApiError;
use crate::object_id::valid_id;
use crate::orchestrator::{DeleteBegin, ReadBegin, UpdateAfterStore, DeleteAfterStore,
    delete_begin_decision, delete_store_decision, prepared_create, prepared_update,
    read_begin_decision, update_store_decision};
use crate::outcomes::{DeleteOutcome, PublishOutcome, UpdateOutcome};
use crate::user::UserView;

verus! {

// The consistency discipline between the three collaborators, as
// mathematics: the Record Store and the Cache are maps from identifier to
// record value, each operation of the orchestration is a function of those
// maps, and the decision functions of `orchestrator` are tied to these
// functions by the refinement lemmas below. The properties the service
// promises are proved of the same functions at the end of this module.

/// The Record Store as a mathematical value: the records it durably
/// holds, keyed by their identifiers. The store is the sole source of
/// truth.
pub struct StoreModel {
    pub records: Map<Seq<char>, UserView>,
}

/// The Cache as a mathematical value: the entries it currently holds,
/// keyed by record identifier. The cache is a derived, disposable view:
/// any entry may vanish at any moment without harming correctness.
pub struct CacheModel {
    pub entries: Map<Seq<char>, UserView>,
}

/// Store well-formedness: every key is well formed under the store's
/// identifier scheme, and every record carries exactly the identifier it
/// is keyed by.
pub open spec fn store_wf(s: StoreModel) -> bool {
    forall|k: Seq<char>| #[trigger] s.records.contains_key(k) ==> valid_id(k) && s.records[k].id
        == Some(k)
}

/// The cache invariant of the data model: an entry under a key holds a
/// record whose identifier equals that key.
pub open spec fn cache_wf(c: CacheModel) -> bool {
    forall|k: Seq<char>| #[trigger] c.entries.contains_key(k) ==> c.entries[k].id == Some(k)
}

/// The store-fetch outcomes, as mathematical values.
pub enum FetchView {
    Found(UserView),
    Missing,
    Malformed,
    Unavailable,
}

/// The creation outcomes, as mathematical values.
pub enum CreateView {
    Persisted(UserView),
    Unavailable,
}

/// What a conforming, reachable Record Store may report for a fetch of
/// `id` in state `s`.
pub open spec fn fetch_conforms(s: StoreModel, id: Seq<char>, f: FetchView) -> bool {
    match f {
        FetchView::Found(u) => valid_id(id) && s.records.contains_key(id) && u == s.records[id],
        FetchView::Missing => valid_id(id) && !s.records.contains_key(id),
        FetchView::Malformed => !valid_id(id),
        FetchView::Unavailable => true,
    }
}

/// What a conforming, reachable Record Store may report for an update of
/// `id`: a match count of one exactly when a record is keyed by `id`.
pub open spec fn update_conforms(s: StoreModel, id: Seq<char>, reported: UpdateOutcome) -> bool {
    match reported {
        UpdateOutcome::Matched(n) => valid_id(id) && n == if s.records.contains_key(id) {
            1u64
        } else {
            0u64
        },
        UpdateOutcome::Malformed => !valid_id(id),
        UpdateOutcome::Unavailable => false,
    }
}

/// What a conforming, reachable Record Store may report for a delete of
/// `id`: a delete count of one exactly when a record is keyed by `id`.
pub open spec fn delete_conforms(s: StoreModel, id: Seq<char>, reported: DeleteOutcome) -> bool {
    match reported {
        DeleteOutcome::Deleted(n) => valid_id(id) && n == if s.records.contains_key(id) {
            1u64
        } else {
            0u64
        },
        DeleteOutcome::Malformed => !valid_id(id),
        DeleteOutcome::Unavailable => false,
    }
}

/// A cache lookup never fabricates: whatever the backend's health, a hit
/// is exactly the entry currently under the key. A miss is always allowed
/// (absence, external eviction, or an absorbed backend failure).
pub open spec fn cache_lookup_sound(c: CacheModel, id: Seq<char>, cached: Option<UserView>) -> bool {
    cached matches Some(u) ==> c.entries.contains_key(id) && u == c.entries[id]
}

/// A healthy cache lookup: sound, and it hits whenever an entry is
/// present under the key.
pub open spec fn cache_lookup_fresh(c: CacheModel, id: Seq<char>, cached: Option<UserView>) -> bool {
    &&& cache_lookup_sound(c, id, cached)
    &&& (c.entries.contains_key(id) ==> cached == Some(c.entries[id]))
}

/// The read protocol against a reachable store: reject an empty
/// identifier before touching anything; serve a cache hit as it stands;
/// otherwise ask the store, and on success fill the cache with exactly the
/// record just fetched. `cache_usable` says whether the cache backend
/// answers at all; with it false every lookup misses and every fill is a
/// no-op, which is how the cache degrades. Yields the answer and the cache
/// afterwards.
pub open spec fn read_model(store: StoreModel, cache: CacheModel, id: Seq<char>, cache_usable: bool)
    -> (Result<UserView, ApiError>, CacheModel) {
    if id.len() == 0 {
        (Err(ApiError::ClientInput), cache)
    } else if cache_usable && cache.entries.contains_key(id) {
        (Ok(cache.entries[id]), cache)
    } else if !valid_id(id) {
        (Err(ApiError::ClientInput), cache)
    } else if store.records.contains_key(id) {
        (
            Ok(store.records[id]),
            if cache_usable {
                CacheModel { entries: cache.entries.insert(id, store.records[id]) }
            } else {
                cache
            },
        )
    } else {
        (Err(ApiError::NotFound), cache)
    }
}

/// The update protocol against a reachable store: reject an empty or
/// malformed identifier before the store does any work; replace the
/// mutable fields of the matching record, keying the result by the
/// addressed identifier whatever identifier the input carried; answer
/// with the canonical record re-read from the store. The cache is
/// deliberately left alone. Yields the answer and the store afterwards.
pub open spec fn update_model(store: StoreModel, id: Seq<char>, input: UserView) -> (
    Result<UserView, ApiError>,
    StoreModel,
) {
    if !valid_id(id) {
        (Err(ApiError::ClientInput), store)
    } else if store.records.contains_key(id) {
        (
            Ok(prepared_update(id, input)),
            StoreModel { records: store.records.insert(id, prepared_update(id, input)) },
        )
    } else {
        (Err(ApiError::NotFound), store)
    }
}

/// The delete protocol against a reachable store: reject an empty
/// identifier before touching anything; remove the matching record from
/// the store, and only then best-effort remove the cache entry (a no-op
/// when the cache backend is down). Yields the answer, the store and the
/// cache afterwards.
pub open spec fn delete_model(store: StoreModel, cache: CacheModel, id: Seq<char>,
    cache_usable: bool) -> (Result<(), ApiError>, StoreModel, CacheModel) {
    if id.len() == 0 {
        (Err(ApiError::ClientInput), store, cache)
    } else if !valid_id(id) {
        (Err(ApiError::ClientInput), store, cache)
    } else if store.records.contains_key(id) {
        (
            Ok(()),
            StoreModel { records: store.records.remove(id) },
            if cache_usable {
                CacheModel { entries: cache.entries.remove(id) }
            } else {
                cache
            },
        )
    } else {
        (Err(ApiError::NotFound), store, cache)
    }
}

/// The creation protocol against a reachable store: the store persists
/// the input's fields under a fresh identifier of its own choosing,
/// strictly before the publish attempt; a refused publish fails the
/// operation while the record stays persisted. Yields the answer and the
/// store afterwards.
pub open spec fn create_model(store: StoreModel, input: UserView, new_id: Seq<char>,
    publish_ok: bool) -> (Result<UserView, ApiError>, StoreModel)
    recommends
        valid_id(new_id),
        !store.records.contains_key(new_id),
{
    let stored = prepared_update(new_id, prepared_create(input));
    (
        if publish_ok {
            Ok(stored)
        } else {
            Err(ApiError::Publish)
        },
        StoreModel { records: store.records.insert(new_id, stored) },
    )
}

/// The answer the read decisions of `orchestrator` produce from the
/// collaborator replies, with the cache fill they direct (the record to
/// put under the requested identifier, if any).
pub open spec fn staged_read(id: Seq<char>, cached: Option<UserView>, fetched: FetchView) -> (
    Result<UserView, ApiError>,
    Option<UserView>,
) {
    match read_begin_decision(id) {
        ReadBegin::Reject(e) => (Err(e), None),
        ReadBegin::LookupCache => match cached {
            Some(u) => (Ok(u), None),
            None => match fetched {
                FetchView::Found(u) => (Ok(u), Some(u)),
                FetchView::Missing => (Err(ApiError::NotFound), None),
                FetchView::Malformed => (Err(ApiError::ClientInput), None),
                FetchView::Unavailable => (Err(ApiError::Store), None),
            },
        },
    }
}

/// A directed cache fill, applied.
pub open spec fn apply_fill(cache: CacheModel, id: Seq<char>, fill: Option<UserView>) -> CacheModel {
    match fill {
        Some(u) => CacheModel { entries: cache.entries.insert(id, u) },
        None => cache,
    }
}

/// The answer the update decisions of `orchestrator` produce from the
/// collaborator replies.
pub open spec fn staged_update(id: Seq<char>, reported: UpdateOutcome, reread: FetchView) -> Result<
    UserView,
    ApiError,
> {
    if !valid_id(id) {
        Err(ApiError::ClientInput)
    } else {
        match update_store_decision(reported) {
            UpdateAfterStore::Reread => match reread {
                FetchView::Found(u) => Ok(u),
                FetchView::Missing => Err(ApiError::NotFound),
                FetchView::Malformed => Err(ApiError::ClientInput),
                FetchView::Unavailable => Err(ApiError::Store),
            },
            UpdateAfterStore::Fail(e) => Err(e),
        }
    }
}

/// The answer the delete decisions of `orchestrator` produce from the
/// store's report.
pub open spec fn staged_delete(id: Seq<char>, reported: DeleteOutcome) -> Result<(), ApiError> {
    match delete_begin_decision(id) {
        DeleteBegin::Reject(e) => Err(e),
        DeleteBegin::Submit => match delete_store_decision(reported) {
            DeleteAfterStore::InvalidateThenOk => Ok(()),
            DeleteAfterStore::Fail(e) => Err(e),
        },
    }
}

/// The answer the creation decisions of `orchestrator` produce from the
/// collaborator replies.
pub open spec fn staged_create(outcome: CreateView, published: PublishOutcome) -> Result<
    UserView,
    ApiError,
> {
    match outcome {
        CreateView::Persisted(u) => match published {
            PublishOutcome::Accepted => Ok(u),
            PublishOutcome::Refused => Err(ApiError::Publish),
        },
        CreateView::Unavailable => Err(ApiError::Store),
    }
}

/// Refinement of the read protocol: with a healthy cache lookup and a
/// reachable, conforming store, the read decisions compute exactly the
/// model's read — answer and cache fill alike.
pub proof fn lemma_read_follows_model(store: StoreModel, cache: CacheModel, id: Seq<char>,
    cached: Option<UserView>, fetched: FetchView)
    requires
        cache_lookup_fresh(cache, id, cached),
        id.len() > 0 && cached is None ==> fetch_conforms(store, id, fetched) && !(fetched
            is Unavailable),
    ensures
        staged_read(id, cached, fetched).0 == read_model(store, cache, id, true).0,
        apply_fill(cache, id, staged_read(id, cached, fetched).1) == read_model(store, cache, id,
            true).1,
{
}

/// Degraded refinement of the read protocol: when every cache lookup
/// misses (an unreachable backend among the causes), the read decisions
/// compute exactly the model's cache-less read, and direct no fill that
/// the model does not.
pub proof fn lemma_read_degrades(store: StoreModel, cache: CacheModel, id: Seq<char>,
    fetched: FetchView)
    requires
        id.len() > 0 ==> fetch_conforms(store, id, fetched) && !(fetched is Unavailable),
    ensures
        staged_read(id, None, fetched).0 == read_model(store, cache, id, false).0,
{
}

/// Refinement of the update protocol: against a reachable, conforming
/// store, the update decisions compute exactly the model's update.
pub proof fn lemma_update_follows_model(store: StoreModel, id: Seq<char>, input: UserView,
    reported: UpdateOutcome, reread: FetchView)
    requires
        store_wf(store),
        valid_id(id) ==> update_conforms(store, id, reported),
        valid_id(id) && store.records.contains_key(id) ==> fetch_conforms(
            update_model(store, id, input).1,
            id,
            reread,
        ) && !(reread is Unavailable),
    ensures
        staged_update(id, reported, reread) == update_model(store, id, input).0,
{
    if valid_id(id) && store.records.contains_key(id) {
        assert(update_model(store, id, input).1.records.contains_key(id));
    }
}

/// Refinement of the delete protocol: against a reachable, conforming
/// store, the delete decisions compute exactly the model's delete.
pub proof fn lemma_delete_follows_model(store: StoreModel, cache: CacheModel, id: Seq<char>,
    reported: DeleteOutcome)
    requires
        id.len() > 0 ==> delete_conforms(store, id, reported),
    ensures
        staged_delete(id, reported) == delete_model(store, cache, id, true).0,
{
}

/// Refinement of the creation protocol: against a reachable store that
/// persisted the input's fields under a fresh identifier, the creation
/// decisions compute exactly the model's creation, for either verdict of
/// the publisher; and a store failure is answered as one.
pub proof fn lemma_create_follows_model(store: StoreModel, input: UserView, new_id: Seq<char>,
    published: PublishOutcome)
    requires
        valid_id(new_id),
        !store.records.contains_key(new_id),
    ensures
        staged_create(CreateView::Persisted(prepared_update(new_id, prepared_create(input))),
            published) == create_model(store, input, new_id,
            published == PublishOutcome::Accepted).0,
        staged_create(CreateView::Unavailable, published) == Err::<UserView, ApiError>(
            ApiError::Store,
        ),
{
}

/// Read-through correctness: for an identifier present in the store and
/// absent from the cache, the read serves the stored record and leaves
/// the cache holding exactly that record under the identifier; an
/// immediate re-read serves the same record again, from the cache alone —
/// whatever the store then holds — and the cache invariant is preserved.
pub proof fn lemma_read_through(store: StoreModel, cache: CacheModel, id: Seq<char>)
    requires
        store_wf(store),
        cache_wf(cache),
        store.records.contains_key(id),
        !cache.entries.contains_key(id),
    ensures
        read_model(store, cache, id, true).0 == Ok::<UserView, ApiError>(store.records[id]),
        read_model(store, cache, id, true).1.entries.contains_key(id),
        read_model(store, cache, id, true).1.entries[id] == store.records[id],
        forall|later: StoreModel| #[trigger] read_model(later, read_model(store, cache, id, true).1,
            id, true).0 == Ok::<UserView, ApiError>(store.records[id]),
        cache_wf(read_model(store, cache, id, true).1),
{
    assert(id.len() == 24);
    let filled = read_model(store, cache, id, true).1;
    assert forall|k: Seq<char>| #[trigger] filled.entries.contains_key(k) implies filled.entries[k].id
        == Some(k) by {
        if k != id {
            assert(cache.entries.contains_key(k));
        }
    }
}

/// Cache-miss degradation: with the cache backend entirely unreachable,
/// the read still answers correctly from the store alone — the stored
/// record when one is keyed by the identifier, not-found when none is —
/// and nothing is written anywhere.
pub proof fn lemma_cache_outage_degrades(store: StoreModel, cache: CacheModel, id: Seq<char>)
    ensures
        valid_id(id) && store.records.contains_key(id) ==> read_model(store, cache, id, false).0
            == Ok::<UserView, ApiError>(store.records[id]),
        valid_id(id) && !store.records.contains_key(id) ==> read_model(store, cache, id, false).0
            == Err::<UserView, ApiError>(ApiError::NotFound),
        read_model(store, cache, id, false).1 == cache,
{
}

/// Identifier immutability: a successful update answers with a record
/// keyed by the addressed identifier, whatever identifier the input
/// carried, with the input's three fields; the store then holds exactly
/// that record under the identifier, and store well-formedness is
/// preserved.
pub proof fn lemma_update_preserves_id(store: StoreModel, id: Seq<char>, input: UserView)
    requires
        store_wf(store),
        update_model(store, id, input).0 is Ok,
    ensures
        update_model(store, id, input).0 == Ok::<UserView, ApiError>(prepared_update(id, input)),
        prepared_update(id, input).id == Some(id),
        prepared_update(id, input).first_name == input.first_name,
        prepared_update(id, input).last_name == input.last_name,
        prepared_update(id, input).email == input.email,
        update_model(store, id, input).1.records[id] == prepared_update(id, input),
        store_wf(update_model(store, id, input).1),
{
    let after = update_model(store, id, input).1;
    assert forall|k: Seq<char>| #[trigger] after.records.contains_key(k) implies valid_id(k)
        && after.records[k].id == Some(k) by {
        if k != id {
            assert(store.records.contains_key(k));
        }
    }
}

/// Delete invalidation: after a successful delete, the store no longer
/// holds a record under the identifier, the propagated cache removal has
/// taken the entry with it, and a subsequent read answers not-found; both
/// invariants are preserved.
pub proof fn lemma_delete_invalidates(store: StoreModel, cache: CacheModel, id: Seq<char>)
    requires
        store_wf(store),
        cache_wf(cache),
        delete_model(store, cache, id, true).0 is Ok,
    ensures
        !delete_model(store, cache, id, true).1.records.contains_key(id),
        !delete_model(store, cache, id, true).2.entries.contains_key(id),
        read_model(delete_model(store, cache, id, true).1, delete_model(store, cache, id, true).2,
            id, true).0 == Err::<UserView, ApiError>(ApiError::NotFound),
        store_wf(delete_model(store, cache, id, true).1),
        cache_wf(delete_model(store, cache, id, true).2),
{
    let s1 = delete_model(store, cache, id, true).1;
    let c1 = delete_model(store, cache, id, true).2;
    assert forall|k: Seq<char>| #[trigger] s1.records.contains_key(k) implies valid_id(k)
        && s1.records[k].id == Some(k) by {
        assert(store.records.contains_key(k));
    }
    assert forall|k: Seq<char>| #[trigger] c1.entries.contains_key(k) implies c1.entries[k].id
        == Some(k) by {
        assert(cache.entries.contains_key(k));
    }
}

/// Input validation precedes every collaborator call: with an empty
/// identifier, the opening decisions of read and delete answer the caller
/// at once, an empty identifier is never well formed (so the update's
/// opening decision rejects it too), and every operation of the model
/// leaves store and cache exactly as they were.
pub proof fn lemma_empty_id_rejected(store: StoreModel, cache: CacheModel, id: Seq<char>,
    input: UserView, cache_usable: bool)
    requires
        id.len() == 0,
    ensures
        read_begin_decision(id) == ReadBegin::Reject(ApiError::ClientInput),
        delete_begin_decision(id) == DeleteBegin::Reject(ApiError::ClientInput),
        !valid_id(id),
        read_model(store, cache, id, cache_usable) == (Err::<UserView, ApiError>(
            ApiError::ClientInput,
        ), cache),
        update_model(store, id, input) == (Err::<UserView, ApiError>(ApiError::ClientInput), store),
        delete_model(store, cache, id, cache_usable) == (Err::<(), ApiError>(
            ApiError::ClientInput,
        ), store, cache),
{
}

/// The update's deliberate staleness window, stated rather than hidden:
/// the baseline update never refreshes or invalidates the cache, so a
/// read after a successful update of a cached identifier still serves the
/// pre-update entry, not the canonical record just persisted. The window
/// lasts until the entry is evicted externally or overwritten.
pub proof fn lemma_update_leaves_cache_stale(store: StoreModel, cache: CacheModel, id: Seq<char>,
    input: UserView)
    requires
        valid_id(id),
        store.records.contains_key(id),
        cache.entries.contains_key(id),
    ensures
        update_model(store, id, input).0 is Ok,
        read_model(update_model(store, id, input).1, cache, id, true).0 == Ok::<
            UserView,
            ApiError,
        >(cache.entries[id]),
{
    assert(id.len() == 24);
}

/// The invalidate-on-write variant of the update: identical to
/// `update_model` but for one step, removing the cache entry for the
/// identifier on a successful update, as the delete already does. This is
/// a deviation from the baseline behaviour, kept separate and named so a
/// deployment choosing it can be held to it.
pub open spec fn update_model_invalidating(store: StoreModel, cache: CacheModel, id: Seq<char>,
    input: UserView) -> (Result<UserView, ApiError>, StoreModel, CacheModel) {
    let (answer, after) = update_model(store, id, input);
    (
        answer,
        after,
        if answer is Ok {
            CacheModel { entries: cache.entries.remove(id) }
        } else {
            cache
        },
    )
}

/// The variant closes the staleness window: after a successful
/// invalidating update, a read serves the canonical record just
/// persisted, never a stale entry.
pub proof fn lemma_invalidate_on_update_closes_gap(store: StoreModel, cache: CacheModel,
    id: Seq<char>, input: UserView)
    requires
        valid_id(id),
        store.records.contains_key(id),
    ensures
        read_model(update_model_invalidating(store, cache, id, input).1,
            update_model_invalidating(store, cache, id, input).2, id, true).0 == Ok::<
            UserView,
            ApiError,
        >(prepared_update(id, input)),
{
    assert(id.len() == 24);
}

/// Create-publish ordering: the store write comes strictly before the
/// publish attempt, so a creation whose publish is refused still leaves
/// the record persisted and retrievable by a read under the assigned
/// identifier; the publisher's verdict decides only the answer, never the
/// store; and store well-formedness is preserved.
pub proof fn lemma_create_publish_window(store: StoreModel, cache: CacheModel, input: UserView,
    new_id: Seq<char>)
    requires
        store_wf(store),
        valid_id(new_id),
        !store.records.contains_key(new_id),
        !cache.entries.contains_key(new_id),
    ensures
        create_model(store, input, new_id, false).0 == Err::<UserView, ApiError>(ApiError::Publish),
        create_model(store, input, new_id, true).0 == Ok::<UserView, ApiError>(
            prepared_update(new_id, prepared_create(input)),
        ),
        create_model(store, input, new_id, false).1 == create_model(store, input, new_id, true).1,
        create_model(store, input, new_id, false).1.records.contains_key(new_id),
        read_model(create_model(store, input, new_id, false).1, cache, new_id, true).0 == Ok::<
            UserView,
            ApiError,
        >(prepared_update(new_id, prepared_create(input))),
        store_wf(create_model(store, input, new_id, false).1),
{
    let s1 = create_model(store, input, new_id, false).1;
    assert(new_id.len() == 24);
    assert forall|k: Seq<char>| #[trigger] s1.records.contains_key(k) implies valid_id(k)
        && s1.records[k].id == Some(k) by {
        if k != new_id {
            assert(store.records.contains_key(k));
        }
    }
}

} // verus!
