use vstd::prelude::*;
use crate::errors::ApiError;
use crate::object_id::{is_well_formed_id, valid_id};
use crate::outcomes::{CreateOutcome, DeleteOutcome, FetchOutcome, ListOutcome, PublishOutcome,
    UpdateOutcome};
use crate::user::{User, UserView};

verus! {

// The orchestration is a stateless coordinator: each operation is a short
// protocol of decisions between calls to the Record Store, the Cache and
// the Event Publisher. The caller performs each collaborator call and
// hands its outcome back; every decision in between is made here, under
// an exact contract. The caller must follow the order the decisions
// dictate: for a read, the cache lookup strictly before the store fetch
// and the store fetch strictly before the cache fill; for a creation, the
// store write strictly before the publish attempt; for a delete, the
// store delete strictly before the cache invalidation.

/// First decision of a read: an empty identifier is rejected as a client
/// input error before any collaborator is contacted.
pub enum ReadBegin {
    /// Answer the caller at once; nothing else may be contacted.
    Reject(ApiError),
    /// Look the identifier up in the cache next.
    LookupCache,
}

/// Second decision of a read, after the cache lookup.
pub enum ReadAfterCache {
    /// A cache hit is trusted once present: serve it, without consulting
    /// the store.
    Serve(User),
    /// A miss: fetch from the Record Store next.
    FetchStore,
}

/// Last decision of a read on the cache-miss path, after the store fetch.
pub enum ReadFinish {
    /// Serve the fetched record, and fill the cache under the requested
    /// identifier with this same record: the fill happens only after the
    /// store confirmed the record exists, and the fill is best-effort.
    ServeAndFill(User),
    /// Answer the caller with the error.
    Fail(ApiError),
}

/// What `read_begin` decides, as a function of the identifier.
pub open spec fn read_begin_decision(id: Seq<char>) -> ReadBegin {
    if id.len() == 0 {
        ReadBegin::Reject(ApiError::ClientInput)
    } else {
        ReadBegin::LookupCache
    }
}

/// Opens a read. Rejects an empty identifier before any collaborator is
/// contacted; everything else goes to the cache first.
pub fn read_begin(id: &str) -> (r: ReadBegin)
    ensures
        r == read_begin_decision(id@),
{
    if id.is_empty() {
        ReadBegin::Reject(ApiError::ClientInput)
    } else {
        ReadBegin::LookupCache
    }
}

/// Continues a read after the cache lookup: a hit is served as it stands,
/// a miss goes to the Record Store.
pub fn read_after_cache(cached: Option<User>) -> (r: ReadAfterCache)
    ensures
        (cached matches Some(u) ==> r == ReadAfterCache::Serve(u)),
        (cached is None ==> r == ReadAfterCache::FetchStore),
{
    match cached {
        Some(u) => ReadAfterCache::Serve(u),
        None => ReadAfterCache::FetchStore,
    }
}

/// Finishes a read on the cache-miss path. A found record is served and
/// becomes the cache fill; the store's verdicts map to the error taxonomy
/// unchanged in kind: a malformed identifier is the caller's error, a
/// missing record is not found, a store failure is a server-side failure.
pub fn read_after_store(fetched: FetchOutcome) -> (r: ReadFinish)
    ensures
        (fetched matches FetchOutcome::Found(u) ==> r == ReadFinish::ServeAndFill(u)),
        (fetched matches FetchOutcome::Missing ==> r == ReadFinish::Fail(ApiError::NotFound)),
        (fetched matches FetchOutcome::Malformed ==> r == ReadFinish::Fail(ApiError::ClientInput)),
        (fetched matches FetchOutcome::Unavailable ==> r == ReadFinish::Fail(ApiError::Store)),
{
    match fetched {
        FetchOutcome::Found(u) => ReadFinish::ServeAndFill(u),
        FetchOutcome::Missing => ReadFinish::Fail(ApiError::NotFound),
        FetchOutcome::Malformed => ReadFinish::Fail(ApiError::ClientInput),
        FetchOutcome::Unavailable => ReadFinish::Fail(ApiError::Store),
    }
}

/// The record as a creation submits it to the store: the identifier is
/// stripped (the store alone assigns identifiers), the three text fields
/// carried unchanged.
pub open spec fn prepared_create(u: UserView) -> UserView {
    UserView { id: None, first_name: u.first_name, last_name: u.last_name, email: u.email }
}

/// Opens a creation: builds the form of the record handed to the Record
/// Store, with no identifier of the caller's making.
pub fn prepare_new_user(input: &User) -> (r: User)
    ensures
        r@ == prepared_create(input@),
{
    User {
        id: None,
        first_name: input.first_name.clone(),
        last_name: input.last_name.clone(),
        email: input.email.clone(),
    }
}

/// Decision after the store write of a creation.
pub enum CreateAfterStore {
    /// The record is persisted: publish the creation notification next,
    /// for the input record, and keep the persisted form for the answer.
    /// The store write is ordered strictly before the publish attempt.
    Announce(User),
    /// Answer the caller with the error; nothing is published.
    Fail(ApiError),
}

/// Continues a creation after the store write.
pub fn create_after_store(outcome: CreateOutcome) -> (r: CreateAfterStore)
    ensures
        (outcome matches CreateOutcome::Persisted(u) ==> r == CreateAfterStore::Announce(u)),
        (outcome matches CreateOutcome::Unavailable ==> r == CreateAfterStore::Fail(
            ApiError::Store,
        )),
{
    match outcome {
        CreateOutcome::Persisted(u) => CreateAfterStore::Announce(u),
        CreateOutcome::Unavailable => CreateAfterStore::Fail(ApiError::Store),
    }
}

/// Finishes a creation after the publish attempt. A refused publish fails
/// the whole operation even though the record is already persisted: the
/// notification is a required side effect, and the persisted-but-not-
/// notified window is reported distinguishably as a publish error.
pub fn create_finish(persisted: User, published: PublishOutcome) -> (r: Result<User, ApiError>)
    ensures
        published == PublishOutcome::Accepted ==> r == Ok::<User, ApiError>(persisted),
        published == PublishOutcome::Refused ==> r == Err::<User, ApiError>(ApiError::Publish),
{
    match published {
        PublishOutcome::Accepted => Ok(persisted),
        PublishOutcome::Refused => Err(ApiError::Publish),
    }
}

/// First decision of an update: an empty identifier is rejected before any
/// collaborator is contacted, and a malformed one before the store is
/// asked to do any work.
pub enum UpdateBegin {
    /// Answer the caller at once; nothing else may be contacted.
    Reject(ApiError),
    /// Submit this record to the Record Store's update.
    Submit(User),
}

/// The record as an update submits it to the store: the identifier is the
/// one the caller addressed, whatever identifier the input record carried;
/// the three text fields come from the input.
pub open spec fn prepared_update(id: Seq<char>, u: UserView) -> UserView {
    UserView { id: Some(id), first_name: u.first_name, last_name: u.last_name, email: u.email }
}

/// Opens an update. The identifier must be non-empty and well formed under
/// the store's scheme before the store is called; the submitted record
/// carries that identifier, never one taken from the input record.
pub fn update_begin(id: &str, input: &User) -> (r: UpdateBegin)
    ensures
        !valid_id(id@) ==> r == UpdateBegin::Reject(ApiError::ClientInput),
        valid_id(id@) ==> (r matches UpdateBegin::Submit(u) && u@ == prepared_update(
            id@,
            input@,
        )),
{
    if id.is_empty() {
        return UpdateBegin::Reject(ApiError::ClientInput);
    }
    if !is_well_formed_id(id) {
        return UpdateBegin::Reject(ApiError::ClientInput);
    }
    UpdateBegin::Submit(
        User {
            id: Some(id.to_owned()),
            first_name: input.first_name.clone(),
            last_name: input.last_name.clone(),
            email: input.email.clone(),
        },
    )
}

/// Decision after the store's update report.
pub enum UpdateAfterStore {
    /// Exactly one record matched: re-read the canonical record from the
    /// store, so the answer reflects what was persisted, not the input
    /// echoed back.
    Reread,
    /// Answer the caller with the error.
    Fail(ApiError),
}

/// What `update_after_store` decides, as a function of the store's report.
pub open spec fn update_store_decision(reported: UpdateOutcome) -> UpdateAfterStore {
    match reported {
        UpdateOutcome::Matched(n) => if n == 1 {
            UpdateAfterStore::Reread
        } else {
            UpdateAfterStore::Fail(ApiError::NotFound)
        },
        UpdateOutcome::Malformed => UpdateAfterStore::Fail(ApiError::ClientInput),
        UpdateOutcome::Unavailable => UpdateAfterStore::Fail(ApiError::Store),
    }
}

/// Continues an update after the store reported its match count.
pub fn update_after_store(reported: UpdateOutcome) -> (r: UpdateAfterStore)
    ensures
        r == update_store_decision(reported),
{
    match reported {
        UpdateOutcome::Matched(n) => if n == 1 {
            UpdateAfterStore::Reread
        } else {
            UpdateAfterStore::Fail(ApiError::NotFound)
        },
        UpdateOutcome::Malformed => UpdateAfterStore::Fail(ApiError::ClientInput),
        UpdateOutcome::Unavailable => UpdateAfterStore::Fail(ApiError::Store),
    }
}

/// Finishes an update with the canonical record re-read from the store.
pub fn update_finish(reread: FetchOutcome) -> (r: Result<User, ApiError>)
    ensures
        (reread matches FetchOutcome::Found(u) ==> r == Ok::<User, ApiError>(u)),
        (reread matches FetchOutcome::Missing ==> r == Err::<User, ApiError>(ApiError::NotFound)),
        (reread matches FetchOutcome::Malformed ==> r == Err::<User, ApiError>(
            ApiError::ClientInput,
        )),
        (reread matches FetchOutcome::Unavailable ==> r == Err::<User, ApiError>(ApiError::Store)),
{
    match reread {
        FetchOutcome::Found(u) => Ok(u),
        FetchOutcome::Missing => Err(ApiError::NotFound),
        FetchOutcome::Malformed => Err(ApiError::ClientInput),
        FetchOutcome::Unavailable => Err(ApiError::Store),
    }
}

/// First decision of a delete: an empty identifier is rejected before any
/// collaborator is contacted.
pub enum DeleteBegin {
    /// Answer the caller at once; nothing else may be contacted.
    Reject(ApiError),
    /// Submit the identifier to the Record Store's delete.
    Submit,
}

/// What `delete_begin` decides, as a function of the identifier.
pub open spec fn delete_begin_decision(id: Seq<char>) -> DeleteBegin {
    if id.len() == 0 {
        DeleteBegin::Reject(ApiError::ClientInput)
    } else {
        DeleteBegin::Submit
    }
}

/// Opens a delete. Only emptiness is checked here: the store itself rules
/// on well-formedness and reports a malformed identifier as such.
pub fn delete_begin(id: &str) -> (r: DeleteBegin)
    ensures
        r == delete_begin_decision(id@),
{
    if id.is_empty() {
        DeleteBegin::Reject(ApiError::ClientInput)
    } else {
        DeleteBegin::Submit
    }
}

/// Decision after the store's delete report.
pub enum DeleteAfterStore {
    /// Exactly one record was deleted: best-effort remove the cache entry
    /// for the identifier, then answer success. The store delete is
    /// ordered strictly before the cache removal.
    InvalidateThenOk,
    /// Answer the caller with the error; the cache is left alone.
    Fail(ApiError),
}

/// What `delete_after_store` decides, as a function of the store's report.
pub open spec fn delete_store_decision(reported: DeleteOutcome) -> DeleteAfterStore {
    match reported {
        DeleteOutcome::Deleted(n) => if n == 1 {
            DeleteAfterStore::InvalidateThenOk
        } else {
            DeleteAfterStore::Fail(ApiError::NotFound)
        },
        DeleteOutcome::Malformed => DeleteAfterStore::Fail(ApiError::ClientInput),
        DeleteOutcome::Unavailable => DeleteAfterStore::Fail(ApiError::Store),
    }
}

/// Continues a delete after the store reported its delete count.
pub fn delete_after_store(reported: DeleteOutcome) -> (r: DeleteAfterStore)
    ensures
        r == delete_store_decision(reported),
{
    match reported {
        DeleteOutcome::Deleted(n) => if n == 1 {
            DeleteAfterStore::InvalidateThenOk
        } else {
            DeleteAfterStore::Fail(ApiError::NotFound)
        },
        DeleteOutcome::Malformed => DeleteAfterStore::Fail(ApiError::ClientInput),
        DeleteOutcome::Unavailable => DeleteAfterStore::Fail(ApiError::Store),
    }
}

/// Finishes a listing: the store's materialized result is handed through
/// untouched, with no caching, and a store failure is a server-side error.
pub fn list_finish(outcome: ListOutcome) -> (r: Result<Vec<User>, ApiError>)
    ensures
        (outcome matches ListOutcome::Listed(v) ==> r == Ok::<Vec<User>, ApiError>(v)),
        (outcome matches ListOutcome::Unavailable ==> r == Err::<Vec<User>, ApiError>(
            ApiError::Store,
        )),
{
    match outcome {
        ListOutcome::Listed(v) => Ok(v),
        ListOutcome::Unavailable => Err(ApiError::Store),
    }
}

} // verus!
