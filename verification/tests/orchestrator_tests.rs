use user_service::cache_policy::absorb_cache_lookup;
use user_service::errors::ApiError;
use user_service::orchestrator::{
    create_after_store, create_finish, delete_after_store, delete_begin, list_finish,
    prepare_new_user, read_after_cache, read_after_store, read_begin, update_after_store,
    update_begin, update_finish, CreateAfterStore, DeleteAfterStore, DeleteBegin, ReadAfterCache,
    ReadBegin, ReadFinish, UpdateAfterStore, UpdateBegin,
};
use user_service::outcomes::{
    CacheLookup, CreateOutcome, DeleteOutcome, FetchOutcome, ListOutcome, PublishOutcome,
    UpdateOutcome,
};
use user_service::user::User;

const EXISTING_ID: &str = "0123456789abcdef01234567";

fn jane() -> User {
    User {
        id: None,
        first_name: "Jane".to_string(),
        last_name: "Doe".to_string(),
        email: "jane@example.com".to_string(),
    }
}

fn stored_jane() -> User {
    User {
        id: Some(EXISTING_ID.to_string()),
        first_name: "Jane".to_string(),
        last_name: "Doe".to_string(),
        email: "jane@example.com".to_string(),
    }
}

#[test]
fn test() {
    // A creation with a fresh record succeeds end to end when store and
    // publisher both accept.
    let input = User {
        id: None,
        first_name: "Jane".to_string(),
        last_name: "Doe".to_string(),
        email: "example@example.com".to_string(),
    };
    let submitted = prepare_new_user(&input);
    assert!(submitted.id.is_none());
    let persisted = User {
        id: Some(EXISTING_ID.to_string()),
        ..submitted
    };
    let step = create_after_store(CreateOutcome::Persisted(persisted));
    let persisted = match step {
        CreateAfterStore::Announce(u) => u,
        CreateAfterStore::Fail(e) => panic!("creation failed: {:?}", e),
    };
    let answer = create_finish(persisted, PublishOutcome::Accepted);
    assert!(answer.is_ok());
}

#[test]
fn create_then_list_includes_record() {
    let input = jane();
    let submitted = prepare_new_user(&input);
    assert!(submitted.id.is_none());
    assert_eq!(submitted.first_name, "Jane");
    assert_eq!(submitted.last_name, "Doe");
    assert_eq!(submitted.email, "jane@example.com");

    // The store assigns the identifier and persists.
    let persisted = stored_jane();
    let step = create_after_store(CreateOutcome::Persisted(persisted));
    let persisted = match step {
        CreateAfterStore::Announce(u) => u,
        CreateAfterStore::Fail(e) => panic!("creation failed: {:?}", e),
    };
    let answer = create_finish(persisted, PublishOutcome::Accepted).expect("creation succeeds");

    // A subsequent listing includes exactly one record with those three
    // fields and a non-null id.
    let listed = list_finish(ListOutcome::Listed(vec![answer])).expect("listing succeeds");
    assert_eq!(listed.len(), 1);
    assert!(listed[0].id.is_some());
    assert_eq!(listed[0].first_name, "Jane");
    assert_eq!(listed[0].last_name, "Doe");
    assert_eq!(listed[0].email, "jane@example.com");
}

#[test]
fn read_empty_id_rejected_before_any_collaborator() {
    match read_begin("") {
        ReadBegin::Reject(e) => assert_eq!(e, ApiError::ClientInput),
        ReadBegin::LookupCache => panic!("an empty id must not reach the cache"),
    }
}

#[test]
fn update_and_delete_empty_id_rejected() {
    match update_begin("", &jane()) {
        UpdateBegin::Reject(e) => assert_eq!(e, ApiError::ClientInput),
        UpdateBegin::Submit(_) => panic!("an empty id must not reach the store"),
    }
    match delete_begin("") {
        DeleteBegin::Reject(e) => assert_eq!(e, ApiError::ClientInput),
        DeleteBegin::Submit => panic!("an empty id must not reach the store"),
    }
}

#[test]
fn read_malformed_id_is_client_error_not_notfound() {
    // A syntactically invalid id passes the emptiness check, misses the
    // cache, and the store's verdict maps to a client input error.
    assert!(matches!(read_begin("not-a-valid-id"), ReadBegin::LookupCache));
    let cached = absorb_cache_lookup(CacheLookup::Miss);
    assert!(matches!(read_after_cache(cached), ReadAfterCache::FetchStore));
    match read_after_store(FetchOutcome::Malformed) {
        ReadFinish::Fail(e) => assert_eq!(e, ApiError::ClientInput),
        ReadFinish::ServeAndFill(_) => panic!("malformed id must not serve a record"),
    }
}

#[test]
fn update_malformed_id_rejected_before_store() {
    match update_begin("wrong-length", &jane()) {
        UpdateBegin::Reject(e) => assert_eq!(e, ApiError::ClientInput),
        UpdateBegin::Submit(_) => panic!("a malformed id must not reach the store"),
    }
}

#[test]
fn update_nonexistent_id_is_notfound_on_zero_matches() {
    let step = match update_begin(EXISTING_ID, &jane()) {
        UpdateBegin::Submit(u) => u,
        UpdateBegin::Reject(e) => panic!("well-formed id rejected: {:?}", e),
    };
    assert_eq!(step.id.as_deref(), Some(EXISTING_ID));
    match update_after_store(UpdateOutcome::Matched(0)) {
        UpdateAfterStore::Fail(e) => assert_eq!(e, ApiError::NotFound),
        UpdateAfterStore::Reread => panic!("zero matches must not be re-read"),
    }
}

#[test]
fn update_keeps_addressed_id_whatever_the_input_carries() {
    let mut input = jane();
    input.id = Some("ffffffffffffffffffffffff".to_string());
    let submitted = match update_begin(EXISTING_ID, &input) {
        UpdateBegin::Submit(u) => u,
        UpdateBegin::Reject(e) => panic!("well-formed id rejected: {:?}", e),
    };
    assert_eq!(submitted.id.as_deref(), Some(EXISTING_ID));
    assert!(matches!(
        update_after_store(UpdateOutcome::Matched(1)),
        UpdateAfterStore::Reread
    ));
    // The answer is the canonical record re-read from the store.
    let canonical = stored_jane();
    let answer = update_finish(FetchOutcome::Found(canonical)).expect("update succeeds");
    assert_eq!(answer.id.as_deref(), Some(EXISTING_ID));
}

#[test]
fn delete_twice_second_is_notfound() {
    assert!(matches!(delete_begin(EXISTING_ID), DeleteBegin::Submit));
    match delete_after_store(DeleteOutcome::Deleted(1)) {
        DeleteAfterStore::InvalidateThenOk => {}
        DeleteAfterStore::Fail(e) => panic!("first delete failed: {:?}", e),
    }
    // The record is gone; the store counts zero the second time.
    match delete_after_store(DeleteOutcome::Deleted(0)) {
        DeleteAfterStore::Fail(e) => assert_eq!(e, ApiError::NotFound),
        DeleteAfterStore::InvalidateThenOk => panic!("second delete must be not-found"),
    }
}

#[test]
fn read_twice_miss_then_hit() {
    // First read: cache miss, fetched from the store, cache filled.
    assert!(matches!(read_begin(EXISTING_ID), ReadBegin::LookupCache));
    let cached = absorb_cache_lookup(CacheLookup::Miss);
    assert!(matches!(read_after_cache(cached), ReadAfterCache::FetchStore));
    let first = match read_after_store(FetchOutcome::Found(stored_jane())) {
        ReadFinish::ServeAndFill(u) => u,
        ReadFinish::Fail(e) => panic!("first read failed: {:?}", e),
    };

    // Second read: served from the cache, no store round-trip.
    let cached = absorb_cache_lookup(CacheLookup::Hit(first.clone()));
    let second = match read_after_cache(cached) {
        ReadAfterCache::Serve(u) => u,
        ReadAfterCache::FetchStore => panic!("a cache hit must be served directly"),
    };
    assert!(first.equal_to(&second));
    assert_eq!(second.id.as_deref(), Some(EXISTING_ID));
}

#[test]
fn read_with_cache_unreachable_still_served_from_store() {
    // A backend failure is absorbed into a miss, and the store answers.
    let cached = absorb_cache_lookup(CacheLookup::Unreachable);
    assert!(cached.is_none());
    assert!(matches!(read_after_cache(cached), ReadAfterCache::FetchStore));
    match read_after_store(FetchOutcome::Found(stored_jane())) {
        ReadFinish::ServeAndFill(u) => assert!(u.equal_to(&stored_jane())),
        ReadFinish::Fail(e) => panic!("read must not surface a cache failure: {:?}", e),
    }
}

#[test]
fn read_missing_and_store_failure_map_to_their_kinds() {
    match read_after_store(FetchOutcome::Missing) {
        ReadFinish::Fail(e) => assert_eq!(e, ApiError::NotFound),
        ReadFinish::ServeAndFill(_) => panic!("a missing record must not be served"),
    }
    match read_after_store(FetchOutcome::Unavailable) {
        ReadFinish::Fail(e) => assert_eq!(e, ApiError::Store),
        ReadFinish::ServeAndFill(_) => panic!("a store failure must not serve a record"),
    }
}

#[test]
fn create_store_failure_publishes_nothing() {
    match create_after_store(CreateOutcome::Unavailable) {
        CreateAfterStore::Fail(e) => assert_eq!(e, ApiError::Store),
        CreateAfterStore::Announce(_) => panic!("nothing persisted, nothing to announce"),
    }
}

#[test]
fn create_publish_failure_leaves_record_retrievable() {
    // The store persisted; the publish is refused afterwards.
    let persisted = match create_after_store(CreateOutcome::Persisted(stored_jane())) {
        CreateAfterStore::Announce(u) => u,
        CreateAfterStore::Fail(e) => panic!("creation failed: {:?}", e),
    };
    let answer = create_finish(persisted, PublishOutcome::Refused);
    assert_eq!(answer.unwrap_err(), ApiError::Publish);

    // The record is still in the store: a read under the assigned id
    // serves it.
    match read_after_store(FetchOutcome::Found(stored_jane())) {
        ReadFinish::ServeAndFill(u) => assert!(u.equal_to(&stored_jane())),
        ReadFinish::Fail(e) => panic!("the persisted record must be readable: {:?}", e),
    }
}

#[test]
fn list_store_failure_is_server_error() {
    match list_finish(ListOutcome::Unavailable) {
        Err(e) => assert_eq!(e, ApiError::Store),
        Ok(_) => panic!("an unreachable store cannot list"),
    }
}

#[test]
fn update_store_failure_is_server_error() {
    match update_after_store(UpdateOutcome::Unavailable) {
        UpdateAfterStore::Fail(e) => assert_eq!(e, ApiError::Store),
        UpdateAfterStore::Reread => panic!("an unreachable store cannot have matched"),
    }
    match update_after_store(UpdateOutcome::Malformed) {
        UpdateAfterStore::Fail(e) => assert_eq!(e, ApiError::ClientInput),
        UpdateAfterStore::Reread => panic!("a malformed id cannot have matched"),
    }
}

#[test]
fn delete_store_verdicts_map_to_their_kinds() {
    match delete_after_store(DeleteOutcome::Malformed) {
        DeleteAfterStore::Fail(e) => assert_eq!(e, ApiError::ClientInput),
        DeleteAfterStore::InvalidateThenOk => panic!("a malformed id cannot have deleted"),
    }
    match delete_after_store(DeleteOutcome::Unavailable) {
        DeleteAfterStore::Fail(e) => assert_eq!(e, ApiError::Store),
        DeleteAfterStore::InvalidateThenOk => panic!("an unreachable store cannot have deleted"),
    }
}

#[test]
fn prepare_new_user_strips_a_caller_supplied_id() {
    let mut input = jane();
    input.id = Some(EXISTING_ID.to_string());
    let submitted = prepare_new_user(&input);
    assert!(submitted.id.is_none());
    assert_eq!(submitted.first_name, "Jane");
    assert_eq!(submitted.last_name, "Doe");
    assert_eq!(submitted.email, "jane@example.com");
}

#[test]
fn user_equality_and_clone_follow_the_fields() {
    let a = stored_jane();
    let b = a.clone();
    assert!(a.equal_to(&b));
    let mut c = a.clone();
    c.email = "other@example.com".to_string();
    assert!(!a.equal_to(&c));
    let mut d = a.clone();
    d.id = None;
    assert!(!a.equal_to(&d));
}
