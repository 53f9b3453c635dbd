use vstd::prelude::*;
use crate::user::User;

verus! {

/// What the Record Store reports for a fetch of one identifier.
pub enum FetchOutcome {
    /// The persisted record matching the identifier.
    Found(User),
    /// A well-formed identifier with no matching record.
    Missing,
    /// The identifier is not well formed under the store's scheme.
    Malformed,
    /// Connectivity or execution failure; nothing is known of the record.
    Unavailable,
}

/// What the Record Store reports for a creation.
pub enum CreateOutcome {
    /// The persisted form of the record, with the freshly assigned id.
    Persisted(User),
    /// Connectivity or execution failure; nothing was persisted.
    Unavailable,
}

/// What the Record Store reports for an update: a match count rather than
/// a failure when no record matches, so that a caller can tell "nothing to
/// do" from a genuine store failure.
pub enum UpdateOutcome {
    /// How many records matched the identifier: zero or one.
    Matched(u64),
    /// The identifier is not well formed under the store's scheme.
    Malformed,
    /// Connectivity or execution failure.
    Unavailable,
}

/// What the Record Store reports for a delete; count-based like the update.
pub enum DeleteOutcome {
    /// How many records were deleted: zero or one.
    Deleted(u64),
    /// The identifier is not well formed under the store's scheme.
    Malformed,
    /// Connectivity or execution failure.
    Unavailable,
}

/// What the Record Store reports for a full listing.
pub enum ListOutcome {
    /// Every record, in an order of the store's choosing.
    Listed(Vec<User>),
    /// Connectivity or execution failure.
    Unavailable,
}

/// What the Event Publisher reports for a publish attempt.
#[derive(Clone, Copy, Debug, PartialEq, Eq, Structural)]
pub enum PublishOutcome {
    /// The broker accepted the publish.
    Accepted,
    /// The publish failed outright.
    Refused,
}

/// What one lookup against the cache backend came to, before the
/// error-absorbing policy is applied.
pub enum CacheLookup {
    /// A cached value was present under the key.
    Hit(User),
    /// The backend answered and had no value under the key.
    Miss,
    /// The backend could not be reached or failed; no value was obtained.
    Unreachable,
}

} // verus!
