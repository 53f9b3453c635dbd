use vstd::prelude::*;

verus! {

/// The error taxonomy of the service. Collaborator failures propagate up
/// through the orchestration unchanged in kind, so a caller can always tell
/// input validation, a missing record, a store failure and a publish
/// failure apart. Cache failures never appear here: the cache degrades to
/// a miss or a no-op instead.
#[derive(Clone, Copy, Debug, PartialEq, Eq, Structural)]
pub enum ApiError {
    /// An empty or malformed identifier was supplied by the caller;
    /// reported before any collaborator is contacted, or on the store's
    /// own verdict that the identifier is not well formed.
    ClientInput,
    /// A well-formed identifier with no matching record.
    NotFound,
    /// A connectivity or execution failure in the Record Store.
    Store,
    /// The creation notification could not be published; the record
    /// itself is already persisted when this is reported.
    Publish,
}

} // verus!
