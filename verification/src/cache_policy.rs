use vstd::prelude::*;
use crate::outcomes::CacheLookup;
use crate::user::User;

verus! {

/// The cache's error-absorbing boundary: a backend failure is treated
/// exactly like a miss, so no cache trouble ever crosses into the
/// orchestration's control flow. The cache stays a pure optimization;
/// correctness always degrades to "go to the Record Store".
pub fn absorb_cache_lookup(raw: CacheLookup) -> (r: Option<User>)
    ensures
        (raw matches CacheLookup::Hit(u) ==> r == Some(u)),
        (raw matches CacheLookup::Miss ==> r is None),
        (raw matches CacheLookup::Unreachable ==> r is None),
{
    match raw {
        CacheLookup::Hit(u) => Some(u),
        CacheLookup::Miss => None,
        CacheLookup::Unreachable => None,
    }
}

} // verus!
