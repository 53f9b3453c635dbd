use vstd::prelude::*;

verus! {

// The Event Publisher's topology, scoped to the one entity type: a
// direct-routed exchange, one queue bound to it, and a fixed routing key.
// The publisher declares the triple idempotently on every publish, so the
// names must never drift between declaration and publish.

/// The name of the direct exchange creation notifications go to.
pub fn created_exchange() -> (r: &'static str)
    ensures
        r@ == "rust-user"@,
{
    "rust-user"
}

/// The name of the queue bound to the exchange for creation notifications.
pub fn created_queue() -> (r: &'static str)
    ensures
        r@ == "rust-user-created"@,
{
    "rust-user-created"
}

/// The routing key creation notifications are published under.
pub fn created_routing_key() -> (r: &'static str)
    ensures
        r@ == "rust-user.created"@,
{
    "rust-user.created"
}

} // verus!
