//! The store writer's fixed parameters: pool bound and insert statement.

use vstd::prelude::*;

verus! {

/// The bound on concurrently checked-out store connections; requests beyond
/// it wait on the pool's internal queue.
pub const STORE_POOL_CAPACITY: u32 = 5;

/// The parameterized insert statement. The content always travels as a bound
/// parameter — it is never spliced into the statement text, so the statement
/// the caller executes is exactly this constant.
pub fn insert_statement() -> (s: &'static str)
    ensures
        s@ == "INSERT INTO messages (content) VALUES ($1)"@,
{
    "INSERT INTO messages (content) VALUES ($1)"
}

} // verus!
