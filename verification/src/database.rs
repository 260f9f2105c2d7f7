//! Settings of the connection pool, and the rule for connecting at startup.
//!
//! Requests share a bounded pool of connections to the store. The pool is
//! opened once, when the program starts; a failure to open it is tried again
//! a bounded number of times before the program gives up. A failure of the
//! store while a request is served is not tried again.

use vstd::prelude::*;

verus! {

/// The number of connections in the pool when none is asked for.
pub const DEFAULT_DATABASE_POOL_SIZE: u32 = 10;

/// How many attempts to open the pool are made at startup, at most.
pub const MAX_CONNECT_ATTEMPTS: u32 = 3;

/// The number of connections in the pool: the one asked for, if any.
pub fn pool_size(requested: Option<u32>) -> (size: u32)
    ensures
        size == match requested {
            Some(wanted) => wanted,
            None => DEFAULT_DATABASE_POOL_SIZE,
        },
{
    match requested {
        Some(wanted) => wanted,
        None => DEFAULT_DATABASE_POOL_SIZE,
    }
}

/// Whether to try opening the pool again after `failed` attempts have failed.
pub fn try_again(failed: u32) -> (again: bool)
    ensures
        again == (failed < MAX_CONNECT_ATTEMPTS),
{
    failed < MAX_CONNECT_ATTEMPTS
}

} // verus!
