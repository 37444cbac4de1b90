//! Repository handles over the application context. The SQL that reads and
//! writes their tables lives with the surrounding program; these types carry
//! the context and the row-value conversions the engine verifies live on the
//! row types themselves.

use vstd::prelude::*;

use crate::context::AppContext;

verus! {

/// Handle to the watchers table.
pub struct WatcherRepo {
    pub ctx: AppContext,
}

impl WatcherRepo {
    pub fn new(ctx: AppContext) -> (r: WatcherRepo)
        ensures
            r.ctx == ctx,
    {
        WatcherRepo { ctx }
    }
}

/// Handle to the users table.
pub struct UserRepo {
    pub ctx: AppContext,
}

impl UserRepo {
    pub fn new(ctx: AppContext) -> (r: UserRepo)
        ensures
            r.ctx == ctx,
    {
        UserRepo { ctx }
    }
}

/// Handle to the transfer log.
pub struct TransferRepo {
    pub ctx: AppContext,
}

impl TransferRepo {
    pub fn new(ctx: AppContext) -> (r: TransferRepo)
        ensures
            r.ctx == ctx,
    {
        TransferRepo { ctx }
    }
}

} // verus!
