//! The application context: the configuration value and the pooled database
//! handle that the repositories carry. The pool itself is opaque here; only
//! the surrounding program opens connections on it.

use vstd::prelude::*;

use crate::config::Config;

verus! {

/// Holds an `r2d2` connection pool over the SQLite manager of `r2d2_sqlite`.
/// The pool's type cannot be named here directly — its declaration carries an
/// outside trait bound — so the whole holder is opaque; nothing inside it is
/// visible, and only the surrounding program touches the pool.
#[verifier::external_body]
#[derive(Debug)]
pub struct DbPool {
    pub pool: r2d2::Pool<r2d2_sqlite::SqliteConnectionManager>,
}

impl Clone for DbPool {
    /// Relies on `r2d2::Pool::clone`: a pool is a shared handle, and cloning
    /// yields another handle to the same pool. Nothing about the handle is
    /// visible here, so nothing is stated.
    #[verifier::external_body]
    fn clone(&self) -> (r: DbPool) {
        DbPool { pool: self.pool.clone() }
    }
}

/// What every component of the application is constructed with.
#[derive(Debug)]
pub struct AppContext {
    pub config: Config,
    /// Pooled handles to the SQLite database.
    pub db: DbPool,
}

impl Clone for AppContext {
    fn clone(&self) -> (r: AppContext)
        ensures
            r.config == self.config,
    {
        AppContext { config: self.config.clone(), db: self.db.clone() }
    }
}

} // verus!
