use vstd::prelude::*;

pub mod api;
pub mod module;
pub mod text;

verus! {

/// Shared application state handed to every request handler: the database pool.
#[derive(Clone)]
pub struct AppState<P> {
    db_pool: P,
}

impl<P> AppState<P> {
    pub closed spec fn pool(&self) -> P {
        self.db_pool
    }

    /// Wraps a connection pool.
    pub fn new(db_pool: P) -> (state: Self)
        ensures
            state.pool() == db_pool,
    {
        Self { db_pool }
    }

    /// The connection pool that every handler queries through.
    pub fn db_pool(&self) -> (pool: &P)
        ensures
            *pool == self.pool(),
    {
        &self.db_pool
    }
}

} // verus!
