use vstd::prelude::*;

verus! {

/// Most connections the pool holds at once.
pub const MAX_POOL_SIZE: u32 = 15;

/// How the connection pool is built.
#[derive(Debug)]
pub struct PoolSettings {
    pub database_url: String,
    pub max_size: u32,
}

/// Why the service cannot start.
#[derive(Clone, Copy, Debug, PartialEq, Eq, Structural)]
pub enum StartupError {
    /// No connection string was configured.
    MissingDatabaseUrl,
    /// The pool could not be built against the store.
    PoolBuildFailed,
}

/// Settings for the pool, from the configured connection string, if any.
pub fn pool_settings(database_url: Option<String>) -> (r: Result<PoolSettings, StartupError>)
    ensures
        r is Ok <==> database_url is Some,
        r matches Ok(s) ==> s.database_url@ == database_url->Some_0@ && s.max_size
            == MAX_POOL_SIZE,
        r matches Err(e) ==> e == StartupError::MissingDatabaseUrl,
{
    match database_url {
        Some(url) => Ok(PoolSettings { database_url: url, max_size: MAX_POOL_SIZE }),
        None => Err(StartupError::MissingDatabaseUrl),
    }
}

} // verus!
