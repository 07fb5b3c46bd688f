//! The settings that the service is started with.

use vstd::prelude::*;

verus! {

/// The number of database connections that are kept at most, unless the
/// settings say otherwise.
pub const DEFAULT_DB_MAX_CONNECTIONS: u32 = 10;

/// The number of database connections that are kept at least, unless the
/// settings say otherwise.
pub const DEFAULT_DB_MIN_CONNECTIONS: u32 = 0;

/// The settings of the service.
#[derive(Debug)]
pub struct Config {
    /// Where the database is reached.
    pub database_url: String,
    /// The key with which session tokens are signed.
    pub hmac_key: String,
    pub db_max_connections: u32,
    pub db_min_connections: u32,
}

impl Config {
    /// The settings for a database and a signing key, with the default bounds
    /// on the number of connections.
    pub fn new(database_url: String, hmac_key: String) -> (config: Config)
        ensures
            config.database_url@ == database_url@,
            config.hmac_key@ == hmac_key@,
            config.db_max_connections == DEFAULT_DB_MAX_CONNECTIONS,
            config.db_min_connections == DEFAULT_DB_MIN_CONNECTIONS,
    {
        Config {
            database_url,
            hmac_key,
            db_max_connections: DEFAULT_DB_MAX_CONNECTIONS,
            db_min_connections: DEFAULT_DB_MIN_CONNECTIONS,
        }
    }
}

} // verus!
