//! Process configuration as plain values: the listening port, the database
//! URL, and the pool's sizing. The boundary reads and parses the
//! environment; the defaulting rules live here, verified.

use vstd::prelude::*;

verus! {

/// Connection-pool sizing. Durations are carried as whole seconds; zero
/// means "no limit" and is resolved away before it lands here.
pub struct PoolConfig {
    /// Maximum number of connections in the pool.
    pub max_size: usize,
    /// Timeout, in seconds, for acquiring a connection from the pool.
    pub connection_timeout_secs: u64,
    /// Maximum lifetime of a connection, in seconds; `None` means no limit.
    pub max_lifetime_secs: Option<u64>,
    /// Idle timeout for connections, in seconds; `None` means no limit.
    pub idle_timeout_secs: Option<u64>,
}

impl Default for PoolConfig {
    /// The stock pool sizing: twenty connections, half-minute acquisition
    /// timeout, half-hour lifetime, ten-minute idle timeout.
    fn default() -> (c: PoolConfig)
        ensures
            c.max_size == 20,
            c.connection_timeout_secs == 30,
            c.max_lifetime_secs == Some(1800u64),
            c.idle_timeout_secs == Some(600u64),
    {
        PoolConfig {
            max_size: 20,
            connection_timeout_secs: 30,
            max_lifetime_secs: Some(1800),
            idle_timeout_secs: Some(600),
        }
    }
}

/// Process configuration.
pub struct Config {
    pub port: u16,
    pub database_url: String,
    pub db_pool: PoolConfig,
}

/// How an optional duration setting resolves against its default: an unset
/// value takes the default, and a zero — set or defaulted — means "no
/// limit".
pub open spec fn optional_duration_spec(value: Option<u64>, default_secs: Option<u64>) -> Option<
    u64,
> {
    let v = if value is Some {
        value
    } else {
        default_secs
    };
    match v {
        Some(s) => if s == 0 {
            None
        } else {
            Some(s)
        },
        None => None,
    }
}

/// Resolves an optional duration setting against its default.
pub fn optional_duration_secs(value: Option<u64>, default_secs: Option<u64>) -> (r: Option<u64>)
    ensures
        r == optional_duration_spec(value, default_secs),
{
    let v = match value {
        Some(s) => Some(s),
        None => default_secs,
    };
    match v {
        Some(0u64) => None,
        Some(s) => Some(s),
        None => None,
    }
}

impl Config {
    /// Resolves already-parsed environment values into a configuration,
    /// applying the stock defaults wherever a value is absent.
    pub fn resolve(
        port: Option<u16>,
        database_url: Option<String>,
        max_size: Option<usize>,
        connection_timeout: Option<u64>,
        max_lifetime: Option<u64>,
        idle_timeout: Option<u64>,
    ) -> (c: Config)
        ensures
            c.port == (match port {
                Some(p) => p,
                None => 8000u16,
            }),
            database_url matches Some(u) ==> c.database_url == u,
            database_url is None ==> c.database_url@
                == "host=localhost user=postgres password=postgres dbname=rocketbackend"@,
            c.db_pool.max_size == (match max_size {
                Some(m) => m,
                None => 20usize,
            }),
            c.db_pool.connection_timeout_secs == (match connection_timeout {
                Some(t) => t,
                None => 30u64,
            }),
            c.db_pool.max_lifetime_secs == optional_duration_spec(max_lifetime, Some(1800u64)),
            c.db_pool.idle_timeout_secs == optional_duration_spec(idle_timeout, Some(600u64)),
    {
        let port = match port {
            Some(p) => p,
            None => 8000,
        };
        let database_url = match database_url {
            Some(u) => u,
            None => "host=localhost user=postgres password=postgres dbname=rocketbackend".to_owned(),
        };
        let db_pool = PoolConfig {
            max_size: match max_size {
                Some(m) => m,
                None => 20,
            },
            connection_timeout_secs: match connection_timeout {
                Some(t) => t,
                None => 30,
            },
            max_lifetime_secs: optional_duration_secs(max_lifetime, Some(1800)),
            idle_timeout_secs: optional_duration_secs(idle_timeout, Some(600)),
        };
        Config { port, database_url, db_pool }
    }
}

} // verus!
