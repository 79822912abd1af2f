//! Process configuration: the values the server bootstrap needs to bind
//! and size itself.

use vstd::prelude::*;

verus! {

/// Where the server listens and how many workers it runs.
#[derive(Debug, Clone, PartialEq, Eq)]
pub struct ServerConfig {
    pub host: String,
    pub port: u16,
    pub workers: usize,
}

/// A configuration that could not be loaded. The defaults always load, so
/// nothing produces this value today; a future source (environment, file)
/// would.
#[derive(Debug, Clone, PartialEq, Eq)]
pub struct ConfigError;

/// Relies on num_cpus::get: the number of available logical CPUs; its
/// documentation promises at least one.
#[verifier::external_body]
fn cpu_count() -> (r: usize)
    ensures
        1 <= r,
{
    num_cpus::get()
}

impl Default for ServerConfig {
    /// The local loopback address on the conventional port, with one
    /// worker per available CPU.
    fn default() -> (r: Self)
        ensures
            r.host@ == "127.0.0.1"@,
            r.port == 8080,
            1 <= r.workers,
    {
        ServerConfig { host: "127.0.0.1".to_owned(), port: 8080, workers: cpu_count() }
    }
}

/// Loads the configuration. Today only the defaults exist, so this always
/// succeeds with them.
pub fn load_config() -> (r: Result<ServerConfig, ConfigError>)
    ensures
        match r {
            Ok(c) => c.host@ == "127.0.0.1"@ && c.port == 8080 && 1 <= c.workers,
            Err(_) => false,
        },
{
    Ok(ServerConfig::default())
}

} // verus!
