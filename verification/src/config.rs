//! Configuration records for the proxy service and for a remote client.

use vstd::prelude::*;

verus! {

/// Settings for running the coordination service: the listen address for the
/// RPC surface, the data-store connection string, and whether the node runs
/// without a local worker (coordination-only).
pub struct ServiceConfig {
    pub url: String,
    pub db_dsn: String,
    pub disable_worker: bool,
}

impl ServiceConfig {
    pub fn new(url: String, db_dsn: String, disable_worker: bool) -> (r: Self)
        ensures
            r.url == url,
            r.db_dsn == db_dsn,
            r.disable_worker == disable_worker,
    {
        Self { url, db_dsn, disable_worker }
    }
}

/// Settings for a remote worker client: the address of the service it polls.
pub struct ClientConfig {
    pub url: String,
}

impl ClientConfig {
    pub fn new(url: String) -> (r: Self)
        ensures
            r.url == url,
    {
        ClientConfig { url }
    }
}

} // verus!
