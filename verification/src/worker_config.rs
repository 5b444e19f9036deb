//! Settings of the worker service, which keeps the read model up to date.

use vstd::prelude::*;

verus! {

/// Settings of the worker service.
#[derive(Debug, Clone, PartialEq, Eq)]
pub struct AppConfig {
    pub port: u16,
    pub eventstore_url: String,
    pub redis_url: String,
    pub redis_channel: String,
    pub couchbase_url: String,
    pub couchbase_username: String,
    pub couchbase_password: String,
    pub couchbase_bucket: String,
    pub sentry_dsn: String,
}

} // verus!
