//! Startup configuration decisions.
//!
//! The service reads one required configuration value, the database
//! connection string, from its process environment. The read itself is I/O
//! and happens in the embedding binary; the decision of whether the process
//! may start is made here.

use vstd::prelude::*;

verus! {

/// Why the process refused to start.
#[derive(Debug, PartialEq, Eq, Structural)]
pub enum StartupError {
    /// The required database connection string was not configured.
    MissingDatabaseUrl,
}

/// Accepts or rejects the configured connection string: a present value is
/// handed back unchanged, an absent one is fatal, so no listener is ever
/// bound without a configured store.
pub fn require_database_url(value: Option<String>) -> (r: Result<String, StartupError>)
    ensures
        value matches Some(url) ==> (r matches Ok(u) && u@ == url@),
        value is None ==> (r matches Err(e) && e is MissingDatabaseUrl),
{
    match value {
        Some(url) => Ok(url),
        None => Err(StartupError::MissingDatabaseUrl),
    }
}

} // verus!
