use vstd::prelude::*;

verus! {

/// The credentials a session is constructed from: the remote host's base
/// URL and the bearer token. Immutable once loaded; reading them from the
/// process environment is the caller's concern.
#[derive(Debug)]
pub struct Config {
    pub databricks_host: String,
    pub databricks_token: String,
}

} // verus!
