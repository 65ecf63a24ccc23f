//! What the tunnel client is started with.

use vstd::prelude::*;

verus! {

/// Where the broker's tunnel listener is reached unless told otherwise.
pub const DEFAULT_REMOTE_ADDR: &'static str = "127.0.0.1:9000";

/// Where the local service is reached unless told otherwise.
pub const DEFAULT_LOCAL_ADDR: &'static str = "127.0.0.1:8080";

/// The two addresses of the tunnel client, each a `host:port` string. They
/// are read once, at startup.
#[derive(Clone, Debug, PartialEq, Eq)]
pub struct Config {
    /// The broker's tunnel listener.
    pub remote_addr: String,
    /// The local service that the tunnel leads to.
    pub local_addr: String,
}

impl Default for Config {
    /// The configuration of a client started without arguments.
    fn default() -> (config: Self)
        ensures
            config.remote_addr@ == DEFAULT_REMOTE_ADDR@,
            config.local_addr@ == DEFAULT_LOCAL_ADDR@,
    {
        Config {
            remote_addr: DEFAULT_REMOTE_ADDR.to_owned(),
            local_addr: DEFAULT_LOCAL_ADDR.to_owned(),
        }
    }
}

} // verus!
