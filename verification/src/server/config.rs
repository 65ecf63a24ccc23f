//! What the broker is started with.

use vstd::prelude::*;

verus! {

/// Where the broker listens for tunnel clients unless told otherwise.
pub const DEFAULT_CLIENT_LISTENER_ADDR: &'static str = "0.0.0.0:9000";

/// Where the broker listens for external clients unless told otherwise.
pub const DEFAULT_EXTERNAL_LISTENER_ADDR: &'static str = "0.0.0.0:8000";

/// The two addresses of the broker, each a `host:port` string. They are read
/// once, at startup.
#[derive(Clone, Debug, PartialEq, Eq)]
pub struct Config {
    /// The listener for tunnel clients.
    pub client_listener_addr: String,
    /// The public listener for external clients.
    pub external_listener_addr: String,
}

impl Default for Config {
    /// The configuration of a broker started without arguments.
    fn default() -> (config: Self)
        ensures
            config.client_listener_addr@ == DEFAULT_CLIENT_LISTENER_ADDR@,
            config.external_listener_addr@ == DEFAULT_EXTERNAL_LISTENER_ADDR@,
    {
        Config {
            client_listener_addr: DEFAULT_CLIENT_LISTENER_ADDR.to_owned(),
            external_listener_addr: DEFAULT_EXTERNAL_LISTENER_ADDR.to_owned(),
        }
    }
}

} // verus!
