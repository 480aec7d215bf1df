//! Settings of the application.

use vstd::prelude::*;

verus! {

/// Port that the gateway listens on unless told otherwise.
pub const DEFAULT_PORT: u16 = 8000;

/// Settings of the application.
#[derive(Debug, Clone)]
pub struct Config {
    pub server_port: u16,
    pub auto_start_server: bool,
}

impl Default for Config {
    fn default() -> (config: Self)
        ensures
            config.server_port == DEFAULT_PORT,
            config.auto_start_server,
    {
        Config { server_port: DEFAULT_PORT, auto_start_server: true }
    }
}

} // verus!
