//! The settings the bridge is started with.

use vstd::prelude::*;
use crate::request::Init;

verus! {

/// The engine's network configuration, its key store directory, how long a
/// request may wait for its reply (in milliseconds), and the engine's log
/// verbosity.
#[derive(Debug, Clone)]
pub struct Config {
    pub lite_server_config: String,
    pub keystore_dir: String,
    pub request_timeout: u64,
    pub log_level: i8,
}

impl Config {
    /// The request that sets the engine up with these settings.
    pub fn init_request(&self) -> (r: Init)
        ensures
            r.lite_server_config@ == self.lite_server_config@,
            r.key_store_directory@ == self.keystore_dir@,
    {
        Init {
            lite_server_config: self.lite_server_config.clone(),
            key_store_directory: self.keystore_dir.clone(),
        }
    }
}

} // verus!
