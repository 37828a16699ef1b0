//! Shared building blocks: the envelope, the error model, request binding
//! and the settings.

pub mod errors;
pub mod json;
pub mod resp;
pub mod text;

use vstd::prelude::*;

verus! {

/// Run mode of a process that is told none.
pub const DEFAULT_RUN_MODE: &'static str = "development";

/// Directory of the settings files, with its separator.
pub const CONFIG_DIR: &'static str = "config/";

/// The settings of the process.
#[derive(Debug, Clone, PartialEq, Eq)]
pub struct ConfigSetting {
    pub server: Server,
}

/// The settings of the HTTP listener.
#[derive(Debug, Clone, PartialEq, Eq)]
pub struct Server {
    /// The address to listen on.
    pub addr: String,
}

impl ConfigSetting {
    /// The settings with this listen address.
    pub fn new(addr: String) -> (settings: Self)
        ensures
            settings.server.addr == addr,
    {
        ConfigSetting { server: Server { addr } }
    }

    /// The address to listen on.
    pub fn listen_address(&self) -> (addr: &String)
        ensures
            *addr == self.server.addr,
    {
        &self.server.addr
    }
}

/// The name of the settings source for a run mode, without extension:
/// `config/` and the mode, the mode being `development` where none is given.
pub open spec fn spec_config_source(run_mode: Option<Seq<char>>) -> Seq<char> {
    match run_mode {
        Some(mode) => CONFIG_DIR@ + mode,
        None => CONFIG_DIR@ + DEFAULT_RUN_MODE@,
    }
}

/// The name of the settings source for a run mode.
pub fn config_source(run_mode: Option<&str>) -> (source: String)
    ensures
        source@ == spec_config_source(
            match run_mode {
                Some(mode) => Some(mode@),
                None => None,
            },
        ),
{
    match run_mode {
        Some(mode) => text::joined(CONFIG_DIR, mode),
        None => text::joined(CONFIG_DIR, DEFAULT_RUN_MODE),
    }
}

} // verus!
