//! How a server is set up before it starts.

use vstd::prelude::*;
use vstd::string::*;
use crate::text::{decimal, decimal_string};

verus! {

/// The address that the server listens on.
#[derive(Debug)]
pub struct BindParams {
    pub host: String,
    pub port: u16,
}

impl BindParams {
    /// A copy of the address.
    pub fn duplicate(&self) -> (copy: BindParams)
        ensures
            copy.host@ == self.host@,
            copy.port == self.port,
    {
        BindParams { host: self.host.clone(), port: self.port }
    }
}

impl Default for BindParams {
    /// Port 8000 of the local host.
    fn default() -> (bind: BindParams)
        ensures
            bind.host@ == "127.0.0.1"@,
            bind.port == 8000,
    {
        BindParams { host: String::from_str("127.0.0.1"), port: 8000 }
    }
}

/// The configuration of a server.
#[derive(Debug)]
pub struct ServerConfig {
    pub bind: BindParams,
    /// The name of the server, used for its fibers and in its log lines.
    /// Where none is given, one is made of the host and the port.
    pub name: Option<String>,
}

impl ServerConfig {
    /// A copy of the configuration.
    pub fn duplicate(&self) -> (copy: ServerConfig)
        ensures
            copy.bind.host@ == self.bind.host@,
            copy.bind.port == self.bind.port,
            copy.name is Some == self.name is Some,
            copy.name is Some ==> copy.name->0@ == self.name->0@,
    {
        let name = match &self.name {
            Some(name) => Some(name.clone()),
            None => None,
        };
        ServerConfig { bind: self.bind.duplicate(), name }
    }
}

impl Default for ServerConfig {
    /// The default address, and no name.
    fn default() -> (cfg: ServerConfig)
        ensures
            cfg.bind.host@ == "127.0.0.1"@,
            cfg.bind.port == 8000,
            cfg.name is None,
    {
        ServerConfig { bind: BindParams::default(), name: None }
    }
}

/// The name of a server that was given none: made of where it listens.
pub open spec fn default_server_name(bind: BindParams) -> Seq<char> {
    "weaver_http_server_"@ + bind.host@ + "_"@ + decimal(bind.port as nat)
}

/// The name that a server with the configuration `cfg` goes by.
pub open spec fn server_name(cfg: ServerConfig) -> Seq<char> {
    match cfg.name {
        Some(name) => name@,
        None => default_server_name(cfg.bind),
    }
}

/// Works out the name that a server with the configuration `cfg` goes by.
pub fn name_of(cfg: &ServerConfig) -> (name: String)
    ensures
        name@ == server_name(*cfg),
{
    match &cfg.name {
        Some(name) => name.clone(),
        None => {
            let port = decimal_string(cfg.bind.port);
            let mut name = String::from_str("weaver_http_server_");
            name.append(cfg.bind.host.as_str());
            name.append("_");
            name.append(port.as_str());
            name
        },
    }
}

} // verus!
