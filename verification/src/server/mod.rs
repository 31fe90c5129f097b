//! The server: configuration, client messages, the handshake and the
//! per-connection service.
use vstd::prelude::*;

pub mod controller;
pub mod message;
pub mod service;

use crate::text::{decimal, decimal_string};

verus! {

/// What the program was asked to do.
#[derive(Debug, Clone, Copy, PartialEq, Eq, Structural)]
pub enum Mode {
    Help,
    Version,
    Server,
}

/// The program's configuration.
#[derive(Debug, Clone, PartialEq, Eq)]
pub struct Config {
    pub mode: Option<Mode>,
    /// The host to listen on; `0.0.0.0` when absent.
    pub host: Option<String>,
    /// The port to listen on; 8080 when absent.
    pub port: Option<u16>,
    /// How long a new connection has for its handshake, in milliseconds.
    pub handshake_timeout: Option<u64>,
}

/// The host the server listens on.
pub open spec fn listen_host(c: Config) -> Seq<char> {
    match c.host {
        Some(h) => h@,
        None => "0.0.0.0"@,
    }
}

/// The port the server listens on.
pub open spec fn listen_port(c: Config) -> nat {
    match c.port {
        Some(p) => p as nat,
        None => 8080,
    }
}

/// The server, reading its configuration.
pub struct Server<'a> {
    config: &'a Config,
}

impl<'a> Server<'a> {
    /// A server with the given configuration.
    pub fn new(config: &'a Config) -> (res: Server<'a>)
        ensures
            *res.config() == *config,
    {
        Server { config: config }
    }

    /// The configuration of the server.
    pub closed spec fn config(&self) -> &'a Config {
        self.config
    }

    /// The address to listen on: `<host>:<port>`, with the defaults for what
    /// the configuration leaves out.
    pub fn get_address(&self) -> (res: String)
        ensures
            res@ == listen_host(*self.config()) + ":"@ + decimal(listen_port(*self.config())),
    {
        let mut address = match &self.config.host {
            Some(host) => host.clone(),
            None => String::from_str("0.0.0.0"),
        };
        let port: u16 = match self.config.port {
            Some(port) => port,
            None => 8080,
        };
        address.append(":");
        let digits = decimal_string(port as u64);
        address.append(digits.as_str());
        address
    }
}

} // verus!
