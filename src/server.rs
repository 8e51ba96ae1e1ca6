use vstd::prelude::*;

use crate::handler::{ConnState, HandlerModel, WSServerHandler};

verus! {

/// The watchdog period a new server starts with, in milliseconds.
pub const DEFAULT_WDT_PERIOD_MS: u64 = 30000;

/// A server's configuration as mathematical values.
pub struct ServerModel {
    pub max_connections: nat,
    pub port: u16,
    pub wdt_period_ms: u64,
}

/// A server's configuration: the admission cap, the port to listen on and
/// the watchdog period handed to each connection accepted from now on.
#[derive(Clone, Copy)]
pub struct WSServer {
    max_connections: usize,
    port: u16,
    wdt_period_ms: u64,
}

impl View for WSServer {
    type V = ServerModel;

    closed spec fn view(&self) -> ServerModel {
        ServerModel {
            max_connections: self.max_connections as nat,
            port: self.port,
            wdt_period_ms: self.wdt_period_ms,
        }
    }
}

impl WSServer {
    /// A server for at most `max_connections` clients on `port`, with the
    /// default watchdog period. No I/O happens here.
    pub fn new(max_connections: u32, port: u16) -> (r: WSServer)
        ensures
            r@ == (ServerModel {
                max_connections: max_connections as nat,
                port,
                wdt_period_ms: DEFAULT_WDT_PERIOD_MS,
            }),
    {
        WSServer { max_connections: max_connections as usize, port, wdt_period_ms: DEFAULT_WDT_PERIOD_MS }
    }

    /// Sets the watchdog period for connections accepted after this call.
    pub fn set_wdt_period(&mut self, ms: u64)
        ensures
            final(self)@ == (ServerModel { wdt_period_ms: ms, ..old(self)@ }),
    {
        self.wdt_period_ms = ms;
    }

    /// The handler for a newly accepted connection: it starts before its
    /// handshake, counted as idle, with the watchdog period the server holds
    /// now, which stays fixed for the life of the connection.
    pub fn new_handler(&self) -> (r: WSServerHandler)
        ensures
            r@ == (HandlerModel {
                state: ConnState::Connecting,
                idle: true,
                period: self@.wdt_period_ms,
            }),
    {
        WSServerHandler::new(self.wdt_period_ms)
    }

    /// The most clients served at once.
    pub fn max_connections(&self) -> (r: usize)
        ensures
            r as nat == self@.max_connections,
    {
        self.max_connections
    }

    /// The port the server listens on.
    pub fn port(&self) -> (r: u16)
        ensures
            r == self@.port,
    {
        self.port
    }

    /// The watchdog period, in milliseconds, that new connections get.
    pub fn wdt_period_ms(&self) -> (r: u64)
        ensures
            r == self@.wdt_period_ms,
    {
        self.wdt_period_ms
    }
}

} // verus!
