//! Immutable run configuration for the server and the client.
//!
//! The command-line front end parses flags into these structs; the server
//! clones its options into each connection handler at accept time, and
//! the client clones its options into each channel worker at spawn time.

use vstd::prelude::*;

verus! {

/// Default port for both sides.
pub const DEFAULT_PORT: u16 = 8899;

/// Default number of client channels.
pub const DEFAULT_CHANNELS: usize = 1;

/// Default total number of messages over all channels.
pub const DEFAULT_MSG_TOTAL: usize = 10;

/// Default length of each message in bytes.
pub const DEFAULT_MSG_LENGTH: usize = 996;

/// Default pause between a channel's messages, in milliseconds.
pub const DEFAULT_MSG_INTERVAL_MS: usize = 1000;

/// Default bound on the wait for an acknowledgment byte, in milliseconds.
pub const DEFAULT_READ_TIMEOUT_MS: u64 = 1000;

/// Server configuration: the port to listen on and whether each received
/// message is acknowledged.
#[derive(Clone, Debug)]
pub struct ServerOpts {
    pub port: u16,
    pub ack: bool,
}

impl ServerOpts {
    /// The server's defaults: the default port, acknowledgments enabled.
    pub fn new() -> (opts: ServerOpts)
        ensures
            opts.port == DEFAULT_PORT,
            opts.ack == true,
    {
        ServerOpts { port: DEFAULT_PORT, ack: true }
    }
}

/// Client configuration: where to connect, how many channels to open,
/// and the shape and pacing of the message stream.
#[derive(Clone, Debug)]
pub struct ClientOpts {
    pub host: String,
    pub port: u16,
    pub channels: usize,
    pub msg_total: usize,
    pub msg_length: usize,
    pub msg_interval_ms: usize,
    pub read_timeout: u64,
}

impl ClientOpts {
    /// A client configuration for the given host with every other field
    /// at its default.
    pub fn new(host: String) -> (opts: ClientOpts)
        ensures
            opts.host == host,
            opts.port == DEFAULT_PORT,
            opts.channels == DEFAULT_CHANNELS,
            opts.msg_total == DEFAULT_MSG_TOTAL,
            opts.msg_length == DEFAULT_MSG_LENGTH,
            opts.msg_interval_ms == DEFAULT_MSG_INTERVAL_MS,
            opts.read_timeout == DEFAULT_READ_TIMEOUT_MS,
    {
        ClientOpts {
            host,
            port: DEFAULT_PORT,
            channels: DEFAULT_CHANNELS,
            msg_total: DEFAULT_MSG_TOTAL,
            msg_length: DEFAULT_MSG_LENGTH,
            msg_interval_ms: DEFAULT_MSG_INTERVAL_MS,
            read_timeout: DEFAULT_READ_TIMEOUT_MS,
        }
    }

    /// Each channel's share of the message budget: the total divided
    /// evenly, any remainder dropped.
    pub fn share_per_channel(&self) -> (share: usize)
        requires
            self.channels > 0,
        ensures
            share == self.msg_total / self.channels,
    {
        self.msg_total / self.channels
    }
}

} // verus!
