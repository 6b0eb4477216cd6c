//! Core logic of a TCP throughput-and-reliability probe.
//!
//! A server accepts connections and optionally acknowledges each received
//! message with a single byte; a client opens one or more concurrent
//! channels, sends fixed-size messages at a fixed rate, and aggregates
//! per-channel counters into a final report.
//!
//! This crate holds the verified core: the one-byte acknowledgment
//! protocol, the metrics accumulation and aggregation, and the decision
//! logic of the server's connection handler and the client's channel
//! worker. The surrounding I/O (sockets, threads, timers, command line)
//! lives outside the library and drives these functions with plain values.

pub mod ack;
pub mod channel;
pub mod config;
pub mod handler;
pub mod metrics;
