//! A non-blocking, ordered, reliable byte-stream adapter over an ARQ engine
//! running on an unreliable datagram substrate.
//!
//! The engine itself (segment format, sliding windows, retransmission) is an
//! external collaborator; this crate holds the adapter layer around it: the
//! datagram demultiplexing, session lifecycle, read buffering, write
//! backpressure, update-timer scheduling and output-sink discipline, each with
//! a verified contract.

pub mod config;
pub mod datagram;
pub mod session;
pub mod sink;
pub mod table;
pub mod connect;
