//! A line-oriented command relay: each client connection is paired with its
//! own upstream connection, every command line is forwarded verbatim, and a
//! single reply line is relayed back only for commands known to produce one.
//!
//! The library holds the decisions: which commands expect a reply, and the
//! per-connection state machine that turns what was read into what to do next.
//! The program around it performs the reads and writes.

pub mod bridge;
pub mod command;
