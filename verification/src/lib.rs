//! Verified core of a terminal-session broker: a bounded output ring with
//! cursor-based reads, the Telnet option-negotiation state machine, advisory
//! session locks, the session registry, and the command-execution marker
//! protocol.

pub mod buffer;
pub mod config;
pub mod encoding;
pub mod errors;
pub mod exec;
pub mod facade;
pub mod keys;
pub mod locks;
pub mod manager;
pub mod negotiator;
pub mod pattern;
pub mod read;
pub mod session;
pub mod ssh;
pub mod telnet;
pub mod text;

pub use buffer::OutputBuffer;
