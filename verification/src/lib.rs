//! Verified core of a serial-port line terminal.
//!
//! The crate holds the read-reconnect-frame pipeline: a fixed-capacity line
//! framer that reassembles raw read chunks into newline-terminated lines, the
//! connection lifecycle state machine (probe, connect, stream, disconnect,
//! retry), the shared control record the pipeline publishes its status to, and
//! the settings merge logic that decides what port to open. The surrounding
//! process (console, device I/O, argument parsing, interactive menus) drives
//! these verified pieces from outside.

pub mod framer;
pub mod serial;
pub mod settings;
pub mod state;
