//! A bidirectional byte-stream relay between an interactive console and a
//! named, connection-oriented pipe endpoint.
//!
//! The library holds the decision logic of the relay: how operating-system
//! failures are classified, how the console's raw mode is computed from its
//! captured state and restored afterwards, how connecting to the endpoint is
//! retried, and how each directional pump reacts to the events its I/O calls
//! report. The I/O calls themselves live outside the library; they hand the
//! functions here plain values and carry out the actions these functions
//! decide on.

pub mod console;
pub mod error;
pub mod named_pipe;
pub mod relay;

pub use error::ErrorKind;
