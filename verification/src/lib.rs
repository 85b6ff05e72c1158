//! Client side of a length-framed multiplexing control protocol.
//!
//! - [`protocol`]: the wire codec, message by message, and the frame
//!   buffer.
//! - [`control`]: the engine that gives requests their ids and holds each
//!   answer against the request that is outstanding.
//! - [`command`]: a command to run remotely, its streams and its session.
//! - [`error`]: what can go wrong, and [`text`]: how it is told.
//!
//! Nothing here reads or writes a socket: the library turns values into
//! bytes to send and received bytes into values, and is verified to do so
//! as its contracts say.

pub mod command;
pub mod control;
pub mod error;
pub mod protocol;
pub mod text;

pub use control::{SshControl, State};
pub use error::{Error, Result};
pub use protocol::client::{self, MuxMessage};
pub use protocol::server::{self, MuxResponse};
pub use protocol::{Hello, Packet, Wire};
