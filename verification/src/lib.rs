//! The core of a TLS stub server: a scripted rotation of canned HTTP/1.0
//! responses and the per-connection protocol that serves them.
//!
//! Everything here is free of I/O. A server binds the socket, performs the
//! handshake, reads and writes; it reports each result to a [`Connection`] as
//! an [`Event`] and carries out the [`Action`] that comes back.

pub mod connection;
pub mod decimal;
pub mod reason;
pub mod response;
pub mod rotation;
pub mod text;

pub use connection::{Action, Connection, Event, Outcome, Phase, READ_LIMIT};
pub use response::{frame_response, render, UnknownStatus};
pub use rotation::{default_response, pair_entries, ResponseEntry, Rotator};
pub use text::{body_from_contents, request_text};
