//! A minimal D-Bus client core: address parsing, the SASL handshake as a
//! state machine, and the framed message codec, with the wire format and the
//! protocol rules stated as contracts.
//!
//! The library performs no I/O. A caller owns the socket, performs the reads
//! and writes that the state machines ask for, and hands the results back.

pub mod address;
pub mod connection;
pub mod error;
pub mod fdo;
pub mod guid;
pub mod message;
pub mod names;
pub mod utils;

pub use address::Address;
pub use connection::{AuthMechanism, Connection, SocketReader};
pub use error::{Error, ErrorKind, IoKind, Result};
pub use guid::Guid;
pub use message::{EndianSig, Message};
pub use utils::{padding_for_8_bytes, spec_padding_for_8_bytes};
