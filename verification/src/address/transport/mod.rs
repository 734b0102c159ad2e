//! D-Bus transport Information module.
//!
//! This module provides the transport information for D-Bus addresses.

use vstd::prelude::*;
use vstd::string::StringSliceAdditionalSpecFns;

use crate::address::options::Options;
use crate::connection::command::bytes_eq;
use crate::error::Error;

pub mod unix;

pub use unix::{Unix, UnixSocket, UnixSocketView};
use unix::spec_unix_socket;

verus! {

/// The name of a Unix domain socket that a client can connect to.
#[derive(Clone, Debug, PartialEq, Eq)]
pub enum SocketName {
    /// A socket in the file system, by its path.
    Pathname(Vec<u8>),
    /// A socket in the abstract namespace, by its name.
    Abstract(Vec<u8>),
}

/// The transport properties of a D-Bus address.
#[derive(Clone, Debug, PartialEq, Eq)]
pub struct Transport(
    // A Unix Domain Socket address.
    Unix,
);

impl View for Transport {
    type V = UnixSocketView;

    closed spec fn view(&self) -> UnixSocketView {
        self.0@
    }
}

/// The transport that a transport name and options stand for: the name must
/// be `unix`, and the options must name a socket, as [`spec_unix_socket`]
/// says.
pub open spec fn spec_transport(transport: Seq<u8>, options: Seq<(Seq<u8>, Seq<u8>)>) -> Option<
    UnixSocketView,
> {
    if transport == "unix".spec_bytes() {
        spec_unix_socket(options)
    } else {
        None
    }
}

impl Transport {
    /// The transport over the given Unix domain socket.
    pub fn new(unix: Unix) -> (transport: Transport)
        ensures
            transport@ == unix@,
    {
        Transport(unix)
    }

    /// The Unix domain socket of the transport.
    pub fn unix(&self) -> (unix: &Unix)
        ensures
            unix@ == self@,
    {
        &self.0
    }

    /// The name of the socket to connect to. Only a socket file and an
    /// abstract socket can be connected to; a directory in which a server
    /// would make its socket is [`Error::Unsupported`].
    pub fn socket_name(self) -> (r: Result<SocketName, Error>)
        ensures
            match r {
                Ok(SocketName::Pathname(p)) => self@ == UnixSocketView::File(p@),
                Ok(SocketName::Abstract(n)) => self@ == UnixSocketView::Abstract(n@),
                Err(e) => e is Unsupported && (self@ is Dir || self@ is TmpDir),
            },
    {
        match self.0.take_path() {
            UnixSocket::File(path) => Ok(SocketName::Pathname(path)),
            UnixSocket::Abstract(name) => Ok(SocketName::Abstract(name)),
            // you can't connect to a unix:dir
            UnixSocket::Dir(_) => Err(Error::Unsupported),
            UnixSocket::TmpDir(_) => Err(Error::Unsupported),
        }
    }

    /// The transport that a transport name and options stand for. An
    /// unknown transport, and options that do not fit the transport, are
    /// [`Error::Address`].
    pub fn from_options(transport: &[u8], options: &Options) -> (r: Result<Transport, Error>)
        ensures
            match r {
                Ok(t) => spec_transport(transport@, options@) == Some(t@),
                Err(e) => e is Address && spec_transport(transport@, options@) is None,
            },
    {
        if bytes_eq(transport, "unix".as_bytes()) {
            match Unix::from_options(options) {
                Ok(unix) => Ok(Transport(unix)),
                Err(e) => Err(e),
            }
        } else {
            Err(Error::Address("unsupported transport".to_owned()))
        }
    }
}

} // verus!
