//! D-Bus address handling.
//!
//! Server addresses consist of a transport name followed by a colon, and
//! then an optional, comma-separated list of keys and values in the form
//! key=value.
//!
//! See also:
//!
//! * [Server addresses] in the D-Bus specification.
//!
//! [Server addresses]: https://dbus.freedesktop.org/doc/dbus-specification.html#addresses

use vstd::prelude::*;
use vstd::slice::slice_subrange;
use vstd::string::StringSliceAdditionalSpecFns;

use crate::connection::command::{spec_decimal, write_decimal};
use crate::error::Error;
use crate::guid::{is_guid, Guid};
use crate::message::fields::write_bytes;

pub mod options;
pub mod transport;

use options::{find, spec_find, spec_lookup, spec_parse_options, Options};
pub use transport::{SocketName, Transport, Unix, UnixSocket, UnixSocketView};
use transport::spec_transport;

verus! {

/// What an address holds.
pub struct AddressView {
    /// The GUID of the server, if the address announces it.
    pub guid: Option<Seq<u8>>,
    /// The socket of the server.
    pub socket: UnixSocketView,
}

/// A bus address
#[derive(Clone, Debug, PartialEq, Eq)]
pub struct Address {
    guid: Option<Guid>,
    transport: Transport,
}

impl View for Address {
    type V = AddressView;

    closed spec fn view(&self) -> AddressView {
        AddressView {
            guid: crate::connection::handshake::spec_guid_view(self.guid),
            socket: self.transport@,
        }
    }
}

/// The address that a text is: a transport name, a colon, and options, as
/// [`spec_parse_options`] reads them, unless nothing stands behind the
/// colon. The option `guid`, if it is there, must have the form of a GUID;
/// the transport and the other options must name a socket, as
/// [`spec_transport`] says. Any other text is no address.
pub open spec fn spec_parse_address(text: Seq<u8>) -> Option<AddressView> {
    let colon = spec_find(text, 0x3a, 0);
    if colon >= text.len() {
        None
    } else {
        let options = if text.len() > colon + 1 {
            spec_parse_options(text.subrange(colon + 1, text.len() as int), 0, Seq::empty())
        } else {
            Some(Seq::empty())
        };
        match options {
            None => None,
            Some(options) => {
                let guid = spec_lookup(options, "guid".spec_bytes());
                if guid is Some && !is_guid(guid->0) {
                    None
                } else {
                    match spec_transport(text.subrange(0, colon), options) {
                        None => None,
                        Some(socket) => Some(AddressView { guid, socket }),
                    }
                }
            },
        }
    }
}

/// The text of the address of the session bus: the address that the
/// environment names, or else the socket `bus` in the runtime directory,
/// which is the one that the environment names, or else `/run/user/` and the
/// user ID.
pub open spec fn spec_session_address(
    env_address: Option<Seq<u8>>,
    runtime_dir: Option<Seq<u8>>,
    euid: u32,
) -> Seq<u8> {
    match env_address {
        Some(address) => address,
        None => "unix:path=".spec_bytes() + (match runtime_dir {
            Some(dir) => dir,
            None => "/run/user/".spec_bytes() + spec_decimal(euid as nat),
        }) + "/bus".spec_bytes(),
    }
}

/// The text of the address of the system bus: the address that the
/// environment names, or else the well-known socket.
pub open spec fn spec_system_address(env_address: Option<Seq<u8>>) -> Seq<u8> {
    match env_address {
        Some(address) => address,
        None => "unix:path=/var/run/dbus/system_bus_socket".spec_bytes(),
    }
}

/// The bytes behind an optional text.
pub open spec fn spec_str_bytes(text: Option<&str>) -> Option<Seq<u8>> {
    match text {
        Some(t) => Some(t.spec_bytes()),
        None => None,
    }
}

impl Address {
    /// Create a new `Address` from a `Transport`.
    pub fn new(transport: Transport) -> (address: Address)
        ensures
            address@ == (AddressView { guid: None, socket: transport@ }),
    {
        Address { transport, guid: None }
    }

    /// Set the GUID for this address. A text that is no GUID is
    /// [`Error::Address`].
    pub fn set_guid(self, guid: &str) -> (r: Result<Address, Error>)
        ensures
            match r {
                Ok(address) => is_guid(guid.spec_bytes()) && address@ == (AddressView {
                    guid: Some(guid.spec_bytes()),
                    ..self@
                }),
                Err(e) => e is Address && !is_guid(guid.spec_bytes()),
            },
    {
        let guid = Guid::from_str(guid)?;
        Ok(Address { guid: Some(guid), transport: self.transport })
    }

    /// The transport details for this address.
    pub fn transport(&self) -> (transport: &Transport)
        ensures
            transport@ == self@.socket,
    {
        &self.transport
    }

    /// The transport details for this address, consuming `self`.
    pub fn into_transport(self) -> (transport: Transport)
        ensures
            transport@ == self@.socket,
    {
        self.transport
    }

    /// The GUID for this address, if known.
    pub fn guid(&self) -> (guid: Option<&Guid>)
        ensures
            match guid {
                Some(g) => self@.guid == Some(g@),
                None => self@.guid is None,
            },
    {
        self.guid.as_ref()
    }

    /// Get the address for session socket respecting the
    /// `DBUS_SESSION_BUS_ADDRESS` environment variable, whose value is
    /// `env_address`. If it is not set we fall back to `$XDG_RUNTIME_DIR/bus`,
    /// where `runtime_dir` is the value of that variable, and from there to
    /// the runtime directory of the user with the given effective user ID.
    pub fn session(env_address: Option<&str>, runtime_dir: Option<&str>, euid: u32) -> (r: Result<
        Address,
        Error,
    >)
        ensures
            match r {
                Ok(address) => spec_parse_address(
                    spec_session_address(
                        spec_str_bytes(env_address),
                        spec_str_bytes(runtime_dir),
                        euid,
                    ),
                ) == Some(address@),
                Err(e) => e is Address && spec_parse_address(
                    spec_session_address(
                        spec_str_bytes(env_address),
                        spec_str_bytes(runtime_dir),
                        euid,
                    ),
                ) is None,
            },
    {
        match env_address {
            Some(val) => Self::from_str(val),
            None => {
                let mut text: Vec<u8> = Vec::new();
                write_bytes(&mut text, "unix:path=".as_bytes());
                match runtime_dir {
                    Some(dir) => {
                        write_bytes(&mut text, dir.as_bytes());
                    },
                    None => {
                        write_bytes(&mut text, "/run/user/".as_bytes());
                        write_decimal(&mut text, euid);
                    },
                }
                write_bytes(&mut text, "/bus".as_bytes());
                assert(text@ =~= spec_session_address(None, spec_str_bytes(runtime_dir), euid));
                Self::from_bytes(text.as_slice())
            },
        }
    }

    /// Get the address for system bus respecting the
    /// `DBUS_SYSTEM_BUS_ADDRESS` environment variable, whose value is
    /// `env_address`. If it is not set we fall back to
    /// `/var/run/dbus/system_bus_socket`.
    pub fn system(env_address: Option<&str>) -> (r: Result<Address, Error>)
        ensures
            match r {
                Ok(address) => spec_parse_address(
                    spec_system_address(spec_str_bytes(env_address)),
                ) == Some(address@),
                Err(e) => e is Address && spec_parse_address(
                    spec_system_address(spec_str_bytes(env_address)),
                ) is None,
            },
    {
        match env_address {
            Some(val) => Self::from_str(val),
            None => Self::from_str("unix:path=/var/run/dbus/system_bus_socket"),
        }
    }

    /// Parse a D-Bus address. A text that is no address is
    /// [`Error::Address`].
    pub fn from_str(address: &str) -> (r: Result<Address, Error>)
        ensures
            match r {
                Ok(a) => spec_parse_address(address.spec_bytes()) == Some(a@),
                Err(e) => e is Address && spec_parse_address(address.spec_bytes()) is None,
            },
    {
        Self::from_bytes(address.as_bytes())
    }

    /// Parse the bytes of a D-Bus address. Bytes that are no address are
    /// [`Error::Address`].
    pub fn from_bytes(address: &[u8]) -> (r: Result<Address, Error>)
        ensures
            match r {
                Ok(a) => spec_parse_address(address@) == Some(a@),
                Err(e) => e is Address && spec_parse_address(address@) is None,
            },
    {
        let col = find(address, 0x3a, 0);
        if col >= address.len() {
            return Err(Error::Address("address has no colon".to_owned()));
        }
        let transport = slice_subrange(address, 0, col);
        let options = if address.len() > col + 1 {
            match Options::parse(slice_subrange(address, col + 1, address.len())) {
                Some(options) => options,
                None => {
                    return Err(Error::Address("invalid key/value in address".to_owned()));
                },
            }
        } else {
            Options::new()
        };
        let guid = match options.get("guid".as_bytes()) {
            Some(text) => Some(Guid::from_bytes(text)?),
            None => None,
        };
        let transport = Transport::from_options(transport, &options)?;
        Ok(Address { guid, transport })
    }
}

} // verus!
