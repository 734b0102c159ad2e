//! The Unix domain socket transport.

use vstd::prelude::*;
use vstd::string::StringSliceAdditionalSpecFns;

use crate::address::options::{spec_lookup, Options};
use crate::error::Error;
use crate::guid::{hex_digit_value, is_hex_digit};
use crate::connection::command::spec_hex_value;

verus! {

/// What a Unix domain socket path holds.
pub enum UnixSocketView {
    /// See [`UnixSocket::File`].
    File(Seq<u8>),
    /// See [`UnixSocket::Abstract`].
    Abstract(Seq<u8>),
    /// See [`UnixSocket::Dir`].
    Dir(Seq<u8>),
    /// See [`UnixSocket::TmpDir`].
    TmpDir(Seq<u8>),
}

/// A Unix domain socket path in a D-Bus address.
#[derive(Clone, Debug, PartialEq, Eq)]
pub enum UnixSocket {
    /// A path to a unix domain socket on the filesystem.
    File(Vec<u8>),
    /// A abstract unix domain socket name.
    Abstract(Vec<u8>),
    /// A listenable address using the specified path, in which a socket file
    /// with a random file name starting with 'dbus-' will be created by the
    /// server.
    ///
    /// This address is mostly relevant to server (typically bus broker)
    /// implementations.
    Dir(Vec<u8>),
    /// The same as UnixDir, except that on platforms with abstract sockets,
    /// the server may attempt to create an abstract socket whose name starts
    /// with this directory instead of a path-based socket.
    ///
    /// This address is mostly relevant to server (typically bus broker)
    /// implementations.
    TmpDir(Vec<u8>),
}

impl View for UnixSocket {
    type V = UnixSocketView;

    open spec fn view(&self) -> UnixSocketView {
        match self {
            UnixSocket::File(p) => UnixSocketView::File(p@),
            UnixSocket::Abstract(p) => UnixSocketView::Abstract(p@),
            UnixSocket::Dir(p) => UnixSocketView::Dir(p@),
            UnixSocket::TmpDir(p) => UnixSocketView::TmpDir(p@),
        }
    }
}

/// Whether a byte may stand for itself in the value of an option: a letter,
/// a digit, or one of `_ / . - * \`.
pub open spec fn is_unreserved(b: u8) -> bool {
    (0x30 <= b <= 0x39) || (0x41 <= b <= 0x5a) || (0x61 <= b <= 0x7a) || b == 0x5f || b == 0x2f
        || b == 0x2e || b == 0x2d || b == 0x2a || b == 0x5c
}

/// The bytes that the value of an option stands for: an unreserved byte for
/// itself, `%` and two hexadecimal digits for the byte with that number.
/// With any other byte in it the value stands for nothing.
pub open spec fn spec_decode_percents(value: Seq<u8>) -> Option<Seq<u8>>
    decreases value.len(),
{
    if value.len() == 0 {
        Some(Seq::empty())
    } else if is_unreserved(value[0]) {
        match spec_decode_percents(value.subrange(1, value.len() as int)) {
            Some(rest) => Some(seq![value[0]] + rest),
            None => None,
        }
    } else if value[0] == 0x25 && value.len() >= 3 && is_hex_digit(value[1]) && is_hex_digit(
        value[2],
    ) {
        match spec_decode_percents(value.subrange(3, value.len() as int)) {
            Some(rest) => Some(
                seq![(spec_hex_value(value[1]) * 16 + spec_hex_value(value[2])) as u8] + rest,
            ),
            None => None,
        }
    } else {
        None
    }
}

/// Whether a byte may stand for itself in the value of an option.
pub fn is_unreserved_byte(b: u8) -> (unreserved: bool)
    ensures
        unreserved == is_unreserved(b),
{
    (0x30 <= b && b <= 0x39) || (0x41 <= b && b <= 0x5a) || (0x61 <= b && b <= 0x7a) || b == 0x5f
        || b == 0x2f || b == 0x2e || b == 0x2d || b == 0x2a || b == 0x5c
}

/// Decodes the value of an option.
pub fn decode_percents(value: &[u8]) -> (r: Option<Vec<u8>>)
    ensures
        match r {
            Some(bytes) => spec_decode_percents(value@) == Some(bytes@),
            None => spec_decode_percents(value@) is None,
        },
{
    let mut out: Vec<u8> = Vec::new();
    let mut i: usize = 0;
    assert(value@.subrange(0, value@.len() as int) =~= value@);
    while i < value.len()
        invariant
            i <= value.len(),
            spec_decode_percents(value@) == match spec_decode_percents(
                value@.subrange(i as int, value@.len() as int),
            ) {
                Some(rest) => Some(out@ + rest),
                None => None,
            },
        decreases value.len() - i,
    {
        let ghost here = value@.subrange(i as int, value@.len() as int);
        let ghost before = out@;
        let b = value[i];
        assert(here[0] == b);
        if is_unreserved_byte(b) {
            out.push(b);
            proof {
                assert(here.subrange(1, here.len() as int) =~= value@.subrange(
                    i + 1,
                    value@.len() as int,
                ));
                let after = spec_decode_percents(here.subrange(1, here.len() as int));
                if after is Some {
                    assert(before + (seq![b] + after->0) =~= out@ + after->0);
                }
            }
            i = i + 1;
        } else if b == 0x25 && value.len() - i >= 3 {
            assert(here[1] == value@[i + 1] && here[2] == value@[i + 2]);
            match (hex_digit_value(value[i + 1]), hex_digit_value(value[i + 2])) {
                (Some(hi), Some(lo)) => {
                    out.push(hi * 16 + lo);
                    proof {
                        assert(here.subrange(3, here.len() as int) =~= value@.subrange(
                            i + 3,
                            value@.len() as int,
                        ));
                        let after = spec_decode_percents(here.subrange(3, here.len() as int));
                        if after is Some {
                            assert(before + (seq![(hi * 16 + lo) as u8] + after->0) =~= out@
                                + after->0);
                        }
                    }
                    i = i + 3;
                },
                _ => {
                    return None;
                },
            }
        } else {
            return None;
        }
    }
    assert(value@.subrange(value@.len() as int, value@.len() as int) =~= Seq::<u8>::empty());
    assert(out@ + Seq::<u8>::empty() =~= out@);
    Some(out)
}

/// The socket that the options of a `unix:` address name: exactly one of
/// `path`, `abstract`, `dir` and `tmpdir` must be there, and its value must
/// decode, as [`spec_decode_percents`] says. Other keys are passed over.
pub open spec fn spec_unix_socket(options: Seq<(Seq<u8>, Seq<u8>)>) -> Option<UnixSocketView> {
    let path = spec_lookup(options, "path".spec_bytes());
    let abs = spec_lookup(options, "abstract".spec_bytes());
    let dir = spec_lookup(options, "dir".spec_bytes());
    let tmpdir = spec_lookup(options, "tmpdir".spec_bytes());
    match (path, abs, dir, tmpdir) {
        (Some(p), None, None, None) => match spec_decode_percents(p) {
            Some(d) => Some(UnixSocketView::File(d)),
            None => None,
        },
        (None, Some(p), None, None) => match spec_decode_percents(p) {
            Some(d) => Some(UnixSocketView::Abstract(d)),
            None => None,
        },
        (None, None, Some(p), None) => match spec_decode_percents(p) {
            Some(d) => Some(UnixSocketView::Dir(d)),
            None => None,
        },
        (None, None, None, Some(p)) => match spec_decode_percents(p) {
            Some(d) => Some(UnixSocketView::TmpDir(d)),
            None => None,
        },
        _ => None,
    }
}

/// A Unix domain socket transport in a D-Bus address.
#[derive(Clone, Debug, PartialEq, Eq)]
pub struct Unix {
    path: UnixSocket,
}

impl View for Unix {
    type V = UnixSocketView;

    closed spec fn view(&self) -> UnixSocketView {
        self.path@
    }
}

impl Unix {
    /// Create a new Unix transport with the given path.
    pub fn new(path: UnixSocket) -> (unix: Unix)
        ensures
            unix@ == path@,
    {
        Unix { path }
    }

    /// The path.
    pub fn path(&self) -> (path: &UnixSocket)
        ensures
            path@ == self@,
    {
        &self.path
    }

    /// Take the path, consuming `self`.
    pub fn take_path(self) -> (path: UnixSocket)
        ensures
            path@ == self@,
    {
        self.path
    }

    /// The transport that the options of a `unix:` address name. Options
    /// that name no socket, or more than one, are [`Error::Address`].
    pub fn from_options(opts: &Options) -> (r: Result<Unix, Error>)
        ensures
            match r {
                Ok(unix) => spec_unix_socket(opts@) == Some(unix@),
                Err(e) => e is Address && spec_unix_socket(opts@) is None,
            },
    {
        let path = opts.get("path".as_bytes());
        let abs = opts.get("abstract".as_bytes());
        let dir = opts.get("dir".as_bytes());
        let tmpdir = opts.get("tmpdir".as_bytes());
        let decoded = match (path, abs, dir, tmpdir) {
            (Some(p), None, None, None) => match decode_percents(p) {
                Some(d) => Some(UnixSocket::File(d)),
                None => None,
            },
            (None, Some(p), None, None) => match decode_percents(p) {
                Some(d) => Some(UnixSocket::Abstract(d)),
                None => None,
            },
            (None, None, Some(p), None) => match decode_percents(p) {
                Some(d) => Some(UnixSocket::Dir(d)),
                None => None,
            },
            (None, None, None, Some(p)) => match decode_percents(p) {
                Some(d) => Some(UnixSocket::TmpDir(d)),
                None => None,
            },
            _ => None,
        };
        match decoded {
            Some(path) => Ok(Unix::new(path)),
            None => Err(Error::Address("unix: address is invalid".to_owned())),
        }
    }
}

} // verus!
