//! The error type shared by every part of the library.

use vstd::prelude::*;

verus! {

/// The class of an input/output failure, as far as the protocol logic needs to
/// tell them apart.
#[derive(Debug, Clone, Copy, PartialEq, Eq)]
pub enum IoKind {
    /// The peer closed the stream in the middle of a message.
    UnexpectedEof,
    /// The stream is closed.
    BrokenPipe,
    /// A write accepted no bytes.
    WriteZero,
    /// An argument cannot be used with this transport.
    InvalidInput,
    /// Ancillary data of an unexpected kind arrived.
    InvalidData,
    /// The operation would block on a non-blocking descriptor.
    WouldBlock,
    /// Any other failure of the operating system.
    Other,
}

/// Everything that can go wrong in this library.
#[derive(Debug, Clone, PartialEq, Eq)]
pub enum Error {
    /// The address string is malformed or names a transport that is not known.
    Address(String),
    /// The authentication conversation was violated or was rejected.
    Handshake(String),
    /// Reading from or writing to the socket failed.
    InputOutput(IoKind),
    /// The endian marker of a message is neither `B` nor `l`, or does not
    /// match the declared byte order.
    IncorrectEndian,
    /// A field or flag that the message type does not allow.
    InvalidField,
    /// A length overflowed or a message is larger than the protocol allows.
    ExcessData,
    /// The operation is not available to a client, or was not negotiated.
    Unsupported,
    /// A bus, interface, member or error name is not well formed.
    Name(String),
    /// A type signature is not well formed.
    Signature(String),
    /// Header data is not encoded as its type requires.
    Type(String),
}

/// The variant of an [`Error`], without its message.
#[derive(Debug, Clone, Copy, PartialEq, Eq)]
pub enum ErrorKind {
    /// See [`Error::Address`].
    Address,
    /// See [`Error::Handshake`].
    Handshake,
    /// See [`Error::InputOutput`].
    InputOutput(IoKind),
    /// See [`Error::IncorrectEndian`].
    IncorrectEndian,
    /// See [`Error::InvalidField`].
    InvalidField,
    /// See [`Error::ExcessData`].
    ExcessData,
    /// See [`Error::Unsupported`].
    Unsupported,
    /// See [`Error::Name`].
    Name,
    /// See [`Error::Signature`].
    Signature,
    /// See [`Error::Type`].
    Type,
}

/// Shorthand for a result with this library's [`Error`].
pub type Result<T> = core::result::Result<T, Error>;

impl Error {
    /// The variant of this error.
    pub open spec fn spec_kind(&self) -> ErrorKind {
        match self {
            Error::Address(_) => ErrorKind::Address,
            Error::Handshake(_) => ErrorKind::Handshake,
            Error::InputOutput(k) => ErrorKind::InputOutput(*k),
            Error::IncorrectEndian => ErrorKind::IncorrectEndian,
            Error::InvalidField => ErrorKind::InvalidField,
            Error::ExcessData => ErrorKind::ExcessData,
            Error::Unsupported => ErrorKind::Unsupported,
            Error::Name(_) => ErrorKind::Name,
            Error::Signature(_) => ErrorKind::Signature,
            Error::Type(_) => ErrorKind::Type,
        }
    }

    /// The variant of this error.
    #[verifier::when_used_as_spec(spec_kind)]
    pub fn kind(&self) -> (k: ErrorKind)
        ensures
            k == self.spec_kind(),
    {
        match self {
            Error::Address(_) => ErrorKind::Address,
            Error::Handshake(_) => ErrorKind::Handshake,
            Error::InputOutput(k) => ErrorKind::InputOutput(*k),
            Error::IncorrectEndian => ErrorKind::IncorrectEndian,
            Error::InvalidField => ErrorKind::InvalidField,
            Error::ExcessData => ErrorKind::ExcessData,
            Error::Unsupported => ErrorKind::Unsupported,
            Error::Name(_) => ErrorKind::Name,
            Error::Signature(_) => ErrorKind::Signature,
            Error::Type(_) => ErrorKind::Type,
        }
    }

    /// A new error of the given kind with a fixed message.
    pub fn of_kind(kind: ErrorKind, message: &str) -> (e: Error)
        ensures
            e.spec_kind() == kind,
    {
        match kind {
            ErrorKind::Address => Error::Address(message.to_owned()),
            ErrorKind::Handshake => Error::Handshake(message.to_owned()),
            ErrorKind::InputOutput(k) => Error::InputOutput(k),
            ErrorKind::IncorrectEndian => Error::IncorrectEndian,
            ErrorKind::InvalidField => Error::InvalidField,
            ErrorKind::ExcessData => Error::ExcessData,
            ErrorKind::Unsupported => Error::Unsupported,
            ErrorKind::Name => Error::Name(message.to_owned()),
            ErrorKind::Signature => Error::Signature(message.to_owned()),
            ErrorKind::Type => Error::Type(message.to_owned()),
        }
    }

    /// A one-line description, variant first.
    pub fn to_string(&self) -> (s: String)
        ensures
            s@ == self.spec_to_string(),
    {
        match self {
            Error::Address(m) => "address error: ".to_owned().concat(m.as_str()),
            Error::Handshake(m) => "D-Bus handshake failed: ".to_owned().concat(m.as_str()),
            Error::InputOutput(k) => "I/O error: ".to_owned().concat(k.as_str()),
            Error::IncorrectEndian => "incorrect endian".to_owned(),
            Error::InvalidField => "invalid message field".to_owned(),
            Error::ExcessData => "excess data".to_owned(),
            Error::Unsupported => "unsupported".to_owned(),
            Error::Name(m) => "invalid name: ".to_owned().concat(m.as_str()),
            Error::Signature(m) => "invalid signature: ".to_owned().concat(m.as_str()),
            Error::Type(m) => "invalid encoding: ".to_owned().concat(m.as_str()),
        }
    }

    /// The text that [`Error::to_string`] produces.
    pub open spec fn spec_to_string(&self) -> Seq<char> {
        match self {
            Error::Address(m) => "address error: "@ + m@,
            Error::Handshake(m) => "D-Bus handshake failed: "@ + m@,
            Error::InputOutput(k) => "I/O error: "@ + k.spec_as_str(),
            Error::IncorrectEndian => "incorrect endian"@,
            Error::InvalidField => "invalid message field"@,
            Error::ExcessData => "excess data"@,
            Error::Unsupported => "unsupported"@,
            Error::Name(m) => "invalid name: "@ + m@,
            Error::Signature(m) => "invalid signature: "@ + m@,
            Error::Type(m) => "invalid encoding: "@ + m@,
        }
    }
}

impl IoKind {
    /// A short name for the kind.
    pub fn as_str(&self) -> (s: &'static str)
        ensures
            s@ == self.spec_as_str(),
    {
        match self {
            IoKind::UnexpectedEof => "unexpected end of file",
            IoKind::BrokenPipe => "broken pipe",
            IoKind::WriteZero => "write zero",
            IoKind::InvalidInput => "invalid input",
            IoKind::InvalidData => "invalid data",
            IoKind::WouldBlock => "operation would block",
            IoKind::Other => "other error",
        }
    }

    /// The text that [`IoKind::as_str`] produces.
    pub open spec fn spec_as_str(&self) -> Seq<char> {
        match self {
            IoKind::UnexpectedEof => "unexpected end of file"@,
            IoKind::BrokenPipe => "broken pipe"@,
            IoKind::WriteZero => "write zero"@,
            IoKind::InvalidInput => "invalid input"@,
            IoKind::InvalidData => "invalid data"@,
            IoKind::WouldBlock => "operation would block"@,
            IoKind::Other => "other error"@,
        }
    }
}

} // verus!
