//! D-Bus standard interfaces.
//!
//! The D-Bus specification defines the message bus messages and some
//! standard interfaces that may be useful across various D-Bus applications.
//! This module provides the types that they use.

use vstd::prelude::*;

use crate::message::fields::spec_text;

verus! {

/// What credentials hold.
pub struct CredentialsView {
    /// The numeric Unix user ID.
    pub unix_user_id: Option<u32>,
    /// The numeric Unix group IDs.
    pub unix_group_ids: Option<Seq<u32>>,
    /// The numeric process ID.
    pub process_id: Option<u32>,
    /// The Windows security identifier.
    pub windows_sid: Option<Seq<char>>,
    /// The Linux security label.
    pub linux_security_label: Option<Seq<u8>>,
}

/// Credentials of a process connected to a bus server.
///
/// If unable to determine certain credentials (for instance, because the
/// process is not on the same machine as the bus daemon, or because this
/// version of the bus daemon does not support a particular security
/// framework), or if the values of those credentials cannot be represented
/// as documented here, then those credentials are omitted.
#[derive(Debug, PartialEq, Eq)]
pub struct ConnectionCredentials {
    unix_user_id: Option<u32>,
    unix_group_ids: Option<Vec<u32>>,
    process_id: Option<u32>,
    windows_sid: Option<String>,
    linux_security_label: Option<Vec<u8>>,
}

/// The numbers behind an optional vector.
pub open spec fn spec_ids(ids: Option<Vec<u32>>) -> Option<Seq<u32>> {
    match ids {
        Some(v) => Some(v@),
        None => None,
    }
}

/// The bytes behind an optional vector.
pub open spec fn spec_label(label: Option<Vec<u8>>) -> Option<Seq<u8>> {
    match label {
        Some(v) => Some(v@),
        None => None,
    }
}

impl View for ConnectionCredentials {
    type V = CredentialsView;

    closed spec fn view(&self) -> CredentialsView {
        CredentialsView {
            unix_user_id: self.unix_user_id,
            unix_group_ids: spec_ids(self.unix_group_ids),
            process_id: self.process_id,
            windows_sid: spec_text(self.windows_sid),
            linux_security_label: spec_label(self.linux_security_label),
        }
    }
}

impl Default for ConnectionCredentials {
    fn default() -> (credentials: ConnectionCredentials)
        ensures
            credentials@ == (CredentialsView {
                unix_user_id: None,
                unix_group_ids: None,
                process_id: None,
                windows_sid: None,
                linux_security_label: None,
            }),
    {
        ConnectionCredentials {
            unix_user_id: None,
            unix_group_ids: None,
            process_id: None,
            windows_sid: None,
            linux_security_label: None,
        }
    }
}

impl ConnectionCredentials {
    /// The numeric Unix user ID, as defined by POSIX.
    pub fn unix_user_id(&self) -> (id: Option<u32>)
        ensures
            id == self@.unix_user_id,
    {
        self.unix_user_id
    }

    /// The numeric Unix group IDs (including both the primary group and the
    /// supplementary groups), as defined by POSIX, in numerically sorted
    /// order. This array is either complete or absent: if the message bus is
    /// able to determine some but not all of the caller's groups, or if one
    /// of the groups is not representable in a UINT32, it must not add this
    /// credential to the dictionary.
    pub fn unix_group_ids(&self) -> (ids: Option<&Vec<u32>>)
        ensures
            match ids {
                Some(v) => self@.unix_group_ids == Some(v@),
                None => self@.unix_group_ids is None,
            },
    {
        self.unix_group_ids.as_ref()
    }

    /// Same as [`ConnectionCredentials::unix_group_ids`], but consumes `self`
    /// and returns the group IDs Vec.
    pub fn into_unix_group_ids(self) -> (ids: Option<Vec<u32>>)
        ensures
            spec_ids(ids) == self@.unix_group_ids,
    {
        self.unix_group_ids
    }

    /// The numeric process ID, on platforms that have this concept. On Unix,
    /// this is the process ID defined by POSIX.
    pub fn process_id(&self) -> (id: Option<u32>)
        ensures
            id == self@.process_id,
    {
        self.process_id
    }

    /// The Windows security identifier in its string form, e.g.
    /// `S-1-5-21-3623811015-3361044348-30300820-1013` for a domain or local
    /// computer user or `S-1-5-18` for the LOCAL_SYSTEM user.
    pub fn windows_sid(&self) -> (sid: Option<&String>)
        ensures
            match sid {
                Some(s) => self@.windows_sid == Some(s@),
                None => self@.windows_sid is None,
            },
    {
        self.windows_sid.as_ref()
    }

    /// Same as [`ConnectionCredentials::windows_sid`], but consumes `self`
    /// and returns the SID string.
    pub fn into_windows_sid(self) -> (sid: Option<String>)
        ensures
            spec_text(sid) == self@.windows_sid,
    {
        self.windows_sid
    }

    /// On Linux systems, the security label that would result from the
    /// SO_PEERSEC getsockopt call. The array contains the non-zero bytes of
    /// the security label in an unspecified ASCII-compatible encoding,
    /// followed by a single zero byte.
    pub fn linux_security_label(&self) -> (label: Option<&Vec<u8>>)
        ensures
            match label {
                Some(v) => self@.linux_security_label == Some(v@),
                None => self@.linux_security_label is None,
            },
    {
        self.linux_security_label.as_ref()
    }

    /// Same as [`ConnectionCredentials::linux_security_label`], but consumes
    /// `self` and returns the security label bytes.
    pub fn into_linux_security_label(self) -> (label: Option<Vec<u8>>)
        ensures
            spec_label(label) == self@.linux_security_label,
    {
        self.linux_security_label
    }

    /// Set the numeric Unix user ID, as defined by POSIX.
    pub fn set_unix_user_id(self, unix_user_id: u32) -> (credentials: ConnectionCredentials)
        ensures
            credentials@ == (CredentialsView { unix_user_id: Some(unix_user_id), ..self@ }),
    {
        let mut credentials = self;
        credentials.unix_user_id = Some(unix_user_id);
        credentials
    }

    /// Add a numeric Unix group ID, behind those that are there.
    ///
    /// See [`ConnectionCredentials::unix_group_ids`] for more information.
    pub fn add_unix_group_id(self, unix_group_id: u32) -> (credentials: ConnectionCredentials)
        ensures
            credentials@ == (CredentialsView {
                unix_group_ids: Some(
                    match self@.unix_group_ids {
                        Some(ids) => ids.push(unix_group_id),
                        None => seq![unix_group_id],
                    },
                ),
                ..self@
            }),
    {
        let mut credentials = self;
        let mut ids = match credentials.unix_group_ids {
            Some(ids) => ids,
            None => Vec::new(),
        };
        ids.push(unix_group_id);
        assert(self@.unix_group_ids is None ==> ids@ =~= seq![unix_group_id]);
        credentials.unix_group_ids = Some(ids);
        credentials
    }

    /// Set the numeric process ID, on platforms that have this concept.
    ///
    /// See [`ConnectionCredentials::process_id`] for more information.
    pub fn set_process_id(self, process_id: u32) -> (credentials: ConnectionCredentials)
        ensures
            credentials@ == (CredentialsView { process_id: Some(process_id), ..self@ }),
    {
        let mut credentials = self;
        credentials.process_id = Some(process_id);
        credentials
    }

    /// Set the Windows security identifier in its string form.
    pub fn set_windows_sid(self, windows_sid: String) -> (credentials: ConnectionCredentials)
        ensures
            credentials@ == (CredentialsView { windows_sid: Some(windows_sid@), ..self@ }),
    {
        let mut credentials = self;
        credentials.windows_sid = Some(windows_sid);
        credentials
    }

    /// Set the Linux security label.
    ///
    /// See [`ConnectionCredentials::linux_security_label`] for more
    /// information.
    pub fn set_linux_security_label(self, linux_security_label: Vec<u8>) -> (credentials:
        ConnectionCredentials)
        ensures
            credentials@ == (CredentialsView {
                linux_security_label: Some(linux_security_label@),
                ..self@
            }),
    {
        let mut credentials = self;
        credentials.linux_security_label = Some(linux_security_label);
        credentials
    }
}

/// Errors from <https://gitlab.freedesktop.org/dbus/dbus/-/blob/master/dbus/dbus-protocol.h>
#[derive(Clone, Debug, PartialEq)]
pub enum Error {
    /// Unknown or fall-through error of this library.
    ZBus(crate::error::Error),
    /// A generic error; "something went wrong" - see the error message for more.
    Failed(String),
    /// There was not enough memory to complete an operation.
    NoMemory(String),
    /// The bus doesn't know how to launch a service to supply the bus name you wanted.
    ServiceUnknown(String),
    /// The bus name you referenced doesn't exist (i.e. no application owns it).
    NameHasNoOwner(String),
    /// No reply to a message expecting one, usually means a timeout occurred.
    NoReply(String),
    /// Something went wrong reading or writing to a socket, for example.
    IOError(String),
    /// A D-Bus bus address was malformed.
    BadAddress(String),
    /// Requested operation isn't supported (like ENOSYS on UNIX).
    NotSupported(String),
    /// Some limited resource is exhausted.
    LimitsExceeded(String),
    /// Security restrictions don't allow doing what you're trying to do.
    AccessDenied(String),
    /// Authentication didn't work.
    AuthFailed(String),
    /// Unable to connect to server (probably caused by ECONNREFUSED on a socket).
    NoServer(String),
    /// Certain timeout errors, possibly ETIMEDOUT on a socket.
    /// Note that `TimedOut` is used for message reply timeouts.
    Timeout(String),
    /// No network access (probably ENETUNREACH on a socket).
    NoNetwork(String),
    /// Can't bind a socket since its address is in use (i.e. EADDRINUSE).
    AddressInUse(String),
    /// The connection is disconnected and you're trying to use it.
    Disconnected(String),
    /// Invalid arguments passed to a method call.
    InvalidArgs(String),
    /// Missing file.
    FileNotFound(String),
    /// Existing file and the operation you're using does not silently overwrite.
    FileExists(String),
    /// Method name you invoked isn't known by the object you invoked it on.
    UnknownMethod(String),
    /// Object you invoked a method on isn't known.
    UnknownObject(String),
    /// Interface you invoked a method on isn't known by the object.
    UnknownInterface(String),
    /// Property you tried to access isn't known by the object.
    UnknownProperty(String),
    /// Property you tried to set is read-only.
    PropertyReadOnly(String),
    /// Certain timeout errors, e.g. while starting a service.
    TimedOut(String),
    /// Tried to remove or modify a match rule that didn't exist.
    MatchRuleNotFound(String),
    /// The match rule isn't syntactically valid.
    MatchRuleInvalid(String),
    /// Tried to get a UNIX process ID and it wasn't available.
    UnixProcessIdUnknown(String),
    /// A type signature is not valid.
    InvalidSignature(String),
    /// A file contains invalid syntax or is otherwise broken.
    InvalidFileContent(String),
    /// Asked for SELinux security context and it wasn't available.
    SELinuxSecurityContextUnknown(String),
    /// Asked for ADT audit data and it wasn't available.
    AdtAuditDataUnknown(String),
    /// There's already an object with the requested object path.
    ObjectPathInUse(String),
    /// The message meta data does not match the payload. e.g. expected number of file descriptors
    /// were not sent over the socket this message was received on.
    InconsistentMessage(String),
    /// The message is not allowed without performing interactive authorization, but could have
    /// succeeded if an interactive authorization step was allowed.
    InteractiveAuthorizationRequired(String),
    /// The connection is not from a container, or the specified container instance does not exist.
    NotContainer(String),
}

/// Alias for a `Result` with the error type [`Error`].
pub type Result<T> = core::result::Result<T, Error>;

} // verus!
