//! The client side of the authentication handshake.
//!
//! The handshake is a conversation in lines of text. This module holds its
//! decisions as a state machine: the caller starts it, performs each action
//! that it asks for on the socket, and hands the result back, until the
//! machine is done or fails.
//!
//! The states are: `Init`, where a zero byte is sent; the choice of a
//! mechanism, where `AUTH` is sent; `WaitingForData` and `WaitingForOk`,
//! where the server's answer is read; `WaitingForAgreeUnixFd`, where the
//! server's answer to `NEGOTIATE_UNIX_FD` is read; and `Done`.

use vstd::prelude::*;
use vstd::string::StringSliceAdditionalSpecFns;

pub use crate::connection::command::AuthMechanism;
use crate::connection::command::{spec_command_bytes, spec_decimal, spec_parse_command};
use crate::connection::command::{write_decimal, Command, CommandView};
use crate::connection::cookie::{check_client_challenge, cookie_response, digest_input};
use crate::connection::cookie::{find_cookie, first_lf, is_client_challenge, keyring_is_private};
use crate::connection::cookie::{parse_challenge, spec_cookie_response, spec_digest_input};
use crate::connection::cookie::{spec_find_cookie, spec_first_lf, spec_keyring_is_private};
use crate::connection::cookie::spec_parse_challenge;
use crate::error::{Error, ErrorKind, IoKind};
use crate::guid::Guid;
use crate::message::fields::write_bytes;

verus! {

/// The number of bytes that the handshake asks for in one read.
pub const READ_CHUNK: usize = 64;

/// The result of a finalized handshake
#[derive(Debug)]
pub struct Authenticated {
    /// Whether file descriptor passing has been accepted by both sides
    pub cap_unix_fd: bool,
    /// The bytes that were received behind the last line of the handshake;
    /// they belong to the first message.
    pub already_received_bytes: Vec<u8>,
}

/// Where a handshake stands.
#[derive(Debug, Clone, Copy, PartialEq, Eq, Structural)]
pub enum Phase {
    /// Nothing was sent yet.
    Init,
    /// The zero byte that opens the conversation is being sent.
    SendingNul,
    /// `AUTH DBUS_COOKIE_SHA1` was sent; the server's challenge is awaited.
    WaitingForData,
    /// The caller was asked for the keyring file.
    WaitingForKeyring,
    /// The caller was asked for a digest.
    WaitingForDigest,
    /// The server's decision is awaited.
    WaitingForOk,
    /// `NEGOTIATE_UNIX_FD` was sent; the server's answer is awaited.
    WaitingForAgreeUnixFd,
    /// `BEGIN` is being sent.
    SendingBegin,
    /// The handshake is over.
    Done,
}

/// What the handshake asks its caller to do next.
#[derive(Debug)]
pub enum Action {
    /// Write these bytes to the socket, in one call, and hand the number of
    /// bytes that were written to [`ClientHandshake::written`].
    Write(Vec<u8>),
    /// Receive at most this many bytes from the socket and hand them to
    /// [`ClientHandshake::received`].
    Read(usize),
    /// Read the keyring file of this name, draw a client challenge, and hand
    /// both to [`ClientHandshake::keyring`].
    ReadKeyring(Vec<u8>),
    /// Compute the SHA-1 digest of these bytes and hand it to
    /// [`ClientHandshake::digest`].
    Digest(Vec<u8>),
    /// The handshake has succeeded.
    Done(Authenticated),
}

/// What an action holds.
pub enum ActionView {
    /// See [`Action::Write`].
    Write(Seq<u8>),
    /// See [`Action::Read`].
    Read(int),
    /// See [`Action::ReadKeyring`].
    ReadKeyring(Seq<u8>),
    /// See [`Action::Digest`].
    Digest(Seq<u8>),
    /// See [`Action::Done`]: whether file descriptors can be passed, and the
    /// bytes that were received behind the last line.
    Done(bool, Seq<u8>),
}

impl View for Action {
    type V = ActionView;

    open spec fn view(&self) -> ActionView {
        match self {
            Action::Write(bytes) => ActionView::Write(bytes@),
            Action::Read(n) => ActionView::Read(*n as int),
            Action::ReadKeyring(context) => ActionView::ReadKeyring(context@),
            Action::Digest(input) => ActionView::Digest(input@),
            Action::Done(auth) => ActionView::Done(
                auth.cap_unix_fd,
                auth.already_received_bytes@,
            ),
        }
    }
}

/// What both sides of a handshake hold.
pub struct CommonView {
    /// The bytes that are to be written.
    pub send_buffer: Seq<u8>,
    /// The bytes that were received and not yet read as a line.
    pub recv_buffer: Seq<u8>,
    /// Whether file descriptor passing has been accepted by both sides.
    pub cap_unix_fd: bool,
}

impl CommonView {
    /// The state with the line of `command` put behind the bytes that are to
    /// be written.
    pub open spec fn spec_write_command(self, command: CommandView) -> CommonView {
        CommonView { send_buffer: self.send_buffer + spec_command_bytes(command), ..self }
    }

    /// Takes the first line off the bytes that were received and reads it as
    /// a command. `Ok(None)` where no line feed has arrived yet. A line ends
    /// in a carriage return and a line feed: a line feed that is the first
    /// byte or stands behind another byte is [`ErrorKind::Handshake`], and
    /// so is a line that is no command, as [`spec_parse_command`] says.
    pub open spec fn spec_read_command(self) -> core::result::Result<
        Option<(CommandView, CommonView)>,
        ErrorKind,
    > {
        let lf = spec_first_lf(self.recv_buffer, 0);
        if lf >= self.recv_buffer.len() {
            Ok(None)
        } else if lf == 0 || self.recv_buffer[lf - 1] != 0x0d {
            Err(ErrorKind::Handshake)
        } else {
            match spec_parse_command(self.recv_buffer.subrange(0, lf + 1)) {
                Err(k) => Err(k),
                Ok(command) => Ok(
                    Some(
                        (
                            command,
                            CommonView {
                                recv_buffer: self.recv_buffer.subrange(
                                    lf + 1,
                                    self.recv_buffer.len() as int,
                                ),
                                ..self
                            },
                        ),
                    ),
                ),
            }
        }
    }
}

/// Common code for the client and server side of the handshake: the bytes
/// that go out and come in.
#[derive(Debug)]
pub struct HandshakeCommon {
    send_buffer: Vec<u8>,
    recv_buffer: Vec<u8>,
    cap_unix_fd: bool,
}

impl View for HandshakeCommon {
    type V = CommonView;

    closed spec fn view(&self) -> CommonView {
        CommonView {
            send_buffer: self.send_buffer@,
            recv_buffer: self.recv_buffer@,
            cap_unix_fd: self.cap_unix_fd,
        }
    }
}

impl HandshakeCommon {
    /// Start a handshake: nothing to send, nothing received.
    pub fn new() -> (common: HandshakeCommon)
        ensures
            common@ == (CommonView {
                send_buffer: Seq::empty(),
                recv_buffer: Seq::empty(),
                cap_unix_fd: false,
            }),
    {
        HandshakeCommon { send_buffer: Vec::new(), recv_buffer: Vec::new(), cap_unix_fd: false }
    }

    /// Puts the line of `command` behind the bytes that are to be written.
    pub fn write_command(&mut self, command: Command)
        ensures
            final(self)@ == old(self)@.spec_write_command(command@),
    {
        let line = command.to_bytes();
        write_bytes(&mut self.send_buffer, line.as_slice());
    }

    /// Takes the first line off the bytes that were received and reads it as
    /// a command; `Ok(None)` where no whole line has arrived yet.
    pub fn read_command(&mut self) -> (r: Result<Option<Command>, Error>)
        ensures
            match r {
                Ok(Some(command)) => old(self)@.spec_read_command() == Ok::<_, ErrorKind>(
                    Some((command@, final(self)@)),
                ),
                Ok(None) => old(self)@.spec_read_command() == Ok::<
                    Option<(CommandView, CommonView)>,
                    ErrorKind,
                >(None) && final(self)@ == old(self)@,
                Err(e) => old(self)@.spec_read_command() == Err::<
                    Option<(CommandView, CommonView)>,
                    _,
                >(e.spec_kind()),
            },
    {
        let lf = first_lf(self.recv_buffer.as_slice(), 0);
        if lf >= self.recv_buffer.len() {
            return Ok(None);
        }
        if lf == 0 || self.recv_buffer[lf - 1] != 0x0d {
            return Err(Error::Handshake("Invalid line ending in handshake".to_owned()));
        }
        let mut line: Vec<u8> = Vec::new();
        core::mem::swap(&mut line, &mut self.recv_buffer);
        let rest = line.split_off(lf + 1);
        self.recv_buffer = rest;
        let command = Command::parse(line.as_slice())?;
        Ok(Some(command))
    }
}

/// What a handshake holds.
pub struct HandshakeView {
    /// The bytes that go out and come in.
    pub common: CommonView,
    /// Where the handshake stands.
    pub phase: Phase,
    /// The mechanisms that are left to try, the one that is being tried
    /// first.
    pub mechanisms: Seq<AuthMechanism>,
    /// The GUID of the server: the one that the address announced, or the
    /// one that the server has sent.
    pub server_guid: Option<Seq<u8>>,
    /// Whether this side can pass file descriptors.
    pub can_pass_unix_fd: bool,
    /// The user that authenticates: the effective user ID.
    pub auth_id: u32,
    /// The number of the cookie that the server asked for.
    pub cookie_id: u64,
    /// The server's challenge.
    pub server_challenge: Seq<u8>,
    /// The client's challenge.
    pub client_challenge: Seq<u8>,
}

impl HandshakeView {
    /// The handshake asks for its pending bytes to be written.
    pub open spec fn spec_flush(self) -> core::result::Result<
        (ActionView, HandshakeView),
        ErrorKind,
    > {
        Ok((ActionView::Write(self.common.send_buffer), self))
    }

    /// Opens the conversation with the mechanism that is first in line: for
    /// `EXTERNAL` and `DBUS_COOKIE_SHA1` the `AUTH` command carries the user
    /// ID in decimal, for `ANONYMOUS` the text `zbus`. With no mechanism
    /// left the handshake fails with [`ErrorKind::Handshake`].
    pub open spec fn spec_mechanism_init(self) -> core::result::Result<HandshakeView, ErrorKind> {
        if self.mechanisms.len() == 0 {
            Err(ErrorKind::Handshake)
        } else {
            let mechanism = self.mechanisms[0];
            let response = match mechanism {
                AuthMechanism::Anonymous => "zbus".spec_bytes(),
                _ => spec_decimal(self.auth_id as nat),
            };
            Ok(
                HandshakeView {
                    common: self.common.spec_write_command(
                        CommandView::Auth(Some(mechanism), Some(response)),
                    ),
                    phase: match mechanism {
                        AuthMechanism::Cookie => Phase::WaitingForData,
                        _ => Phase::WaitingForOk,
                    },
                    ..self
                },
            )
        }
    }

    /// The handshake with `BEGIN` to be written and the outcome of the
    /// negotiation about file descriptors set.
    pub open spec fn spec_begin(self, cap_unix_fd: bool) -> HandshakeView {
        HandshakeView {
            common: (CommonView { cap_unix_fd, ..self.common }).spec_write_command(
                CommandView::Begin,
            ),
            phase: Phase::SendingBegin,
            ..self
        }
    }

    /// What the handshake does with a command of the server.
    ///
    /// Waiting for the answer to `NEGOTIATE_UNIX_FD`: `AGREE_UNIX_FD` means
    /// that file descriptors can be passed, `ERROR` that they cannot; either
    /// way `BEGIN` is sent. While data or the decision is awaited: `OK` with a
    /// GUID other than the one that is expected fails, else the GUID is kept
    /// and `NEGOTIATE_UNIX_FD` is sent, or `BEGIN` where this side cannot
    /// pass file descriptors; `REJECTED` drops the mechanism that was tried
    /// and opens the conversation with the next. Waiting for data: `DATA`
    /// with a challenge, as [`spec_parse_challenge`] reads it, asks for the
    /// keyring file. Everything else is [`ErrorKind::Handshake`].
    pub open spec fn spec_handle(self, command: CommandView) -> core::result::Result<
        (ActionView, HandshakeView),
        ErrorKind,
    > {
        match (self.phase, command) {
            (Phase::WaitingForAgreeUnixFd, CommandView::AgreeUnixFD) => self.spec_begin(
                true,
            ).spec_flush(),
            (Phase::WaitingForAgreeUnixFd, CommandView::Error(_)) => self.spec_begin(
                false,
            ).spec_flush(),
            (Phase::WaitingForOk, CommandView::Okay(guid)) => self.spec_accepted(guid),
            (Phase::WaitingForData, CommandView::Okay(guid)) => self.spec_accepted(guid),
            (Phase::WaitingForOk, CommandView::Rejected(_)) => self.spec_rejected(),
            (Phase::WaitingForData, CommandView::Rejected(_)) => self.spec_rejected(),
            (Phase::WaitingForData, CommandView::Data(Some(data))) => match spec_parse_challenge(
                data,
            ) {
                None => Err(ErrorKind::Handshake),
                Some(challenge) => Ok(
                    (
                        ActionView::ReadKeyring(challenge.context),
                        HandshakeView {
                            phase: Phase::WaitingForKeyring,
                            cookie_id: challenge.id,
                            server_challenge: challenge.server_challenge,
                            ..self
                        },
                    ),
                ),
            },
            _ => Err(ErrorKind::Handshake),
        }
    }

    /// What the handshake does when the server has accepted the client.
    pub open spec fn spec_accepted(self, guid: Seq<u8>) -> core::result::Result<
        (ActionView, HandshakeView),
        ErrorKind,
    > {
        if self.server_guid is Some && self.server_guid != Some(guid) {
            Err(ErrorKind::Handshake)
        } else if self.can_pass_unix_fd {
            (HandshakeView {
                common: self.common.spec_write_command(CommandView::NegotiateUnixFD),
                phase: Phase::WaitingForAgreeUnixFd,
                server_guid: Some(guid),
                ..self
            }).spec_flush()
        } else {
            (HandshakeView { server_guid: Some(guid), ..self }).spec_begin(false).spec_flush()
        }
    }

    /// What the handshake does when the server has rejected the mechanism
    /// that was tried.
    pub open spec fn spec_rejected(self) -> core::result::Result<
        (ActionView, HandshakeView),
        ErrorKind,
    > {
        if self.mechanisms.len() == 0 {
            Err(ErrorKind::Handshake)
        } else {
            match (HandshakeView {
                mechanisms: self.mechanisms.drop_first(),
                ..self
            }).spec_mechanism_init() {
                Err(k) => Err(k),
                Ok(h) => h.spec_flush(),
            }
        }
    }

    /// What the handshake does next, and the handshake after that: it asks
    /// for its pending bytes to be written; with nothing pending it goes on
    /// as its phase says: behind the zero byte it opens the conversation,
    /// while it waits for the server it reads a line, or asks for more bytes
    /// where no line has arrived, and behind `BEGIN` it is done and hands
    /// out what was received behind the last line.
    pub open spec fn spec_advance(self) -> core::result::Result<
        (ActionView, HandshakeView),
        ErrorKind,
    > {
        if self.common.send_buffer.len() > 0 {
            self.spec_flush()
        } else {
            match self.phase {
                Phase::SendingNul => match self.spec_mechanism_init() {
                    Err(k) => Err(k),
                    Ok(h) => h.spec_flush(),
                },
                Phase::WaitingForData => self.spec_read_line(),
                Phase::WaitingForOk => self.spec_read_line(),
                Phase::WaitingForAgreeUnixFd => self.spec_read_line(),
                Phase::SendingBegin => Ok(
                    (
                        ActionView::Done(self.common.cap_unix_fd, self.common.recv_buffer),
                        HandshakeView { phase: Phase::Done, ..self },
                    ),
                ),
                _ => Err(ErrorKind::Handshake),
            }
        }
    }

    /// Reads a line of the server, if one has arrived, and acts on it.
    pub open spec fn spec_read_line(self) -> core::result::Result<
        (ActionView, HandshakeView),
        ErrorKind,
    > {
        match self.common.spec_read_command() {
            Err(k) => Err(k),
            Ok(None) => Ok((ActionView::Read(READ_CHUNK as int), self)),
            Ok(Some((command, common))) => (HandshakeView { common, ..self }).spec_handle(command),
        }
    }

    /// The start of a handshake: the zero byte is to be written. A handshake
    /// can be started once.
    pub open spec fn spec_start(self) -> core::result::Result<
        (ActionView, HandshakeView),
        ErrorKind,
    > {
        if self.phase != Phase::Init {
            Err(ErrorKind::Handshake)
        } else {
            (HandshakeView {
                common: CommonView {
                    send_buffer: self.common.send_buffer + seq![0u8],
                    ..self.common
                },
                phase: Phase::SendingNul,
                ..self
            }).spec_flush()
        }
    }

    /// What the handshake does when `n` bytes were written. The zero byte
    /// must be written as exactly one byte, else the handshake fails with
    /// [`ErrorKind::Handshake`]; any other write of no byte fails as
    /// [`IoKind::WriteZero`], and a write of more bytes than were pending
    /// with [`ErrorKind::Handshake`].
    pub open spec fn spec_written(self, n: usize) -> core::result::Result<
        (ActionView, HandshakeView),
        ErrorKind,
    > {
        if self.phase == Phase::SendingNul && self.common.send_buffer.len() > 0 && n != 1 {
            Err(ErrorKind::Handshake)
        } else if n == 0 {
            Err(ErrorKind::InputOutput(IoKind::WriteZero))
        } else if n > self.common.send_buffer.len() {
            Err(ErrorKind::Handshake)
        } else {
            (HandshakeView {
                common: CommonView {
                    send_buffer: self.common.send_buffer.subrange(
                        n as int,
                        self.common.send_buffer.len() as int,
                    ),
                    ..self.common
                },
                ..self
            }).spec_advance()
        }
    }

    /// What the handshake does when bytes were received, with `fds` file
    /// descriptors. A file descriptor, and the end of the stream, fail the
    /// handshake with [`ErrorKind::Handshake`].
    pub open spec fn spec_received(self, data: Seq<u8>, fds: usize) -> core::result::Result<
        (ActionView, HandshakeView),
        ErrorKind,
    > {
        if fds > 0 || data.len() == 0 {
            Err(ErrorKind::Handshake)
        } else {
            (HandshakeView {
                common: CommonView {
                    recv_buffer: self.common.recv_buffer + data,
                    ..self.common
                },
                ..self
            }).spec_advance()
        }
    }

    /// What the handshake does with the keyring file that it asked for and
    /// a client challenge: it asks for the digest of the challenges and the
    /// cookie. It fails with [`ErrorKind::Handshake`] where it did not ask,
    /// where the file is not private to its owner, whatever it holds, where
    /// the file is unusable or does not hold the cookie, as
    /// [`spec_find_cookie`] says, and where the challenge is not sixteen
    /// letters and digits.
    pub open spec fn spec_keyring(self, mode: u32, contents: Seq<u8>, client_challenge: Seq<u8>)
        -> core::result::Result<(ActionView, HandshakeView), ErrorKind> {
        if self.phase != Phase::WaitingForKeyring || !spec_keyring_is_private(mode) {
            Err(ErrorKind::Handshake)
        } else {
            match spec_find_cookie(contents, self.cookie_id, 0, None) {
                Ok(Some(cookie)) => if is_client_challenge(client_challenge) {
                    Ok(
                        (
                            ActionView::Digest(
                                spec_digest_input(self.server_challenge, client_challenge, cookie),
                            ),
                            HandshakeView {
                                phase: Phase::WaitingForDigest,
                                client_challenge,
                                ..self
                            },
                        ),
                    )
                } else {
                    Err(ErrorKind::Handshake)
                },
                _ => Err(ErrorKind::Handshake),
            }
        }
    }

    /// What the handshake does with the digest that it asked for: it sends
    /// its answer to the server's challenge and waits for the decision. It
    /// fails with [`ErrorKind::Handshake`] where it did not ask and where
    /// the digest does not have twenty bytes.
    pub open spec fn spec_digest(self, digest: Seq<u8>) -> core::result::Result<
        (ActionView, HandshakeView),
        ErrorKind,
    > {
        if self.phase != Phase::WaitingForDigest || digest.len() != 20 {
            Err(ErrorKind::Handshake)
        } else {
            (HandshakeView {
                common: self.common.spec_write_command(
                    CommandView::Data(Some(spec_cookie_response(self.client_challenge, digest))),
                ),
                phase: Phase::WaitingForOk,
                ..self
            }).spec_flush()
        }
    }
}

/// Only the answer to `NEGOTIATE_UNIX_FD` decides whether file descriptors
/// can be passed: behind any command that the handshake accepts while it
/// waits for that answer, they can be passed exactly if the command was
/// `AGREE_UNIX_FD`, and `BEGIN` is sent.
pub proof fn lemma_agree_decides_capability(handshake: HandshakeView, command: CommandView)
    requires
        handshake.phase == Phase::WaitingForAgreeUnixFd,
    ensures
        handshake.spec_handle(command) matches Ok((action, after)) ==> {
            &&& after.common.cap_unix_fd == (command is AgreeUnixFD)
            &&& after.phase == Phase::SendingBegin
            &&& action == ActionView::Write(after.common.send_buffer)
        },
        handshake.spec_handle(command) is Ok <==> command is AgreeUnixFD || command is Error,
{
}

/// A handshake that is done reports what was decided while it waited for
/// the answer to `NEGOTIATE_UNIX_FD`, and hands out every byte that was
/// received behind the last line; writing `BEGIN` changes neither.
pub proof fn lemma_done_reports_capability(handshake: HandshakeView, n: usize)
    requires
        handshake.phase == Phase::SendingBegin,
    ensures
        handshake.spec_written(n) matches Ok((action, after)) ==> {
            &&& after.common.cap_unix_fd == handshake.common.cap_unix_fd
            &&& after.common.recv_buffer == handshake.common.recv_buffer
            &&& (action is Done ==> action == ActionView::Done(
                handshake.common.cap_unix_fd,
                handshake.common.recv_buffer,
            ))
            &&& (action is Done <==> n == handshake.common.send_buffer.len())
        },
{
}

/// A rejection moves on to the next mechanism, in order, and the last
/// rejection fails the handshake: behind `REJECTED` the mechanism that was
/// tried is gone and `AUTH` is sent for the one behind it, or the handshake
/// fails with [`ErrorKind::Handshake`] where none is left.
pub proof fn lemma_rejected_tries_next(handshake: HandshakeView, offered: Seq<AuthMechanism>)
    requires
        handshake.phase == Phase::WaitingForOk || handshake.phase == Phase::WaitingForData,
    ensures
        handshake.mechanisms.len() <= 1 ==> handshake.spec_handle(CommandView::Rejected(offered))
            == Err::<(ActionView, HandshakeView), _>(ErrorKind::Handshake),
        handshake.mechanisms.len() > 1 ==> (handshake.spec_handle(CommandView::Rejected(offered))
            matches Ok((action, after)) && {
            &&& after.mechanisms == handshake.mechanisms.drop_first()
            &&& after.common.send_buffer == handshake.common.send_buffer + spec_command_bytes(
                CommandView::Auth(
                    Some(handshake.mechanisms[1]),
                    Some(
                        match handshake.mechanisms[1] {
                            AuthMechanism::Anonymous => "zbus".spec_bytes(),
                            _ => spec_decimal(handshake.auth_id as nat),
                        },
                    ),
                ),
            )
            &&& action == ActionView::Write(after.common.send_buffer)
        }),
{
}

/// A line feed that does not stand behind a carriage return fails the
/// handshake, and so does a file descriptor.
pub proof fn lemma_framing_is_strict(handshake: HandshakeView, data: Seq<u8>, fds: usize)
    ensures
        fds > 0 ==> handshake.spec_received(data, fds) == Err::<(ActionView, HandshakeView), _>(
            ErrorKind::Handshake,
        ),
        ({
            let lf = spec_first_lf(handshake.common.recv_buffer, 0);
            lf < handshake.common.recv_buffer.len() && (lf == 0 || handshake.common.recv_buffer[lf
                - 1] != 0x0d)
        }) ==> handshake.common.spec_read_command() == Err::<
            Option<(CommandView, CommonView)>,
            _,
        >(ErrorKind::Handshake),
{
}

/// A keyring file that its owner's group or others may read or write is
/// refused, whatever it holds.
pub proof fn lemma_keyring_must_be_private(
    handshake: HandshakeView,
    mode: u32,
    contents: Seq<u8>,
    client_challenge: Seq<u8>,
)
    requires
        mode & 0o066 != 0,
    ensures
        handshake.spec_keyring(mode, contents, client_challenge) == Err::<
            (ActionView, HandshakeView),
            _,
        >(ErrorKind::Handshake),
{
}

/// A representation of an in-progress handshake, client-side
///
/// To use it, call [`ClientHandshake::start`], perform the action that it
/// returns, hand the outcome to the method that the action names, and go on
/// with the action that this returns, until it is [`Action::Done`] or an
/// error.
#[derive(Debug)]
pub struct ClientHandshake {
    common: HandshakeCommon,
    phase: Phase,
    mechanisms: Vec<AuthMechanism>,
    server_guid: Option<Guid>,
    can_pass_unix_fd: bool,
    auth_id: u32,
    cookie_id: u64,
    server_challenge: Vec<u8>,
    client_challenge: Vec<u8>,
}

/// The text behind an optional GUID.
pub open spec fn spec_guid_view(guid: Option<Guid>) -> Option<Seq<u8>> {
    match guid {
        Some(g) => Some(g@),
        None => None,
    }
}

impl View for ClientHandshake {
    type V = HandshakeView;

    closed spec fn view(&self) -> HandshakeView {
        HandshakeView {
            common: self.common@,
            phase: self.phase,
            mechanisms: self.mechanisms@,
            server_guid: spec_guid_view(self.server_guid),
            can_pass_unix_fd: self.can_pass_unix_fd,
            auth_id: self.auth_id,
            cookie_id: self.cookie_id,
            server_challenge: self.server_challenge@,
            client_challenge: self.client_challenge@,
        }
    }
}

impl ClientHandshake {
    /// Start a handshake for the user with the given effective user ID, who
    /// authenticates with `EXTERNAL` and negotiates the passing of file
    /// descriptors. `server_guid` is the GUID that the address announced,
    /// if it announced one.
    pub fn new(server_guid: Option<Guid>, auth_id: u32) -> (handshake: ClientHandshake)
        ensures
            handshake@.phase == Phase::Init,
            handshake@.mechanisms == seq![AuthMechanism::External],
            handshake@.server_guid == spec_guid_view(server_guid),
            handshake@.can_pass_unix_fd,
            handshake@.auth_id == auth_id,
            handshake@.common == (CommonView {
                send_buffer: Seq::empty(),
                recv_buffer: Seq::empty(),
                cap_unix_fd: false,
            }),
    {
        let mut mechanisms: Vec<AuthMechanism> = Vec::new();
        mechanisms.push(AuthMechanism::External);
        Self::with_mechanisms(server_guid, auth_id, mechanisms, true)
    }

    /// Start a handshake that tries the given mechanisms in order, and
    /// negotiates the passing of file descriptors if `can_pass_unix_fd` is
    /// set.
    pub fn with_mechanisms(
        server_guid: Option<Guid>,
        auth_id: u32,
        mechanisms: Vec<AuthMechanism>,
        can_pass_unix_fd: bool,
    ) -> (handshake: ClientHandshake)
        ensures
            handshake@.phase == Phase::Init,
            handshake@.mechanisms == mechanisms@,
            handshake@.server_guid == spec_guid_view(server_guid),
            handshake@.can_pass_unix_fd == can_pass_unix_fd,
            handshake@.auth_id == auth_id,
            handshake@.common == (CommonView {
                send_buffer: Seq::empty(),
                recv_buffer: Seq::empty(),
                cap_unix_fd: false,
            }),
    {
        ClientHandshake {
            common: HandshakeCommon::new(),
            phase: Phase::Init,
            mechanisms,
            server_guid,
            can_pass_unix_fd,
            auth_id,
            cookie_id: 0,
            server_challenge: Vec::new(),
            client_challenge: Vec::new(),
        }
    }

    /// Where the handshake stands.
    pub fn phase(&self) -> (phase: Phase)
        ensures
            phase == self@.phase,
    {
        self.phase
    }

    /// The GUID of the server, once it is known.
    pub fn server_guid(&self) -> (guid: Option<&Guid>)
        ensures
            match guid {
                Some(g) => self@.server_guid == Some(g@),
                None => self@.server_guid is None,
            },
    {
        self.server_guid.as_ref()
    }

    /// The action that writes the pending bytes.
    fn flush(&self) -> (action: Action)
        ensures
            action@ == ActionView::Write(self@.common.send_buffer),
    {
        let mut bytes: Vec<u8> = Vec::new();
        write_bytes(&mut bytes, self.common.send_buffer.as_slice());
        assert(bytes@ =~= self.common.send_buffer@);
        Action::Write(bytes)
    }

    /// Opens the conversation with the mechanism that is first in line.
    fn mechanism_init(&mut self) -> (r: Result<(), Error>)
        ensures
            match r {
                Ok(_) => old(self)@.spec_mechanism_init() == Ok::<_, ErrorKind>(final(self)@),
                Err(e) => old(self)@.spec_mechanism_init() == Err::<HandshakeView, _>(
                    e.spec_kind(),
                ),
            },
    {
        if self.mechanisms.len() == 0 {
            return Err(Error::Handshake("Exhausted available AUTH mechanisms".to_owned()));
        }
        let mechanism = self.mechanisms[0];
        let mut response: Vec<u8> = Vec::new();
        match mechanism {
            AuthMechanism::Anonymous => {
                write_bytes(&mut response, "zbus".as_bytes());
                self.phase = Phase::WaitingForOk;
            },
            AuthMechanism::Cookie => {
                write_decimal(&mut response, self.auth_id);
                self.phase = Phase::WaitingForData;
            },
            AuthMechanism::External => {
                write_decimal(&mut response, self.auth_id);
                self.phase = Phase::WaitingForOk;
            },
        }
        assert(response@ =~= match mechanism {
            AuthMechanism::Anonymous => "zbus".spec_bytes(),
            _ => spec_decimal(self.auth_id as nat),
        });
        self.common.write_command(Command::Auth(Some(mechanism), Some(response)));
        Ok(())
    }

    /// Queues `BEGIN` and sets the outcome of the negotiation about file
    /// descriptors.
    fn begin(&mut self, cap_unix_fd: bool)
        ensures
            final(self)@ == old(self)@.spec_begin(cap_unix_fd),
    {
        self.common.cap_unix_fd = cap_unix_fd;
        self.common.write_command(Command::Begin);
        self.phase = Phase::SendingBegin;
    }

    /// Acts on the server's decision that the client is accepted.
    fn accepted(&mut self, guid: Guid) -> (r: Result<Action, Error>)
        ensures
            match r {
                Ok(action) => old(self)@.spec_accepted(guid@) == Ok::<_, ErrorKind>(
                    (action@, final(self)@),
                ),
                Err(e) => old(self)@.spec_accepted(guid@) == Err::<(ActionView, HandshakeView), _>(
                    e.spec_kind(),
                ),
            },
    {
        match &self.server_guid {
            Some(expected) => {
                if !expected.same_as(&guid) {
                    return Err(Error::Handshake("Server GUID mismatch".to_owned()));
                }
            },
            None => {},
        }
        self.server_guid = Some(guid);
        if self.can_pass_unix_fd {
            self.common.write_command(Command::NegotiateUnixFD);
            self.phase = Phase::WaitingForAgreeUnixFd;
        } else {
            self.begin(false);
        }
        Ok(self.flush())
    }

    /// Acts on the server's decision that the mechanism is rejected.
    fn rejected(&mut self) -> (r: Result<Action, Error>)
        ensures
            match r {
                Ok(action) => old(self)@.spec_rejected() == Ok::<_, ErrorKind>(
                    (action@, final(self)@),
                ),
                Err(e) => old(self)@.spec_rejected() == Err::<(ActionView, HandshakeView), _>(
                    e.spec_kind(),
                ),
            },
    {
        if self.mechanisms.len() == 0 {
            return Err(Error::Handshake("Exhausted available AUTH mechanisms".to_owned()));
        }
        let _ = self.mechanisms.remove(0);
        assert(self.mechanisms@ =~= old(self).mechanisms@.drop_first());
        self.mechanism_init()?;
        Ok(self.flush())
    }

    /// Acts on a command of the server.
    fn handle(&mut self, command: Command) -> (r: Result<Action, Error>)
        ensures
            match r {
                Ok(action) => old(self)@.spec_handle(command@) == Ok::<_, ErrorKind>(
                    (action@, final(self)@),
                ),
                Err(e) => old(self)@.spec_handle(command@) == Err::<
                    (ActionView, HandshakeView),
                    _,
                >(e.spec_kind()),
            },
    {
        match self.phase {
            Phase::WaitingForAgreeUnixFd => match command {
                Command::AgreeUnixFD => {
                    self.begin(true);
                    Ok(self.flush())
                },
                Command::Error(_) => {
                    self.begin(false);
                    Ok(self.flush())
                },
                _ => Err(Error::Handshake("Unexpected server UNIX_FD reply".to_owned())),
            },
            Phase::WaitingForOk => match command {
                Command::Okay(guid) => self.accepted(guid),
                Command::Rejected(_) => self.rejected(),
                _ => Err(Error::Handshake("Unexpected server AUTH OK reply".to_owned())),
            },
            Phase::WaitingForData => match command {
                Command::Okay(guid) => self.accepted(guid),
                Command::Rejected(_) => self.rejected(),
                Command::Data(Some(data)) => match parse_challenge(data.as_slice()) {
                    None => Err(Error::Handshake("invalid cookie challenge".to_owned())),
                    Some(challenge) => {
                        self.phase = Phase::WaitingForKeyring;
                        self.cookie_id = challenge.id;
                        self.server_challenge = challenge.server_challenge;
                        Ok(Action::ReadKeyring(challenge.context))
                    },
                },
                _ => Err(Error::Handshake("Unexpected server AUTH reply".to_owned())),
            },
            _ => Err(Error::Handshake("Unexpected server reply".to_owned())),
        }
    }

    /// Reads a line of the server, if one has arrived, and acts on it.
    fn read_line(&mut self) -> (r: Result<Action, Error>)
        ensures
            match r {
                Ok(action) => old(self)@.spec_read_line() == Ok::<_, ErrorKind>(
                    (action@, final(self)@),
                ),
                Err(e) => old(self)@.spec_read_line() == Err::<
                    (ActionView, HandshakeView),
                    _,
                >(e.spec_kind()),
            },
    {
        match self.common.read_command()? {
            None => Ok(Action::Read(READ_CHUNK)),
            Some(command) => self.handle(command),
        }
    }

    /// Says what to do next.
    fn advance(&mut self) -> (r: Result<Action, Error>)
        ensures
            match r {
                Ok(action) => old(self)@.spec_advance() == Ok::<_, ErrorKind>(
                    (action@, final(self)@),
                ),
                Err(e) => old(self)@.spec_advance() == Err::<
                    (ActionView, HandshakeView),
                    _,
                >(e.spec_kind()),
            },
    {
        if self.common.send_buffer.len() > 0 {
            return Ok(self.flush());
        }
        match self.phase {
            Phase::SendingNul => {
                self.mechanism_init()?;
                Ok(self.flush())
            },
            Phase::WaitingForData => self.read_line(),
            Phase::WaitingForOk => self.read_line(),
            Phase::WaitingForAgreeUnixFd => self.read_line(),
            Phase::SendingBegin => {
                self.phase = Phase::Done;
                let mut leftover: Vec<u8> = Vec::new();
                write_bytes(&mut leftover, self.common.recv_buffer.as_slice());
                assert(leftover@ =~= self.common.recv_buffer@);
                Ok(
                    Action::Done(
                        Authenticated {
                            cap_unix_fd: self.common.cap_unix_fd,
                            already_received_bytes: leftover,
                        },
                    ),
                )
            },
            _ => Err(Error::Handshake("nothing to do".to_owned())),
        }
    }

    /// Starts the handshake: asks for the zero byte to be written.
    pub fn start(&mut self) -> (r: Result<Action, Error>)
        ensures
            match r {
                Ok(action) => old(self)@.spec_start() == Ok::<_, ErrorKind>(
                    (action@, final(self)@),
                ),
                Err(e) => old(self)@.spec_start() == Err::<(ActionView, HandshakeView), _>(
                    e.spec_kind(),
                ),
            },
    {
        match self.phase {
            Phase::Init => {},
            _ => {
                return Err(Error::Handshake("handshake was started before".to_owned()));
            },
        }
        self.common.send_buffer.push(0u8);
        assert(self.common.send_buffer@ =~= old(self).common.send_buffer@ + seq![0u8]);
        self.phase = Phase::SendingNul;
        Ok(self.flush())
    }

    /// Takes the number of bytes that the last write wrote, and says what
    /// to do next.
    pub fn written(&mut self, n: usize) -> (r: Result<Action, Error>)
        ensures
            match r {
                Ok(action) => old(self)@.spec_written(n) == Ok::<_, ErrorKind>(
                    (action@, final(self)@),
                ),
                Err(e) => old(self)@.spec_written(n) == Err::<(ActionView, HandshakeView), _>(
                    e.spec_kind(),
                ),
            },
    {
        let sending_nul = match self.phase {
            Phase::SendingNul => true,
            _ => false,
        };
        if sending_nul && self.common.send_buffer.len() > 0 && n != 1 {
            return Err(Error::Handshake("Could not send zero byte with credentials".to_owned()));
        }
        if n == 0 {
            return Err(Error::InputOutput(IoKind::WriteZero));
        }
        if n > self.common.send_buffer.len() {
            return Err(Error::Handshake("more bytes written than were pending".to_owned()));
        }
        let rest = self.common.send_buffer.split_off(n);
        self.common.send_buffer = rest;
        self.advance()
    }

    /// Takes the bytes that the last read received, and the number of file
    /// descriptors that came with them, and says what to do next.
    pub fn received(&mut self, data: &[u8], fds: usize) -> (r: Result<Action, Error>)
        ensures
            match r {
                Ok(action) => old(self)@.spec_received(data@, fds) == Ok::<_, ErrorKind>(
                    (action@, final(self)@),
                ),
                Err(e) => old(self)@.spec_received(data@, fds) == Err::<
                    (ActionView, HandshakeView),
                    _,
                >(e.spec_kind()),
            },
    {
        if fds > 0 {
            return Err(Error::Handshake("Unexpected FDs during handshake".to_owned()));
        }
        if data.len() == 0 {
            return Err(Error::Handshake("Unexpected EOF during handshake".to_owned()));
        }
        write_bytes(&mut self.common.recv_buffer, data);
        self.advance()
    }

    /// Takes the keyring file that was asked for: its permission bits and
    /// its contents, and a client challenge of sixteen random letters and
    /// digits; says what to do next.
    pub fn keyring(&mut self, mode: u32, contents: &[u8], client_challenge: &[u8]) -> (r: Result<
        Action,
        Error,
    >)
        ensures
            match r {
                Ok(action) => old(self)@.spec_keyring(mode, contents@, client_challenge@) == Ok::<
                    _,
                    ErrorKind,
                >((action@, final(self)@)),
                Err(e) => old(self)@.spec_keyring(mode, contents@, client_challenge@) == Err::<
                    (ActionView, HandshakeView),
                    _,
                >(e.spec_kind()),
            },
    {
        match self.phase {
            Phase::WaitingForKeyring => {},
            _ => {
                return Err(Error::Handshake("no keyring was asked for".to_owned()));
            },
        }
        if !keyring_is_private(mode) {
            return Err(
                Error::Handshake("keyring file is readable by group or others".to_owned()),
            );
        }
        let cookie = match find_cookie(contents, self.cookie_id) {
            Ok(Some(cookie)) => cookie,
            Ok(None) => {
                return Err(Error::Handshake("cookie not found in keyring".to_owned()));
            },
            Err(_) => {
                return Err(Error::Handshake("keyring file is malformed".to_owned()));
            },
        };
        if !check_client_challenge(client_challenge) {
            return Err(Error::Handshake("invalid client challenge".to_owned()));
        }
        let input = digest_input(
            self.server_challenge.as_slice(),
            client_challenge,
            cookie.as_slice(),
        );
        let mut challenge: Vec<u8> = Vec::new();
        write_bytes(&mut challenge, client_challenge);
        assert(challenge@ =~= client_challenge@);
        self.client_challenge = challenge;
        self.phase = Phase::WaitingForDigest;
        Ok(Action::Digest(input))
    }

    /// Takes the digest that was asked for, and says what to do next.
    pub fn digest(&mut self, digest: &[u8]) -> (r: Result<Action, Error>)
        ensures
            match r {
                Ok(action) => old(self)@.spec_digest(digest@) == Ok::<_, ErrorKind>(
                    (action@, final(self)@),
                ),
                Err(e) => old(self)@.spec_digest(digest@) == Err::<
                    (ActionView, HandshakeView),
                    _,
                >(e.spec_kind()),
            },
    {
        match self.phase {
            Phase::WaitingForDigest => {},
            _ => {
                return Err(Error::Handshake("no digest was asked for".to_owned()));
            },
        }
        if digest.len() != 20 {
            return Err(Error::Handshake("a SHA-1 digest has 20 bytes".to_owned()));
        }
        let response = cookie_response(self.client_challenge.as_slice(), digest);
        self.common.write_command(Command::Data(Some(response)));
        self.phase = Phase::WaitingForOk;
        Ok(self.flush())
    }
}

} // verus!
