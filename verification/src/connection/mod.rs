//! Connection API.
//!
//! The parts of a connection that decide: which bytes to ask the socket for,
//! when a message is complete, what to write next. The caller performs the
//! reads and writes.

use vstd::prelude::*;

use crate::error::{Error, ErrorKind, IoKind};
use crate::message::Message;
use crate::names::{check_unique_name, is_unique_name};

pub mod command;
pub mod cookie;
pub mod handshake;
pub mod socket_reader;

pub use command::bytes_to_hex;
pub use handshake::{AuthMechanism, Authenticated};
pub use socket_reader::{ReadStep, SocketReader};

verus! {

/// How far the sending of one message has come.
#[derive(Debug, Clone, Copy, PartialEq, Eq, Structural)]
pub struct SendProgress {
    /// The number of bytes that the message has.
    pub len: usize,
    /// Whether file descriptors go with the message.
    pub has_fds: bool,
    /// The number of bytes that were written.
    pub pos: usize,
}

/// What to do next to send a message.
#[derive(Debug, Clone, Copy, PartialEq, Eq, Structural)]
pub enum SendStep {
    /// Write the bytes of the message from `offset` on, in one call, and
    /// hand the number of bytes that were written to
    /// [`SendProgress::written`]. The file descriptors of the message go
    /// with this write exactly where `attach_fds` is set.
    Write {
        /// The offset of the first byte to write.
        offset: usize,
        /// Whether the file descriptors go with this write.
        attach_fds: bool,
    },
    /// Every byte was written.
    Done,
}

impl SendProgress {
    /// Whether the file descriptors go with the next write: there are some,
    /// and nothing was written yet.
    pub open spec fn spec_attaches(self) -> bool {
        self.has_fds && self.pos == 0 && self.pos < self.len
    }

    /// What to do next: write from where the last write ended, or nothing
    /// once that is the end of the message.
    pub open spec fn spec_next_step(self) -> SendStep {
        if self.pos < self.len {
            SendStep::Write { offset: self.pos, attach_fds: self.has_fds && self.pos == 0 }
        } else {
            SendStep::Done
        }
    }

    /// The progress after a write of `n` bytes. A write of no bytes is
    /// [`IoKind::WriteZero`], a write of more bytes than were left is
    /// [`IoKind::InvalidInput`]; both leave the progress as it is.
    pub open spec fn spec_written(self, n: usize) -> (
        core::result::Result<(), ErrorKind>,
        SendProgress,
    ) {
        if n == 0 {
            (Err(ErrorKind::InputOutput(IoKind::WriteZero)), self)
        } else if self.pos > self.len || n > self.len - self.pos {
            (Err(ErrorKind::InputOutput(IoKind::InvalidInput)), self)
        } else {
            (Ok(()), SendProgress { pos: (self.pos + n) as usize, ..self })
        }
    }

    /// The number of writes that the file descriptors go with, in a run of
    /// writes that wrote the given numbers of bytes.
    pub open spec fn spec_attach_count(self, writes: Seq<usize>) -> nat
        decreases writes.len(),
    {
        if writes.len() == 0 {
            0
        } else {
            let here: nat = if self.spec_attaches() {
                1
            } else {
                0
            };
            here + self.spec_written(writes[0]).1.spec_attach_count(writes.drop_first())
        }
    }

    /// What to do next.
    pub fn next_step(&self) -> (step: SendStep)
        ensures
            step == self.spec_next_step(),
            step matches SendStep::Write { offset, attach_fds } ==> offset < self.len && attach_fds
                == self.spec_attaches(),
    {
        if self.pos < self.len {
            SendStep::Write { offset: self.pos, attach_fds: self.has_fds && self.pos == 0 }
        } else {
            SendStep::Done
        }
    }

    /// Takes the number of bytes that one write wrote.
    pub fn written(&mut self, n: usize) -> (r: Result<(), Error>)
        ensures
            *final(self) == old(self).spec_written(n).1,
            match r {
                Ok(_) => old(self).spec_written(n).0 is Ok,
                Err(e) => old(self).spec_written(n).0 == Err::<(), _>(e.spec_kind()),
            },
    {
        if n == 0 {
            return Err(Error::InputOutput(IoKind::WriteZero));
        }
        if self.pos > self.len || n > self.len - self.pos {
            return Err(Error::InputOutput(IoKind::InvalidInput));
        }
        self.pos = self.pos + n;
        Ok(())
    }

    /// Once a byte is written, the file descriptors go with no further
    /// write.
    pub proof fn lemma_no_attach_after_first(self, writes: Seq<usize>)
        requires
            self.pos > 0,
        ensures
            self.spec_attach_count(writes) == 0,
        decreases writes.len(),
    {
        if writes.len() > 0 {
            self.spec_written(writes[0]).1.lemma_no_attach_after_first(writes.drop_first());
        }
    }

    /// File descriptors go with exactly one write, the first: in every run
    /// of writes that each wrote at least one byte, for a message that has
    /// file descriptors.
    pub proof fn lemma_fds_attached_once(self, writes: Seq<usize>)
        requires
            self.pos == 0,
            self.len > 0,
            self.has_fds,
            writes.len() > 0,
            forall|i: int| 0 <= i < writes.len() ==> 1 <= #[trigger] writes[i],
            writes[0] <= self.len,
        ensures
            self.spec_attaches(),
            self.spec_attach_count(writes) == 1,
    {
        self.spec_written(writes[0]).1.lemma_no_attach_after_first(writes.drop_first());
    }
}

/// What a connection holds.
pub struct ConnectionView {
    /// Whether both sides agreed to pass file descriptors.
    pub cap_unix_fd: bool,
    /// The unique name of the connection on the bus, once it is known.
    pub unique_name: Option<Seq<char>>,
    /// The descriptor of the socket.
    pub raw_fd: i32,
    /// Whether the connection was closed.
    pub closed: bool,
}

/// A connection to a message bus, after the handshake.
#[derive(Debug)]
pub struct Connection {
    cap_unix_fd: bool,
    unique_name: Option<String>,
    raw_fd: i32,
    closed: bool,
}

impl View for Connection {
    type V = ConnectionView;

    closed spec fn view(&self) -> ConnectionView {
        ConnectionView {
            cap_unix_fd: self.cap_unix_fd,
            unique_name: crate::message::fields::spec_text(self.unique_name),
            raw_fd: self.raw_fd,
            closed: self.closed,
        }
    }
}

impl Connection {
    /// The connection that a handshake has opened on the socket with the
    /// given descriptor, and the reader of its messages, which starts with
    /// the bytes that the handshake received behind its last line.
    pub fn new(auth: Authenticated, raw_fd: i32) -> (r: (Connection, SocketReader))
        ensures
            r.0@ == (ConnectionView {
                cap_unix_fd: auth.cap_unix_fd,
                unique_name: None,
                raw_fd,
                closed: false,
            }),
            r.1@ == (socket_reader::ReaderView {
                buffer: auth.already_received_bytes@,
                fds: Seq::empty(),
                prev_seq: 0,
            }),
    {
        let connection = Connection {
            cap_unix_fd: auth.cap_unix_fd,
            unique_name: None,
            raw_fd,
            closed: false,
        };
        (connection, SocketReader::new(auth.already_received_bytes))
    }

    /// Starts to send `msg` to the peer: says whether the message can be
    /// sent on this connection, and if so hands out the progress of the
    /// sending, at its start. A closed connection is
    /// [`IoKind::BrokenPipe`]; a message with file descriptors on a
    /// connection that did not agree to pass them is
    /// [`Error::Unsupported`].
    pub fn send(&self, msg: &Message) -> (r: Result<SendProgress, Error>)
        ensures
            match r {
                Ok(p) => {
                    &&& !self@.closed
                    &&& !(msg.spec_fds().len() > 0 && !self@.cap_unix_fd)
                    &&& p == (SendProgress {
                        len: msg.spec_data().len() as usize,
                        has_fds: msg.spec_fds().len() > 0,
                        pos: 0,
                    })
                    &&& p.len > 0
                },
                Err(e) => if self@.closed {
                    e.spec_kind() == ErrorKind::InputOutput(IoKind::BrokenPipe)
                } else {
                    e is Unsupported && msg.spec_fds().len() > 0 && !self@.cap_unix_fd
                },
            },
    {
        if self.closed {
            return Err(Error::InputOutput(IoKind::BrokenPipe));
        }
        let has_fds = msg.fds().len() > 0;
        if has_fds && !self.cap_unix_fd {
            return Err(Error::Unsupported);
        }
        let data = msg.data();
        proof {
            msg.lemma_header_of_bytes();
        }
        Ok(SendProgress { len: data.len(), has_fds, pos: 0 })
    }

    /// Whether both sides agreed to pass file descriptors.
    pub fn cap_unix_fd(&self) -> (cap: bool)
        ensures
            cap == self@.cap_unix_fd,
    {
        self.cap_unix_fd
    }

    /// The unique name of the connection, if set.
    ///
    /// The unique name is assigned by the message bus and set with
    /// [`Connection::set_unique_name`].
    pub fn unique_name(&self) -> (name: Option<&String>)
        ensures
            crate::message::fields::spec_text_ref(name) == self@.unique_name,
    {
        self.unique_name.as_ref()
    }

    /// Sets the unique name of the connection, once: a connection that has
    /// its name keeps it, and the answer is `false`. A text that is no
    /// unique name is [`Error::Name`].
    pub fn set_unique_name(&mut self, name: &str) -> (r: Result<bool, Error>)
        ensures
            match r {
                Ok(set) => {
                    &&& is_unique_name(name@)
                    &&& set == (old(self)@.unique_name is None)
                    &&& final(self)@ == (ConnectionView {
                        unique_name: if set {
                            Some(name@)
                        } else {
                            old(self)@.unique_name
                        },
                        ..old(self)@
                    })
                },
                Err(e) => e is Name && !is_unique_name(name@) && final(self)@ == old(self)@,
            },
    {
        if !check_unique_name(name) {
            return Err(Error::Name("invalid unique name".to_owned()));
        }
        if self.unique_name.is_some() {
            return Ok(false);
        }
        self.unique_name = Some(name.to_owned());
        Ok(true)
    }

    /// The descriptor of the socket, for use with an external event loop.
    pub fn as_raw_fd(&self) -> (fd: i32)
        ensures
            fd == self@.raw_fd,
    {
        self.raw_fd
    }

    /// Marks the connection closed. Nothing can be sent on it afterwards.
    pub fn close(&mut self)
        ensures
            final(self)@ == (ConnectionView { closed: true, ..old(self)@ }),
    {
        self.closed = true;
    }

    /// Whether the connection was closed.
    pub fn is_closed(&self) -> (closed: bool)
        ensures
            closed == self@.closed,
    {
        self.closed
    }
}

} // verus!
