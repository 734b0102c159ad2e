//! Recovering messages from the byte stream of a socket.

use vstd::prelude::*;

use crate::error::{Error, ErrorKind, IoKind};
use crate::message::fields::write_bytes;
use crate::message::{frame_len, spec_frame_len, spec_parse_message, Message, MessageView};

verus! {

/// What a reader holds between two calls.
pub struct ReaderView {
    /// The bytes that were received and are not yet part of a message that
    /// was handed out.
    pub buffer: Seq<u8>,
    /// The file descriptors that were received since the last message.
    pub fds: Seq<i32>,
    /// The position of the last message that was handed out.
    pub prev_seq: u64,
}

/// What the reader wants next.
#[derive(Debug)]
pub enum ReadStep {
    /// Receive at most this many bytes from the socket and hand them to
    /// [`SocketReader::received`]. The number is never zero.
    Recv(usize),
    /// A whole message has arrived.
    Message(Message),
}

/// A step, with what the message in it holds.
pub enum ReadStepView {
    /// See [`ReadStep::Recv`].
    Recv(int),
    /// See [`ReadStep::Message`].
    Message(MessageView),
}

impl ReadStep {
    /// What the step holds.
    pub open spec fn spec_view(&self) -> ReadStepView {
        match self {
            ReadStep::Recv(n) => ReadStepView::Recv(*n as int),
            ReadStep::Message(m) => ReadStepView::Message(m@),
        }
    }
}

impl ReaderView {
    /// The reader after bytes and file descriptors were received. Nothing
    /// received means that the peer has closed the stream: that is
    /// [`IoKind::UnexpectedEof`], and the reader stays as it is.
    pub open spec fn spec_received(self, data: Seq<u8>, fds: Seq<i32>) -> (
        core::result::Result<(), ErrorKind>,
        ReaderView,
    ) {
        if data.len() == 0 {
            (Err(ErrorKind::InputOutput(IoKind::UnexpectedEof)), self)
        } else {
            (Ok(()), ReaderView { buffer: self.buffer + data, fds: self.fds + fds, ..self })
        }
    }

    /// What the reader does with what it holds, and the reader after that.
    ///
    /// With fewer than 16 bytes it asks for the rest of them. With 16 bytes
    /// or more it reads the length of the message from the first 16, as
    /// [`spec_frame_len`] says, and fails as that does, staying as it is.
    /// With fewer bytes than the message has it asks for the rest of them.
    /// Else it takes the bytes of the message off the front of the buffer,
    /// keeps what is behind them for the next message, takes all the file
    /// descriptors, counts the message, and hands it out as
    /// [`spec_parse_message`] reads it, or fails as that does. A reader that
    /// has counted `u64::MAX` messages fails with [`ErrorKind::ExcessData`].
    pub open spec fn spec_read(self) -> (core::result::Result<ReadStepView, ErrorKind>, ReaderView) {
        if self.buffer.len() < 16 {
            (Ok(ReadStepView::Recv(16 - self.buffer.len())), self)
        } else {
            match spec_frame_len(self.buffer) {
                Err(k) => (Err(k), self),
                Ok(total) => if self.buffer.len() < total {
                    (Ok(ReadStepView::Recv(total - self.buffer.len())), self)
                } else if self.prev_seq == u64::MAX {
                    (Err(ErrorKind::ExcessData), self)
                } else {
                    let frame = self.buffer.subrange(0, total);
                    let seq = (self.prev_seq + 1) as u64;
                    let after = ReaderView {
                        buffer: self.buffer.subrange(total, self.buffer.len() as int),
                        fds: Seq::empty(),
                        prev_seq: seq,
                    };
                    match spec_parse_message(frame) {
                        Err(k) => (Err(k), after),
                        Ok((header, body_offset)) => (
                            Ok(
                                ReadStepView::Message(
                                    MessageView {
                                        header,
                                        data: frame,
                                        body_offset,
                                        fds: self.fds,
                                        recv_seq: seq,
                                    },
                                ),
                            ),
                            after,
                        ),
                    }
                },
            }
        }
    }
}

/// One thing that happens to a reader.
pub enum ReaderEvent {
    /// The reader is asked what it wants next.
    Read,
    /// Bytes and file descriptors are handed to the reader.
    Received(Seq<u8>, Seq<i32>),
}

/// The reader after a sequence of events.
pub open spec fn spec_run(reader: ReaderView, events: Seq<ReaderEvent>) -> ReaderView
    decreases events.len(),
{
    if events.len() == 0 {
        reader
    } else {
        let next = match events[0] {
            ReaderEvent::Read => reader.spec_read().1,
            ReaderEvent::Received(data, fds) => reader.spec_received(data, fds).1,
        };
        spec_run(next, events.drop_first())
    }
}

/// The count of messages never goes back, whatever happens to a reader.
pub proof fn lemma_run_keeps_order(reader: ReaderView, events: Seq<ReaderEvent>)
    ensures
        spec_run(reader, events).prev_seq >= reader.prev_seq,
    decreases events.len(),
{
    if events.len() > 0 {
        let next = match events[0] {
            ReaderEvent::Read => reader.spec_read().1,
            ReaderEvent::Received(data, fds) => reader.spec_received(data, fds).1,
        };
        lemma_run_keeps_order(next, events.drop_first());
    }
}

/// Messages come out in order: of two messages that one reader hands out,
/// with anything happening in between, the later one has the larger
/// position.
pub proof fn lemma_recv_order(reader: ReaderView, between: Seq<ReaderEvent>)
    ensures
        reader.spec_read().0 matches Ok(ReadStepView::Message(first)) ==> (spec_run(
            reader.spec_read().1,
            between,
        ).spec_read().0 matches Ok(ReadStepView::Message(second)) ==> second.recv_seq
            > first.recv_seq),
{
    lemma_run_keeps_order(reader.spec_read().1, between);
}

/// Framing round trip: a reader that holds the bytes of a message, and
/// nothing else, hands out a message with the same header, bytes and body
/// offset, and with the file descriptors that it received.
pub proof fn lemma_framing_round_trip(message: Message, reader: ReaderView)
    requires
        message.wf(),
        reader.buffer == message.spec_data(),
        reader.prev_seq < u64::MAX,
    ensures
        reader.spec_read().0 == Ok::<_, ErrorKind>(
            ReadStepView::Message(
                MessageView {
                    header: message.spec_header(),
                    data: message.spec_data(),
                    body_offset: message.spec_body_offset(),
                    fds: reader.fds,
                    recv_seq: (reader.prev_seq + 1) as u64,
                },
            ),
        ),
        reader.spec_read().1.buffer.len() == 0,
{
    message.lemma_header_of_bytes();
    let buf = reader.buffer;
    assert(buf.subrange(0, buf.len() as int) =~= buf);
}

/// The length of a message is read from its first 16 bytes alone.
pub proof fn lemma_frame_len_of_prefix(buf: Seq<u8>, n: int)
    requires
        16 <= n <= buf.len(),
    ensures
        spec_frame_len(buf.subrange(0, n)) == spec_frame_len(buf),
{
    let part = buf.subrange(0, n);
    assert(forall|i: int| 0 <= i < 16 ==> part[i] == buf[i]);
}

/// The bytes of chunks, one behind the other.
pub open spec fn spec_concat(chunks: Seq<Seq<u8>>) -> Seq<u8>
    decreases chunks.len(),
{
    if chunks.len() == 0 {
        Seq::empty()
    } else {
        chunks[0] + spec_concat(chunks.drop_first())
    }
}

/// The reader after it was fed chunks of bytes: before each chunk it is
/// asked what it wants, then it is handed the chunk.
pub open spec fn spec_fed(reader: ReaderView, chunks: Seq<Seq<u8>>) -> ReaderView
    decreases chunks.len(),
{
    if chunks.len() == 0 {
        reader
    } else {
        spec_fed(
            reader.spec_read().1.spec_received(chunks[0], Seq::empty()).1,
            chunks.drop_first(),
        )
    }
}

/// A reader that holds the start of a message, but not all of it, asks for
/// more and stays as it is.
pub proof fn lemma_partial_message_waits(message: Message, reader: ReaderView)
    requires
        message.wf(),
        reader.buffer.len() < message.spec_data().len(),
        reader.buffer == message.spec_data().subrange(0, reader.buffer.len() as int),
    ensures
        reader.spec_read().1 == reader,
        reader.spec_read().0 matches Ok(ReadStepView::Recv(n)) && 0 < n <= message.spec_data().len()
            - reader.buffer.len(),
{
    message.lemma_header_of_bytes();
    if reader.buffer.len() >= 16 {
        lemma_frame_len_of_prefix(message.spec_data(), reader.buffer.len() as int);
    }
}

/// A reader that holds the start of a message, and is fed the rest of it in
/// chunks, holds the message in the end, and has handed out nothing on the
/// way.
pub proof fn lemma_feed_collects(message: Message, reader: ReaderView, chunks: Seq<Seq<u8>>)
    requires
        message.wf(),
        reader.buffer + spec_concat(chunks) == message.spec_data(),
        forall|i: int| 0 <= i < chunks.len() ==> (#[trigger] chunks[i]).len() > 0,
    ensures
        spec_fed(reader, chunks) == (ReaderView { buffer: message.spec_data(), ..reader }),
    decreases chunks.len(),
{
    if chunks.len() == 0 {
        assert(reader.buffer + Seq::<u8>::empty() =~= reader.buffer);
    } else {
        let data = message.spec_data();
        let rest = chunks.drop_first();
        assert(reader.buffer =~= data.subrange(0, reader.buffer.len() as int));
        lemma_partial_message_waits(message, reader);
        let fed = reader.spec_received(chunks[0], Seq::empty()).1;
        assert(fed.fds =~= reader.fds);
        assert(fed.buffer + spec_concat(rest) =~= data);
        assert forall|i: int| 0 <= i < rest.len() implies (#[trigger] rest[i]).len() > 0 by {
            assert(rest[i] == chunks[i + 1]);
        }
        lemma_feed_collects(message, fed, rest);
    }
}

/// Framing round trip, chunk by chunk: a reader that is fed the bytes of a
/// message in chunks of any sizes hands out a message with the same header,
/// bytes and body offset.
pub proof fn lemma_framing_round_trip_in_chunks(
    message: Message,
    reader: ReaderView,
    chunks: Seq<Seq<u8>>,
)
    requires
        message.wf(),
        reader.buffer.len() == 0,
        reader.prev_seq < u64::MAX,
        spec_concat(chunks) == message.spec_data(),
        forall|i: int| 0 <= i < chunks.len() ==> (#[trigger] chunks[i]).len() > 0,
    ensures
        spec_fed(reader, chunks).spec_read().0 == Ok::<_, ErrorKind>(
            ReadStepView::Message(
                MessageView {
                    header: message.spec_header(),
                    data: message.spec_data(),
                    body_offset: message.spec_body_offset(),
                    fds: reader.fds,
                    recv_seq: (reader.prev_seq + 1) as u64,
                },
            ),
        ),
{
    assert(reader.buffer + spec_concat(chunks) =~= message.spec_data());
    lemma_feed_collects(message, reader, chunks);
    lemma_framing_round_trip(message, spec_fed(reader, chunks));
}

/// Reads messages from the bytes that a socket yields.
///
/// The reader does not touch the socket. [`SocketReader::read_socket`] says
/// how many bytes to receive; the caller receives them and hands them over
/// with [`SocketReader::received`]; and so on until `read_socket` hands out
/// a message.
#[derive(Debug)]
pub struct SocketReader {
    buffer: Vec<u8>,
    fds: Vec<i32>,
    prev_seq: u64,
}

impl View for SocketReader {
    type V = ReaderView;

    closed spec fn view(&self) -> ReaderView {
        ReaderView { buffer: self.buffer@, fds: self.fds@, prev_seq: self.prev_seq }
    }
}

impl SocketReader {
    /// A reader that starts with the bytes that were received before it was
    /// made, and has handed out no message yet.
    pub fn new(already_received_bytes: Vec<u8>) -> (reader: SocketReader)
        ensures
            reader@ == (ReaderView {
                buffer: already_received_bytes@,
                fds: Seq::empty(),
                prev_seq: 0,
            }),
    {
        SocketReader { buffer: already_received_bytes, fds: Vec::new(), prev_seq: 0 }
    }

    /// Takes what one receive on the socket gave: the bytes, which are put
    /// behind those that are there, and the file descriptors.
    pub fn received(&mut self, data: &[u8], fds: &[i32]) -> (r: Result<(), Error>)
        ensures
            final(self)@ == old(self)@.spec_received(data@, fds@).1,
            match r {
                Ok(_) => old(self)@.spec_received(data@, fds@).0 is Ok,
                Err(e) => old(self)@.spec_received(data@, fds@).0 == Err::<(), _>(e.spec_kind()),
            },
    {
        if data.len() == 0 {
            return Err(Error::InputOutput(IoKind::UnexpectedEof));
        }
        write_bytes(&mut self.buffer, data);
        let mut i: usize = 0;
        while i < fds.len()
            invariant
                i <= fds.len(),
                self.buffer@ == old(self).buffer@ + data@,
                self.prev_seq == old(self).prev_seq,
                self.fds@ == old(self).fds@ + fds@.subrange(0, i as int),
            decreases fds.len() - i,
        {
            self.fds.push(fds[i]);
            i = i + 1;
            assert(self.fds@ =~= old(self).fds@ + fds@.subrange(0, i as int));
        }
        assert(fds@.subrange(0, fds@.len() as int) =~= fds@);
        Ok(())
    }

    /// Says what to do next: receive more bytes, or take the message that
    /// has arrived.
    pub fn read_socket(&mut self) -> (r: Result<ReadStep, Error>)
        ensures
            final(self)@ == old(self)@.spec_read().1,
            match r {
                Ok(step) => {
                    &&& old(self)@.spec_read().0 == Ok::<_, ErrorKind>(step.spec_view())
                    &&& step matches ReadStep::Message(m) ==> m.wf()
                    &&& step matches ReadStep::Recv(n) ==> n > 0
                },
                Err(e) => old(self)@.spec_read().0 == Err::<ReadStepView, _>(e.spec_kind()),
            },
    {
        let pos = self.buffer.len();
        if pos < 16 {
            // We don't have enough data to make a proper message header yet.
            return Ok(ReadStep::Recv(16 - pos));
        }
        let total_len = frame_len(self.buffer.as_slice())?;
        if pos < total_len {
            // Now we have an incomplete message; read the rest
            return Ok(ReadStep::Recv(total_len - pos));
        }
        if self.prev_seq == u64::MAX {
            return Err(Error::ExcessData);
        }
        // If we reach here, the message is complete; return it
        let seq = self.prev_seq + 1;
        self.prev_seq = seq;
        let mut bytes: Vec<u8> = Vec::new();
        core::mem::swap(&mut bytes, &mut self.buffer);
        let rest = bytes.split_off(total_len);
        self.buffer = rest;
        let mut fds: Vec<i32> = Vec::new();
        core::mem::swap(&mut fds, &mut self.fds);
        let message = Message::from_raw_parts(bytes, fds, seq)?;
        Ok(ReadStep::Message(message))
    }
}

} // verus!
