//! D-Bus Message.
//!
//! A message is a frame of bytes: a header of 16 fixed bytes and a field
//! array, zero bytes up to the next 8-byte boundary, and the body. The
//! functions here state exactly which bytes are a message and which header
//! they are the message of.

use vstd::prelude::*;
use vstd::slice::slice_subrange;
use vstd::string::{StrSliceExecFns, StringExecFns};
use vstd::utf8::{decode_utf8, valid_utf8};

use crate::error::{Error, ErrorKind};
use crate::names::{is_error_name, is_interface_name, is_member_name, is_object_path};
use crate::utils::{padding_for_8_bytes, spec_padding_for_8_bytes};

pub mod builder;
pub mod field_code;
pub mod fields;
pub mod header;
pub mod wire;

pub use builder::Builder;
pub use field_code::FieldCode;
pub use fields::{Field, Fields, FieldsView};
pub use header::{EndianSig, FlagSet, Flags, Header, HeaderView, PrimaryHeader, SerialCounter, Type};
use fields::{spec_parse_fields, text_from_utf8};
use header::MAX_MESSAGE_SIZE;
use wire::{read_u32, spec_u32_at, spec_zeros};

verus! {

/// A position in the stream of [`Message`] objects received by a single
/// connection.
///
/// Note: the relative ordering of values obtained from distinct connections
/// is not specified; only sequence numbers originating from the same
/// connection should be compared. Zero is the position of a message that was
/// not read from a connection.
#[derive(Debug, Copy, Clone, Ord, PartialOrd, Eq, PartialEq, Hash, Structural)]
pub struct Sequence {
    /// The number of the message in the stream, counted from 1.
    pub recv_seq: u64,
}

impl Default for Sequence {
    fn default() -> (s: Sequence)
        ensures
            s.recv_seq == 0,
    {
        Sequence { recv_seq: 0 }
    }
}

/// The offset of the body in a message whose field array has `fields_len`
/// bytes: the end of the header, rounded up to a multiple of eight.
pub open spec fn spec_body_offset(fields_len: int) -> int {
    16 + fields_len + spec_padding_for_8_bytes(16 + fields_len)
}

/// The length of the whole message whose first sixteen bytes `buf` starts
/// with, or the kind of error that those bytes are: what
/// [`PrimaryHeader::spec_read`] says, or [`ErrorKind::ExcessData`] where the
/// message would be larger than [`MAX_MESSAGE_SIZE`].
pub open spec fn spec_frame_len(buf: Seq<u8>) -> core::result::Result<int, ErrorKind> {
    match PrimaryHeader::spec_read(buf) {
        Err(k) => Err(k),
        Ok((primary, fields_len)) => {
            let total = spec_body_offset(fields_len as int) + primary.body_len;
            if total > MAX_MESSAGE_SIZE {
                Err(ErrorKind::ExcessData)
            } else {
                Ok(total)
            }
        },
    }
}

/// The header of the message that `buf` is, and the offset of its body; or
/// the kind of error that `buf` is. In this order: the primary header is
/// read and the length of the message is found, as [`spec_frame_len`] says;
/// `buf` must have exactly that length, else [`ErrorKind::Type`]; the field
/// array is read as [`spec_parse_fields`] says; and the names in the fields
/// are held against their grammars, as [`FieldsView::spec_first_invalid`]
/// says.
pub open spec fn spec_parse_message(buf: Seq<u8>) -> core::result::Result<(HeaderView, int), ErrorKind> {
    match spec_frame_len(buf) {
        Err(k) => Err(k),
        Ok(total) => if buf.len() != total {
            Err(ErrorKind::Type)
        } else {
            let (primary, fields_len) = PrimaryHeader::spec_read(buf)->Ok_0;
            match spec_parse_fields(
                buf,
                16,
                16 + fields_len,
                primary.endian_sig,
                FieldsView::spec_empty(),
            ) {
                Err(k) => Err(k),
                Ok(fields) => match fields.spec_first_invalid() {
                    Some(k) => Err(k),
                    None => Ok((HeaderView { primary, fields }, spec_body_offset(fields_len as int))),
                },
            }
        },
    }
}

/// The bytes of the message with the given header and body: the primary
/// header with the length of the field array, the field array, zero bytes
/// up to the next 8-byte boundary, and the body.
pub open spec fn spec_message_bytes(header: HeaderView, body: Seq<u8>) -> Seq<u8> {
    let fields = header.fields.spec_bytes(header.primary.endian_sig);
    header.primary.spec_bytes(fields.len() as u32) + fields + spec_zeros(
        spec_padding_for_8_bytes(16 + fields.len() as int),
    ) + body
}

/// The body always starts on an 8-byte boundary, fewer than eight bytes
/// behind the end of the header.
pub proof fn lemma_body_alignment(fields_len: int)
    requires
        fields_len >= 0,
    ensures
        spec_body_offset(fields_len) % 8 == 0,
        0 <= spec_body_offset(fields_len) - (16 + fields_len) < 8,
{
}

/// The bytes that are written for a message are read back as that message:
/// with the header that was written and the body where it was put, or, where
/// a name in the header is ill formed, as the error of that name.
#[verifier::rlimit(40)]
pub proof fn lemma_parse_message_bytes(header: HeaderView, body: Seq<u8>)
    requires
        header.primary.wf(),
        header.fields.wf(),
        header.primary.body_len == body.len(),
        spec_message_bytes(header, body).len() <= MAX_MESSAGE_SIZE,
    ensures
        spec_parse_message(spec_message_bytes(header, body)) == match header.fields.spec_first_invalid() {
            Some(k) => Err::<(HeaderView, int), _>(k),
            None => Ok(
                (header, spec_body_offset(header.fields.spec_bytes(header.primary.endian_sig).len() as int)),
            ),
        },
        spec_message_bytes(header, body).len() == spec_body_offset(
            header.fields.spec_bytes(header.primary.endian_sig).len() as int,
        ) + body.len(),
        spec_message_bytes(header, body).subrange(
            spec_body_offset(header.fields.spec_bytes(header.primary.endian_sig).len() as int),
            spec_message_bytes(header, body).len() as int,
        ) == body,
{
    let endian = header.primary.endian_sig;
    let fields = header.fields.spec_bytes(endian);
    let len = fields.len() as int;
    let padding = spec_zeros(spec_padding_for_8_bytes(16 + len));
    let buf = spec_message_bytes(header, body);
    let rest = fields + padding + body;
    header.primary.lemma_read_write(len as u32, rest);
    assert(buf =~= header.primary.spec_bytes(len as u32) + rest);
    assert(buf.subrange(16, 16 + len) =~= fields);
    header.fields.lemma_text_fits(endian);
    header.fields.lemma_read_to_bytes(endian, buf);
    assert(buf.subrange(spec_body_offset(len), buf.len() as int) =~= body);
}

/// Writes the message with the given header and body. Fails with
/// [`Error::ExcessData`] exactly where the message would be larger than
/// [`MAX_MESSAGE_SIZE`].
pub fn message_bytes(header: &Header, body: &[u8]) -> (r: Result<Vec<u8>, Error>)
    requires
        header@.fields.wf(),
    ensures
        match r {
            Ok(bytes) => bytes@ == spec_message_bytes(header@, body@) && bytes@.len()
                <= MAX_MESSAGE_SIZE,
            Err(e) => e is ExcessData && spec_message_bytes(header@, body@).len()
                > MAX_MESSAGE_SIZE,
        },
{
    let primary = header.primary();
    let array = header.fields().to_bytes(primary.endian_sig())?;
    // We need to align the body to 8-byte boundary.
    let hdr_len = 16 + array.len();
    let body_padding = padding_for_8_bytes(hdr_len);
    let body_offset = hdr_len + body_padding;
    if body.len() > MAX_MESSAGE_SIZE || body_offset > MAX_MESSAGE_SIZE - body.len() {
        return Err(Error::ExcessData);
    }
    let mut bytes: Vec<u8> = Vec::with_capacity(body_offset + body.len());
    primary.write(array.len() as u32, &mut bytes);
    fields::write_bytes(&mut bytes, array.as_slice());
    wire::write_zeros(&mut bytes, body_padding);
    fields::write_bytes(&mut bytes, body);
    assert(bytes@ =~= spec_message_bytes(header@, body@));
    Ok(bytes)
}

/// Reads the length of the whole message from its first sixteen bytes.
pub fn frame_len(buf: &[u8]) -> (r: Result<usize, Error>)
    ensures
        match r {
            Ok(total) => spec_frame_len(buf@) == Ok::<int, ErrorKind>(total as int) && 16 <= total
                <= MAX_MESSAGE_SIZE,
            Err(e) => spec_frame_len(buf@) == Err::<int, _>(e.spec_kind()),
        },
{
    let (primary, fields_len) = PrimaryHeader::read(buf)?;
    let header_len: u64 = 16 + fields_len as u64;
    let padding: u64 = (8 - header_len % 8) % 8;
    let total: u64 = header_len + padding + primary.body_len() as u64;
    if total > MAX_MESSAGE_SIZE as u64 {
        return Err(Error::ExcessData);
    }
    Ok(total as usize)
}

/// The text that a body starts with, if its signature says that it starts
/// with one: with a string or an object path, which have a 32-bit length, or
/// with a signature or a variant, which have an 8-bit length. The text must
/// lie inside the body, hold no zero byte and be UTF-8.
pub open spec fn spec_first_text(signature: Option<Seq<char>>, body: Seq<u8>, endian: EndianSig)
    -> Option<Seq<char>> {
    match signature {
        None => None,
        Some(sig) => if sig.len() == 0 {
            None
        } else {
            let short = sig[0] == 'g' || sig[0] == 'v';
            let text_at: int = if short {
                1
            } else {
                4
            };
            if !(short || sig[0] == 's' || sig[0] == 'o') || body.len() < text_at {
                None
            } else {
                let len = if short {
                    body[0] as int
                } else {
                    spec_u32_at(body, 0, endian) as int
                };
                let bytes = body.subrange(text_at, text_at + len);
                if text_at + len > body.len() || bytes.contains(0u8) || !valid_utf8(bytes) {
                    None
                } else {
                    Some(decode_utf8(bytes))
                }
            }
        },
    }
}

/// A text behind a prefix, or nothing where there is no text.
pub open spec fn spec_prefixed(prefix: Seq<char>, text: Option<Seq<char>>) -> Seq<char> {
    match text {
        Some(t) => prefix + t,
        None => Seq::empty(),
    }
}

/// One line that says what a message is: its type; the member of a method
/// call or signal; the name of an error and the text that its body starts
/// with; and the sender.
pub open spec fn spec_describe(header: HeaderView, text: Option<Seq<char>>) -> Seq<char> {
    (match header.primary.msg_type {
        Type::MethodCall => "Method call"@ + spec_prefixed(" "@, header.fields.member),
        Type::MethodReturn => "Method return"@,
        Type::Error => "Error"@ + spec_prefixed(" "@, header.fields.error_name) + spec_prefixed(
            ": "@,
            text,
        ),
        Type::Signal => "Signal"@ + spec_prefixed(" "@, header.fields.member),
    }) + spec_prefixed(" from "@, header.fields.sender)
}

/// Whether one of the bytes is zero.
fn has_zero(bytes: &[u8]) -> (found: bool)
    ensures
        found == bytes@.contains(0u8),
{
    let mut i: usize = 0;
    while i < bytes.len()
        invariant
            i <= bytes.len(),
            forall|j: int| 0 <= j < i ==> bytes@[j] != 0,
        decreases bytes.len() - i,
    {
        if bytes[i] == 0 {
            return true;
        }
        i = i + 1;
    }
    false
}

/// Puts a text behind a prefix at the end of a line, where there is a text.
fn append_prefixed(line: &mut String, prefix: &str, text: Option<&String>)
    ensures
        final(line)@ == old(line)@ + spec_prefixed(prefix@, fields::spec_text_ref(text)),
{
    match text {
        Some(t) => {
            line.append(prefix);
            line.append(t.as_str());
            assert(line@ =~= old(line)@ + (prefix@ + t@));
        },
        None => {
            assert(line@ =~= old(line)@ + Seq::<char>::empty());
        },
    }
}

/// A D-Bus Message.
///
/// The content of the message is stored in serialized format; the header is
/// kept beside it in parsed form. A message is immutable once it is made,
/// and its header is always the header that its bytes encode.
///
/// **Note**: the message carries the numbers of the file descriptors that
/// came with it; the caller that received them owns the descriptors.
#[derive(Debug)]
pub struct Message {
    header: Header,
    bytes: Vec<u8>,
    body_offset: usize,
    fds: Vec<i32>,
    recv_seq: Sequence,
}

/// What a message holds.
pub struct MessageView {
    /// The header.
    pub header: HeaderView,
    /// The bytes of the whole message.
    pub data: Seq<u8>,
    /// The offset of the body in the bytes.
    pub body_offset: int,
    /// The file descriptors that came with the message.
    pub fds: Seq<i32>,
    /// The position in the stream that the message was read from.
    pub recv_seq: u64,
}

impl View for Message {
    type V = MessageView;

    open spec fn view(&self) -> MessageView {
        MessageView {
            header: self.spec_header(),
            data: self.spec_data(),
            body_offset: self.spec_body_offset(),
            fds: self.spec_fds(),
            recv_seq: self.spec_recv_seq(),
        }
    }
}

impl Clone for Message {
    fn clone(&self) -> (copy: Message)
        ensures
            copy.wf(),
            copy.spec_data() == self.spec_data(),
            copy.spec_header() == self.spec_header(),
            copy.spec_body_offset() == self.spec_body_offset(),
            copy.spec_fds() == self.spec_fds(),
            copy.spec_recv_seq() == self.spec_recv_seq(),
    {
        proof {
            use_type_invariant(self);
        }
        let bytes = self.bytes.clone();
        let fds = self.fds.clone();
        assert(bytes@ =~= self.bytes@);
        assert(fds@ =~= self.fds@);
        Message {
            header: self.header.duplicate(),
            bytes,
            body_offset: self.body_offset,
            fds,
            recv_seq: self.recv_seq,
        }
    }
}

impl Message {
    #[verifier::type_invariant]
    closed spec fn inv(&self) -> bool {
        spec_parse_message(self.bytes@) == Ok::<_, ErrorKind>(
            (self.header@, self.body_offset as int),
        )
    }

    /// The bytes of the message.
    pub closed spec fn spec_data(&self) -> Seq<u8> {
        self.bytes@
    }

    /// The header of the message.
    pub closed spec fn spec_header(&self) -> HeaderView {
        self.header@
    }

    /// The offset of the body in the bytes of the message.
    pub closed spec fn spec_body_offset(&self) -> int {
        self.body_offset as int
    }

    /// The file descriptors that came with the message.
    pub closed spec fn spec_fds(&self) -> Seq<i32> {
        self.fds@
    }

    /// The position of the message in the stream it was read from.
    pub closed spec fn spec_recv_seq(&self) -> u64 {
        self.recv_seq.recv_seq
    }

    /// The body of the message: its bytes from the body offset on.
    pub open spec fn spec_body(&self) -> Seq<u8> {
        self.spec_data().subrange(self.spec_body_offset(), self.spec_data().len() as int)
    }

    /// The message is what its bytes encode. This holds of every message
    /// that this library hands out.
    pub closed spec fn wf(&self) -> bool {
        self.inv()
    }

    /// The header and the body offset of a message are those that its bytes
    /// encode.
    pub proof fn lemma_header_of_bytes(&self)
        requires
            self.wf(),
        ensures
            spec_parse_message(self.spec_data()) == Ok::<_, ErrorKind>(
                (self.spec_header(), self.spec_body_offset()),
            ),
    {
    }

    /// Create a builder for message of type [`Type::MethodCall`], with the
    /// next serial number of `serials`. A text that is no object path is
    /// [`Error::Type`], one that is no member name is [`Error::Name`];
    /// serial numbers that are used up are [`Error::ExcessData`].
    pub fn method(path: &str, method_name: &str, serials: &mut SerialCounter) -> (r: Result<
        Builder,
        Error,
    >)
        ensures
            *final(serials) == old(serials).spec_drawn(),
            match r {
                Ok(b) => {
                    &&& b@.primary.msg_type == Type::MethodCall
                    &&& b@.primary.serial_num == old(serials).spec_next()
                    &&& b@.primary.flags == FlagSet::spec_from_bits(0).unwrap()
                    &&& b@.fields == (FieldsView {
                        path: Some(path@),
                        member: Some(method_name@),
                        ..FieldsView::spec_empty()
                    })
                },
                Err(e) => e.spec_kind() == if old(serials).spec_is_exhausted() {
                    ErrorKind::ExcessData
                } else if !is_object_path(path@) {
                    ErrorKind::Type
                } else {
                    ErrorKind::Name
                },
            },
            r is Ok <==> !old(serials).spec_is_exhausted() && is_object_path(path@)
                && is_member_name(method_name@),
    {
        Builder::method_call(path, method_name, serials)
    }

    /// Create a builder for message of type [`Type::Signal`], with the next
    /// serial number of `serials`. A text that is no object path is
    /// [`Error::Type`], one that is no interface or member name is
    /// [`Error::Name`]; serial numbers that are used up are
    /// [`Error::ExcessData`].
    pub fn signal(path: &str, iface: &str, signal_name: &str, serials: &mut SerialCounter) -> (r:
        Result<Builder, Error>)
        ensures
            *final(serials) == old(serials).spec_drawn(),
            match r {
                Ok(b) => {
                    &&& b@.primary.msg_type == Type::Signal
                    &&& b@.primary.serial_num == old(serials).spec_next()
                    &&& b@.primary.flags == FlagSet::spec_from_bits(0).unwrap()
                    &&& b@.fields == (FieldsView {
                        path: Some(path@),
                        interface: Some(iface@),
                        member: Some(signal_name@),
                        ..FieldsView::spec_empty()
                    })
                },
                Err(e) => e.spec_kind() == if old(serials).spec_is_exhausted() {
                    ErrorKind::ExcessData
                } else if !is_object_path(path@) {
                    ErrorKind::Type
                } else {
                    ErrorKind::Name
                },
            },
            r is Ok <==> !old(serials).spec_is_exhausted() && is_object_path(path@)
                && is_interface_name(iface@) && is_member_name(signal_name@),
    {
        Builder::signal(path, iface, signal_name, serials)
    }

    /// Create a builder for message of type [`Type::MethodReturn`] that
    /// answers `call`: in its byte order, with its serial number as reply
    /// serial and its sender, if it names one, as destination. This fails
    /// only where the serial numbers are used up, with
    /// [`Error::ExcessData`].
    pub fn method_reply(call: &Message, serials: &mut SerialCounter) -> (r: Result<Builder, Error>)
        ensures
            *final(serials) == old(serials).spec_drawn(),
            match r {
                Ok(b) => {
                    &&& !old(serials).spec_is_exhausted()
                    &&& b@.primary.msg_type == Type::MethodReturn
                    &&& b@.primary.serial_num == old(serials).spec_next()
                    &&& b@.primary.endian_sig == call.spec_header().primary.endian_sig
                    &&& b@.fields == (FieldsView {
                        reply_serial: Some(call.spec_header().primary.serial_num),
                        destination: call.spec_header().fields.sender,
                        ..FieldsView::spec_empty()
                    })
                },
                Err(e) => e is ExcessData && old(serials).spec_is_exhausted(),
            },
    {
        proof {
            use_type_invariant(call);
        }
        Builder::method_return(&call.header, serials)
    }

    /// Create a builder for message of type [`Type::Error`] that answers
    /// `call` with the error of the given name. A text that is no error
    /// name is [`Error::Name`]; serial numbers that are used up are
    /// [`Error::ExcessData`].
    pub fn method_error(call: &Message, name: &str, serials: &mut SerialCounter) -> (r: Result<
        Builder,
        Error,
    >)
        ensures
            *final(serials) == old(serials).spec_drawn(),
            match r {
                Ok(b) => {
                    &&& !old(serials).spec_is_exhausted()
                    &&& is_error_name(name@)
                    &&& b@.primary.msg_type == Type::Error
                    &&& b@.primary.serial_num == old(serials).spec_next()
                    &&& b@.primary.endian_sig == call.spec_header().primary.endian_sig
                    &&& b@.fields == (FieldsView {
                        error_name: Some(name@),
                        reply_serial: Some(call.spec_header().primary.serial_num),
                        destination: call.spec_header().fields.sender,
                        ..FieldsView::spec_empty()
                    })
                },
                Err(e) => if old(serials).spec_is_exhausted() {
                    e is ExcessData
                } else {
                    e is Name && !is_error_name(name@)
                },
            },
    {
        proof {
            use_type_invariant(call);
        }
        Builder::error(&call.header, name, serials)
    }

    /// Create a message from bytes.
    ///
    /// **Note:** Since the constructed message was not read from a
    /// connection, its receive sequence, which can be acquired from
    /// [`Message::recv_position`], is not applicable and hence set to `0`.
    pub fn from_bytes(bytes: Vec<u8>, fds: Vec<i32>) -> (r: Result<Message, Error>)
        ensures
            match r {
                Ok(m) => {
                    &&& spec_parse_message(bytes@) == Ok::<_, ErrorKind>(
                        (m.spec_header(), m.spec_body_offset()),
                    )
                    &&& m.wf()
                    &&& m.spec_data() == bytes@
                    &&& m.spec_fds() == fds@
                    &&& m.spec_recv_seq() == 0
                },
                Err(e) => spec_parse_message(bytes@) == Err::<(HeaderView, int), _>(e.spec_kind()),
            },
    {
        Self::from_raw_parts(bytes, fds, 0)
    }

    /// Create a message from its full contents: the bytes of one whole
    /// message, the file descriptors that came with them, and the position
    /// in the stream.
    pub fn from_raw_parts(bytes: Vec<u8>, fds: Vec<i32>, recv_seq: u64) -> (r: Result<
        Message,
        Error,
    >)
        ensures
            match r {
                Ok(m) => {
                    &&& spec_parse_message(bytes@) == Ok::<_, ErrorKind>(
                        (m.spec_header(), m.spec_body_offset()),
                    )
                    &&& m.wf()
                    &&& m.spec_data() == bytes@
                    &&& m.spec_fds() == fds@
                    &&& m.spec_recv_seq() == recv_seq
                },
                Err(e) => spec_parse_message(bytes@) == Err::<(HeaderView, int), _>(e.spec_kind()),
            },
    {
        let total = frame_len(bytes.as_slice())?;
        if bytes.len() != total {
            return Err(Error::Type("not one whole message".to_owned()));
        }
        let (primary, fields_len) = PrimaryHeader::read(bytes.as_slice())?;
        let header_len: usize = 16 + fields_len as usize;
        let body_offset: usize = header_len + padding_for_8_bytes(header_len);
        let fields = Fields::read(bytes.as_slice(), header_len, primary.endian_sig())?;
        fields.validate()?;
        let header = Header::new(primary, fields);
        Ok(Message { header, bytes, body_offset, fds, recv_seq: Sequence { recv_seq } })
    }

    /// The primary header of the message.
    pub fn primary_header(&self) -> (primary: &PrimaryHeader)
        ensures
            *primary == self.spec_header().primary,
    {
        self.header.primary()
    }

    /// The message header.
    pub fn header(&self) -> (header: Header)
        ensures
            header@ == self.spec_header(),
    {
        self.header.duplicate()
    }

    /// The message type.
    pub fn message_type(&self) -> (t: Type)
        ensures
            t == self.spec_header().primary.msg_type,
    {
        self.header.message_type()
    }

    /// The body of the message, in serialized form.
    pub fn body(&self) -> (body: &[u8])
        ensures
            body@ == self.spec_body(),
            body@.len() == self.spec_header().primary.body_len,
    {
        proof {
            use_type_invariant(self);
        }
        slice_subrange(self.bytes.as_slice(), self.body_offset, self.bytes.len())
    }

    /// The offset of the body in the bytes of the message: a multiple of
    /// eight, fewer than eight bytes behind the end of the header.
    pub fn body_offset(&self) -> (offset: usize)
        ensures
            offset == self.spec_body_offset(),
            offset % 8 == 0,
            offset + self.spec_header().primary.body_len == self.spec_data().len(),
            offset <= MAX_MESSAGE_SIZE,
    {
        proof {
            use_type_invariant(self);
        }
        self.body_offset
    }

    /// Get a reference to the underlying byte encoding of the message.
    pub fn data(&self) -> (data: &[u8])
        ensures
            self.wf(),
            data@ == self.spec_data(),
            data@.len() <= MAX_MESSAGE_SIZE,
    {
        proof {
            use_type_invariant(self);
        }
        self.bytes.as_slice()
    }

    /// The file descriptors that came with the message.
    pub fn fds(&self) -> (fds: &[i32])
        ensures
            fds@ == self.spec_fds(),
    {
        self.fds.as_slice()
    }

    /// The signature of the body, if the header names one.
    pub fn body_signature(&self) -> (signature: Option<&String>)
        ensures
            fields::spec_text_ref(signature) == self.spec_header().fields.signature,
    {
        self.header.signature()
    }

    /// The text that the body starts with, if it starts with one, as
    /// [`spec_first_text`] says.
    pub fn first_text(&self) -> (text: Option<String>)
        ensures
            fields::spec_text(text) == spec_first_text(
                self.spec_header().fields.signature,
                self.spec_body(),
                self.spec_header().primary.endian_sig,
            ),
    {
        let signature = match self.header.signature() {
            Some(s) => s,
            None => {
                return None;
            },
        };
        if signature.as_str().unicode_len() == 0 {
            return None;
        }
        let first = signature.as_str().get_char(0);
        let short = first == 'g' || first == 'v';
        if !(short || first == 's' || first == 'o') {
            return None;
        }
        let body = self.body();
        let text_at: usize = if short {
            1
        } else {
            4
        };
        if body.len() < text_at {
            return None;
        }
        let len: usize = if short {
            body[0] as usize
        } else {
            read_u32(body, 0, self.header.primary().endian_sig()) as usize
        };
        if len > body.len() - text_at {
            return None;
        }
        let bytes = slice_subrange(body, text_at, text_at + len);
        if has_zero(bytes) {
            return None;
        }
        text_from_utf8(bytes)
    }

    /// One line that says what the message is, as [`spec_describe`] says.
    pub fn to_string(&self) -> (line: String)
        ensures
            line@ == spec_describe(
                self.spec_header(),
                spec_first_text(
                    self.spec_header().fields.signature,
                    self.spec_body(),
                    self.spec_header().primary.endian_sig,
                ),
            ),
    {
        let mut line = String::new();
        match self.header.message_type() {
            Type::MethodCall => {
                line.append("Method call");
                append_prefixed(&mut line, " ", self.header.member());
            },
            Type::MethodReturn => {
                line.append("Method return");
            },
            Type::Error => {
                line.append("Error");
                append_prefixed(&mut line, " ", self.header.error_name());
                let text = self.first_text();
                append_prefixed(&mut line, ": ", text.as_ref());
            },
            Type::Signal => {
                line.append("Signal");
                append_prefixed(&mut line, " ", self.header.member());
            },
        }
        append_prefixed(&mut line, " from ", self.header.sender());
        assert(line@ =~= spec_describe(
            self.spec_header(),
            spec_first_text(
                self.spec_header().fields.signature,
                self.spec_body(),
                self.spec_header().primary.endian_sig,
            ),
        ));
        line
    }

    /// The length of the header of a message, as its bytes give it: the 16
    /// fixed bytes and the field array.
    pub open spec fn spec_header_len(&self) -> int {
        16 + PrimaryHeader::spec_read(self.spec_data())->Ok_0.1
    }

    /// Alignment: the body of a message starts on an 8-byte boundary, fewer
    /// than eight bytes behind the end of the header, and ends where the
    /// message ends.
    pub proof fn lemma_alignment(&self)
        requires
            self.wf(),
        ensures
            self.spec_body_offset() % 8 == 0,
            0 <= self.spec_body_offset() - self.spec_header_len() < 8,
            self.spec_body_offset() + self.spec_header().primary.body_len
                == self.spec_data().len(),
            self.spec_data().len() <= MAX_MESSAGE_SIZE,
    {
    }

    /// Get the receive ordering of a message.
    ///
    /// This may be used to identify how two events were ordered on the bus.
    /// It only produces a useful ordering for messages that were produced by
    /// the same connection.
    ///
    /// This is completely unrelated to the serial number on the message,
    /// which is set by the peer and might not be ordered at all.
    pub fn recv_position(&self) -> (seq: Sequence)
        ensures
            seq.recv_seq == self.spec_recv_seq(),
    {
        self.recv_seq
    }
}

} // verus!
